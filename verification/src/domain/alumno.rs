//! Entidad de negocio `Alumno`: datos y reglas de cálculo puras.

use vstd::prelude::*;
use super::cintas::Cintas;
pub use super::fecha::FORMATO_FECHA;
use super::fecha::{Fecha, fecha_de, fecha_de_texto, hoy};
use super::texto::{decimal, decimal_nat, agregar_entero, agregar_natural};

verus! {

/// Alumno de la escuela. Se relaciona con el representante que paga su
/// mensualidad mediante `representante_id`.
#[derive(PartialEq, Debug)]
pub struct Alumno {
    pub id: usize,
    pub nombre: String,
    pub rango: i32,
    pub fecha_de_nacimiento: String,
    /// Representante (adulto responsable) que paga la mensualidad.
    pub representante_id: usize,
    pub rallita: bool,
    /// Estado en `cat_estados_alumno`: 1=Activo, 2=Inactivo, 3=Suspendido, 4=Retirado.
    pub estado_id: i32,
}

/// Rango anterior, sin bajar del mínimo de `i32`.
pub open spec fn rango_anterior(rango: int) -> int {
    if rango > i32::MIN {
        rango - 1
    } else {
        rango
    }
}

/// Texto de la cinta: el color del rango y, con rallita, el color del rango
/// siguiente en la progresión.
pub open spec fn texto_cinta(rango: int, rallita: bool) -> Seq<char> {
    let base = Cintas::cinta_de_rango(rango).texto_nombre();
    if rallita {
        base + " ralla "@ + Cintas::cinta_de_rango(rango_anterior(rango)).texto_nombre()
    } else {
        base
    }
}

/// Texto del grado: "N kyu", "N kyu B" con rallita, o "N Dan" para rango <= 0
/// (el rango 0 es 1 Dan, el -9 es 10 Dan).
pub open spec fn texto_rango(rango: int, rallita: bool) -> Seq<char> {
    if rango > 0 && !rallita {
        decimal(rango) + " kyu"@
    } else if rango > 0 {
        decimal(rango) + " kyu B"@
    } else {
        decimal(1 - rango) + " Dan"@
    }
}

/// Años cumplidos en `hoy` por quien nació en `nacimiento`: el cumpleaños
/// del día cuenta como cumplido.
pub open spec fn anios_cumplidos(nacimiento: Fecha, hoy: Fecha) -> int {
    let base = hoy.anio - nacimiento.anio;
    if hoy.mes < nacimiento.mes || (hoy.mes == nacimiento.mes && hoy.dia < nacimiento.dia) {
        base - 1
    } else {
        base
    }
}

/// Quien nació en `nacimiento` ya llegó en `hoy` a su cumpleaños número
/// `n`: la fecha (año de nacimiento + `n`, mes y día de nacimiento) no es
/// posterior a `hoy`.
pub open spec fn llego_al_cumpleanios(nacimiento: Fecha, n: int, hoy: Fecha) -> bool {
    let anio = nacimiento.anio + n;
    ||| anio < hoy.anio
    ||| anio == hoy.anio && nacimiento.mes < hoy.mes
    ||| anio == hoy.anio && nacimiento.mes == hoy.mes && nacimiento.dia <= hoy.dia
}

/// La edad son los años completos cumplidos: el mayor `n` cuyo cumpleaños
/// ya llegó. En particular, antes del mes del cumpleaños la edad es la
/// diferencia de años menos uno.
pub proof fn la_edad_son_los_anios_completos(nacimiento: Fecha, hoy: Fecha)
    ensures
        llego_al_cumpleanios(nacimiento, anios_cumplidos(nacimiento, hoy), hoy),
        !llego_al_cumpleanios(nacimiento, anios_cumplidos(nacimiento, hoy) + 1, hoy),
        forall|n: int|
            #[trigger] llego_al_cumpleanios(nacimiento, n, hoy) ==> n <= anios_cumplidos(nacimiento, hoy),
        hoy.mes < nacimiento.mes ==> anios_cumplidos(nacimiento, hoy) == hoy.anio - nacimiento.anio - 1,
{
}

/// Texto de la edad: "N años", o "?? años" si la fecha de nacimiento no está
/// en el formato canónico.
pub open spec fn texto_edad(nacimiento: Seq<char>, hoy: Fecha) -> Seq<char> {
    match fecha_de(nacimiento) {
        Some(nac) => decimal(anios_cumplidos(nac, hoy)) + " años"@,
        None => "??"@ + " años"@,
    }
}

/// Texto de la ficha técnica del alumno en `hoy`.
pub open spec fn texto_ficha(a: Alumno, hoy: Fecha) -> Seq<char> {
    "Ficha Técnica del Alumno\n==========================\nID:                 "@
        + decimal_nat(a.id as nat) + "\nNombre:             "@ + a.nombre@
        + "\nFecha de Nac.:      "@ + a.fecha_de_nacimiento@ + "\nEdad:               "@
        + texto_edad(a.fecha_de_nacimiento@, hoy) + " años"@ + "\nGrado (Kyu):        "@
        + decimal(a.rango as int) + "\nCinta/Nivel:        "@ + texto_cinta(a.rango as int, a.rallita)
        + "\nRepresentante ID:   "@ + decimal_nat(a.representante_id as nat)
        + "\nCon Rallita:        "@ + (if a.rallita {
        "Sí"@
    } else {
        "No"@
    }) + "\n========================="@
}

impl Alumno {
    pub fn cinta(&self) -> (r: String)
        ensures
            r@ == texto_cinta(self.rango as int, self.rallita),
    {
        let mut texto = String::from_str(Cintas::from_rango(self.rango).nombre());
        if self.rallita {
            let anterior = if self.rango > i32::MIN {
                self.rango - 1
            } else {
                self.rango
            };
            texto.append(" ralla ");
            texto.append(Cintas::from_rango(anterior).nombre());
        }
        texto
    }

    /// Edad respecto de la fecha `fecha_actual` que provee quien llama.
    pub fn edad(&self, fecha_actual: Fecha) -> (r: String)
        requires
            fecha_actual.valida(),
        ensures
            r@ == texto_edad(self.fecha_de_nacimiento@, fecha_actual),
    {
        match fecha_de_texto(self.fecha_de_nacimiento.as_str()) {
            Some(nac) => {
                let mut anios: i32 = fecha_actual.anio - nac.anio;
                if fecha_actual.mes < nac.mes || (fecha_actual.mes == nac.mes
                    && fecha_actual.dia < nac.dia) {
                    anios = anios - 1;
                }
                let mut texto = String::new();
                agregar_entero(&mut texto, anios as i64);
                texto.append(" años");
                assert(texto@ =~= texto_edad(self.fecha_de_nacimiento@, fecha_actual));
                texto
            },
            None => {
                let mut texto = String::from_str("??");
                texto.append(" años");
                texto
            },
        }
    }

    pub fn rango(&self) -> (r: String)
        requires
            self.rango > i32::MIN + 1,
        ensures
            r@ == texto_rango(self.rango as int, self.rallita),
    {
        let mut texto = String::new();
        if self.rango > 0 && !self.rallita {
            agregar_entero(&mut texto, self.rango as i64);
            texto.append(" kyu");
        } else if self.rango > 0 && self.rallita {
            agregar_entero(&mut texto, self.rango as i64);
            texto.append(" kyu B");
        } else {
            let r: i64 = 1 - (self.rango as i64);
            agregar_entero(&mut texto, r);
            texto.append(" Dan");
        }
        assert(texto@ =~= texto_rango(self.rango as int, self.rallita));
        texto
    }

    /// Ficha técnica del alumno en `fecha_actual`.
    pub fn ficha_tecnica_en(&self, fecha_actual: Fecha) -> (r: String)
        requires
            fecha_actual.valida(),
        ensures
            r@ == texto_ficha(*self, fecha_actual),
    {
        let mut s = String::from_str(
            "Ficha Técnica del Alumno\n==========================\nID:                 ",
        );
        agregar_natural(&mut s, self.id as u64);
        s.append("\nNombre:             ");
        s.append(self.nombre.as_str());
        s.append("\nFecha de Nac.:      ");
        s.append(self.fecha_de_nacimiento.as_str());
        s.append("\nEdad:               ");
        s.append(self.edad(fecha_actual).as_str());
        s.append(" años");
        s.append("\nGrado (Kyu):        ");
        agregar_entero(&mut s, self.rango as i64);
        s.append("\nCinta/Nivel:        ");
        s.append(self.cinta().as_str());
        s.append("\nRepresentante ID:   ");
        agregar_natural(&mut s, self.representante_id as u64);
        s.append("\nCon Rallita:        ");
        s.append(if self.rallita { "Sí" } else { "No" });
        s.append("\n=========================");
        assert(s@ =~= texto_ficha(*self, fecha_actual));
        s
    }

    /// Ficha técnica del alumno a la fecha local de hoy, que da el reloj.
    pub fn ficha_tecnica(&self) -> (r: String)
        ensures
            exists|f: Fecha| f.valida() && r@ == texto_ficha(*self, f),
    {
        let f = hoy();
        self.ficha_tecnica_en(f)
    }

    /// Regla de negocio: los grados Dan (rango <= 0) nunca llevan rallita.
    pub fn aplica_rallita(rango: i32, rallita: bool) -> (r: bool)
        ensures
            r == (rango > 0 && rallita),
    {
        if rango <= 0 {
            false
        } else {
            rallita
        }
    }
}

/// El rango que produce la conversión desde un grado Dan se muestra como ese
/// mismo grado Dan, con o sin rallita.
pub proof fn el_rango_de_un_dan_se_muestra_como_dan(dan: int, rallita: bool)
    requires
        dan >= 1,
    ensures
        texto_rango(1 - dan, rallita) == decimal(dan) + " Dan"@,
{
}

impl Clone for Alumno {
    fn clone(&self) -> (r: Self)
        ensures
            r == *self,
    {
        Alumno {
            id: self.id,
            nombre: self.nombre.clone(),
            rango: self.rango,
            fecha_de_nacimiento: self.fecha_de_nacimiento.clone(),
            representante_id: self.representante_id,
            rallita: self.rallita,
            estado_id: self.estado_id,
        }
    }
}

} // verus!
