//! Ficha de alumno con el representante como texto libre junto a su
//! número de contacto. La cinta y el grado se calculan igual que en el
//! dominio.

use vstd::prelude::*;
use crate::domain::alumno::{texto_cinta, texto_edad, texto_rango};
use crate::domain::fecha::{Fecha, fecha_de_texto, hoy};
use crate::domain::texto::{agregar_entero, agregar_natural, decimal, decimal_nat};

pub use crate::domain::cintas::Cintas;

verus! {

/// Alumno con el representante como texto libre.
#[derive(PartialEq, Debug)]
pub struct Alumno {
    pub id: usize,
    pub nombre: String,
    pub rango: i32,
    pub fecha_de_nacimiento: String,
    pub representante: String,
    pub numero_contacto: String,
    pub rallita: bool,
}

/// Texto de la ficha técnica del alumno en `hoy`.
pub open spec fn texto_ficha(a: Alumno, hoy: Fecha) -> Seq<char> {
    "Ficha Técnica del Alumno\n==========================\nID:             "@ + decimal_nat(
        a.id as nat,
    ) + "\nNombre:         "@ + a.nombre@ + "\nFecha de Nac.:  "@ + a.fecha_de_nacimiento@
        + "\nEdad:           "@ + texto_edad(a.fecha_de_nacimiento@, hoy) + " años"@
        + "\nGrado (Kyu):    "@ + decimal(a.rango as int) + "\nCinta/Nivel:    "@ + texto_cinta(
        a.rango as int,
        a.rallita,
    ) + "\nRepresentante:  "@ + a.representante@ + "\nContacto:       "@ + a.numero_contacto@
        + "\nCon Rallita:    "@ + (if a.rallita {
        "Sí"@
    } else {
        "No"@
    }) + "\n========================="@
}

impl Alumno {
    /// Texto de la cinta: el color del rango y, con rallita, el del rango
    /// siguiente en la progresión.
    pub fn cinta(&self) -> (r: String)
        ensures
            r@ == texto_cinta(self.rango as int, self.rallita),
    {
        let mut texto = String::from_str(Cintas::from_rango(self.rango).nombre());
        if self.rallita {
            let anterior = if self.rango > i32::MIN {
                self.rango - 1
            } else {
                self.rango
            };
            texto.append(" ralla ");
            texto.append(Cintas::from_rango(anterior).nombre());
        }
        texto
    }

    /// Edad respecto de `fecha_actual`: "N años", o "?? años" si la fecha de
    /// nacimiento no está en el formato canónico.
    pub fn edad_en(&self, fecha_actual: Fecha) -> (r: String)
        requires
            fecha_actual.valida(),
        ensures
            r@ == texto_edad(self.fecha_de_nacimiento@, fecha_actual),
    {
        match fecha_de_texto(self.fecha_de_nacimiento.as_str()) {
            Some(nac) => {
                let mut anios: i32 = fecha_actual.anio - nac.anio;
                if fecha_actual.mes < nac.mes || (fecha_actual.mes == nac.mes
                    && fecha_actual.dia < nac.dia) {
                    anios = anios - 1;
                }
                let mut texto = String::new();
                agregar_entero(&mut texto, anios as i64);
                texto.append(" años");
                assert(texto@ =~= texto_edad(self.fecha_de_nacimiento@, fecha_actual));
                texto
            },
            None => {
                let mut texto = String::from_str("??");
                texto.append(" años");
                texto
            },
        }
    }

    /// Edad a la fecha local de hoy. Lo que se afirma es lo de `edad_en` para
    /// la fecha que da el reloj, que no se conoce de antemano.
    pub fn edad(&self) -> (r: String)
        ensures
            exists|f: Fecha| f.valida() && r@ == texto_edad(self.fecha_de_nacimiento@, f),
    {
        let f = hoy();
        self.edad_en(f)
    }

    /// Texto del grado: "N kyu", "N kyu B" con rallita, o "N Dan".
    pub fn rango(&self) -> (r: String)
        requires
            self.rango > i32::MIN + 1,
        ensures
            r@ == texto_rango(self.rango as int, self.rallita),
    {
        let mut texto = String::new();
        if self.rango > 0 && !self.rallita {
            agregar_entero(&mut texto, self.rango as i64);
            texto.append(" kyu");
        } else if self.rango > 0 && self.rallita {
            agregar_entero(&mut texto, self.rango as i64);
            texto.append(" kyu B");
        } else {
            let r: i64 = 1 - (self.rango as i64);
            agregar_entero(&mut texto, r);
            texto.append(" Dan");
        }
        assert(texto@ =~= texto_rango(self.rango as int, self.rallita));
        texto
    }

    /// Ficha técnica del alumno en `fecha_actual`.
    pub fn ficha_tecnica_en(&self, fecha_actual: Fecha) -> (r: String)
        requires
            fecha_actual.valida(),
        ensures
            r@ == texto_ficha(*self, fecha_actual),
    {
        let mut s = String::from_str(
            "Ficha Técnica del Alumno\n==========================\nID:             ",
        );
        agregar_natural(&mut s, self.id as u64);
        s.append("\nNombre:         ");
        s.append(self.nombre.as_str());
        s.append("\nFecha de Nac.:  ");
        s.append(self.fecha_de_nacimiento.as_str());
        s.append("\nEdad:           ");
        s.append(self.edad_en(fecha_actual).as_str());
        s.append(" años");
        s.append("\nGrado (Kyu):    ");
        agregar_entero(&mut s, self.rango as i64);
        s.append("\nCinta/Nivel:    ");
        s.append(self.cinta().as_str());
        s.append("\nRepresentante:  ");
        s.append(self.representante.as_str());
        s.append("\nContacto:       ");
        s.append(self.numero_contacto.as_str());
        s.append("\nCon Rallita:    ");
        s.append(if self.rallita { "Sí" } else { "No" });
        s.append("\n=========================");
        assert(s@ =~= texto_ficha(*self, fecha_actual));
        s
    }

    /// Ficha técnica del alumno a la fecha local de hoy.
    pub fn ficha_tecnica(&self) -> (r: String)
        ensures
            exists|f: Fecha| f.valida() && r@ == texto_ficha(*self, f),
    {
        let f = hoy();
        self.ficha_tecnica_en(f)
    }
}

impl Clone for Alumno {
    fn clone(&self) -> (r: Self)
        ensures
            r == *self,
    {
        Alumno {
            id: self.id,
            nombre: self.nombre.clone(),
            rango: self.rango,
            fecha_de_nacimiento: self.fecha_de_nacimiento.clone(),
            representante: self.representante.clone(),
            numero_contacto: self.numero_contacto.clone(),
            rallita: self.rallita,
        }
    }
}

} // verus!
