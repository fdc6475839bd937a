//! Casos de uso del panel de Ajustes: configuraciones persistidas en el
//! puerto clave-valor. Las claves viven aquí.

use vstd::prelude::*;
use std::sync::Arc;
use super::error::{ErrorAplicacion, es_validacion};
use super::ports::{ConfiguracionAppRepository, ErrorRepositorio, Logger};
use super::service::delegado;
use super::validation::monto_valido;
use crate::domain::monto::{
    comas_a_puntos, monto_de_texto, monto_desde_texto_normalizado, recortado, texto_de_monto,
    texto_monto, leer_el_texto_de_un_monto_lo_recupera, lema_monto_no_negativo, lema_decimal_nat, recorte, es_espacio,
};
use crate::domain::texto::digito;

verus! {

/// Clave del monto sugerido de mensualidad.
pub const CLAVE_MONTO_MENSUALIDAD: &'static str = "monto_mensualidad";

/// Monto de mensualidad que expresa el texto guardado en el ajuste: sin
/// espacios en los extremos, con la coma como punto decimal y positivo.
pub open spec fn monto_de_ajuste(texto: Seq<char>) -> Option<int> {
    match monto_de_texto(comas_a_puntos(recortado(texto))) {
        Some(m) => if m > 0 {
            Some(m)
        } else {
            None
        },
        None => None,
    }
}

/// Interpreta el texto guardado en el ajuste de mensualidad; `None` si no
/// expresa un monto positivo.
pub fn interpretar_monto_de_ajuste(texto: &str) -> (r: Option<i64>)
    ensures
        r == (match monto_de_ajuste(texto@) {
            Some(m) => Some(m as i64),
            None => None,
        }),
{
    proof {
        lema_monto_no_negativo(comas_a_puntos(recortado(texto@)));
    }
    match monto_desde_texto_normalizado(texto) {
        Some(m) => if monto_valido(m) {
            Some(m)
        } else {
            None
        },
        None => None,
    }
}

/// Lo que el ajuste de mensualidad leído vale: el error del puerto; `None`
/// si nunca se configuró o si el texto no expresa un monto positivo; si no,
/// el monto.
pub open spec fn es_mensualidad_configurada(
    r: Result<Option<i64>, ErrorAplicacion>,
    leido: Result<Option<String>, ErrorRepositorio>,
) -> bool {
    match leido {
        Err(e) => r == Err::<Option<i64>, ErrorAplicacion>(ErrorAplicacion::Repositorio(e)),
        Ok(None) => r == Ok::<Option<i64>, ErrorAplicacion>(None),
        Ok(Some(t)) => r == Ok::<Option<i64>, ErrorAplicacion>(
            match monto_de_ajuste(t@) {
                Some(m) => Some(m as i64),
                None => None,
            },
        ),
    }
}

/// Interpreta lo que el puerto devolvió para el ajuste de mensualidad.
pub fn mensualidad_configurada(leido: Result<Option<String>, ErrorRepositorio>) -> (r: Result<
    Option<i64>,
    ErrorAplicacion,
>)
    ensures
        es_mensualidad_configurada(r, leido),
{
    match leido {
        Err(e) => Err(ErrorAplicacion::Repositorio(e)),
        Ok(None) => Ok(None),
        Ok(Some(t)) => Ok(interpretar_monto_de_ajuste(t.as_str())),
    }
}

/// El texto con el que se guarda un monto positivo se interpreta como ese
/// mismo monto: lo que se fija en Ajustes es lo que se lee después.
pub proof fn fijar_y_leer_el_monto_lo_recupera(c: int)
    requires
        0 < c <= i64::MAX,
    ensures
        monto_de_ajuste(texto_monto(c as nat)) == Some(c),
{
    let s = texto_monto(c as nat);
    lema_decimal_nat((c / 100) as nat);
    assert forall|i: int| 0 <= i < s.len() implies !es_espacio(#[trigger] s[i]) && s[i] != ',' by {
        let d = crate::domain::texto::decimal_nat((c / 100) as nat);
        if i < d.len() {
            assert(s[i] == d[i]);
        } else {
            let f = c % 100;
            if i == d.len() {
                assert(s[i] == '.');
            } else if i == d.len() + 1 {
                assert(s[i] == digito(f / 10));
            } else {
                assert(s[i] == digito(f % 10));
            }
        }
    }
    assert(recorte(s, 0, s.len() as int));
    let (a, b) = choose|a: int, b: int| recorte(s, a, b);
    assert(s.len() >= 1);
    if a > 0 {
        assert(es_espacio(s[0]));
    }
    if b < s.len() {
        assert(es_espacio(s[s.len() - 1]));
    }
    if a == b {
        assert(es_espacio(s[0]));
    }
    assert(recortado(s) =~= s);
    assert(comas_a_puntos(s) =~= s);
    leer_el_texto_de_un_monto_lo_recupera(c);
}

/// Casos de uso del panel de Ajustes.
pub struct ServicioAjustes<R: ConfiguracionAppRepository + ?Sized, L: Logger + ?Sized> {
    repositorio: Arc<R>,
    logger: Arc<L>,
}

impl<R: ConfiguracionAppRepository + ?Sized, L: Logger + ?Sized> ServicioAjustes<R, L> {
    pub fn nuevo(repositorio: Arc<R>, logger: Arc<L>) -> (r: Self)
        ensures
            r.repositorio() == repositorio,
            r.logger() == logger,
    {
        ServicioAjustes { repositorio, logger }
    }

    /// Repositorio en el que delega el servicio.
    pub closed spec fn repositorio(&self) -> Arc<R> {
        self.repositorio
    }

    /// Registro de eventos del servicio.
    pub closed spec fn logger(&self) -> Arc<L> {
        self.logger
    }

    /// Monto predeterminado de mensualidad: `None` si nunca se configuró o si
    /// el valor guardado no es un monto positivo (se registra y se ignora);
    /// lo que `mensualidad_configurada` da para lo que devuelva el puerto.
    pub fn monto_mensualidad(&self) -> (r: Result<Option<i64>, ErrorAplicacion>)
        ensures
            exists|leido: Result<Option<String>, ErrorRepositorio>| #[trigger] es_mensualidad_configurada(r, leido),
            exists|leido: Result<Option<String>, ErrorRepositorio>|
                #[trigger] call_ensures(R::obtener, (&*self.repositorio(), CLAVE_MONTO_MENSUALIDAD), leido)
                    && es_mensualidad_configurada(r, leido),
            delegado(r),
            r matches Ok(Some(m)) ==> m > 0,
    {
        let leido = self.repositorio.obtener(CLAVE_MONTO_MENSUALIDAD);
        match &leido {
            Ok(Some(texto)) => {
                if interpretar_monto_de_ajuste(texto.as_str()).is_none() {
                    let mut mensaje = String::from_str("El ajuste '");
                    mensaje.append(CLAVE_MONTO_MENSUALIDAD);
                    mensaje.append("' tiene un valor inválido ('");
                    mensaje.append(texto.as_str());
                    mensaje.append("'); se ignora");
                    self.logger.error(mensaje.as_str());
                }
            },
            _ => {},
        }
        let ghost l = leido;
        assert(call_ensures(R::obtener, (&*self.repositorio(), CLAVE_MONTO_MENSUALIDAD), l));
        let r = mensualidad_configurada(leido);
        assert(es_mensualidad_configurada(r, l));
        r
    }

    /// Fija el monto predeterminado (en centavos) validándolo antes de
    /// persistir su texto (`texto_monto(monto)`).
    pub fn fijar_monto_mensualidad(&self, monto: i64) -> (r: Result<(), ErrorAplicacion>)
        ensures
            monto <= 0 ==> es_validacion(r, "El monto debe ser un número positivo."@),
            monto > 0 ==> delegado(r),
            r is Ok ==> exists|texto: &str|
                texto@ == texto_monto(monto as nat) && #[trigger] call_ensures(
                    R::guardar,
                    (&*self.repositorio(), CLAVE_MONTO_MENSUALIDAD, texto),
                    Ok::<(), ErrorRepositorio>(()),
                ),
    {
        if !monto_valido(monto) {
            return Err(
                ErrorAplicacion::Validacion(
                    String::from_str("El monto debe ser un número positivo."),
                ),
            );
        }
        let texto = texto_de_monto(monto);
        let t = texto.as_str();
        match self.repositorio.guardar(CLAVE_MONTO_MENSUALIDAD, t) {
            Err(e) => return Err(ErrorAplicacion::Repositorio(e)),
            Ok(u) => {
                assert(call_ensures(
                    R::guardar,
                    (&*self.repositorio(), CLAVE_MONTO_MENSUALIDAD, t),
                    Ok::<(), ErrorRepositorio>(()),
                ));
            },
        }
        self.logger.debug("Monto de mensualidad actualizado");
        Ok(())
    }
}

} // verus!
