//! Fechas del calendario en el formato canónico del sistema ("%Y-%m-%d").
//! La interpretación del texto y el reloj los provee `chrono`.

use vstd::prelude::*;
use chrono::Datelike;

verus! {

/// Formato canónico de fecha en todo el sistema.
pub const FORMATO_FECHA: &'static str = "%Y-%m-%d";

/// Año más pequeño que admite el calendario.
pub const ANIO_MINIMO: i32 = -262143;

/// Año más grande que admite el calendario.
pub const ANIO_MAXIMO: i32 = 262142;

/// Fecha del calendario (año, mes 1..=12, día 1..=31).
#[derive(Debug, Clone, Copy, PartialEq, Eq, Structural)]
pub struct Fecha {
    pub anio: i32,
    pub mes: u32,
    pub dia: u32,
}

impl Fecha {
    /// Rangos que cumple toda fecha del calendario.
    pub open spec fn valida(self) -> bool {
        &&& ANIO_MINIMO <= self.anio <= ANIO_MAXIMO
        &&& 1 <= self.mes <= 12
        &&& 1 <= self.dia <= 31
    }
}

/// Fecha (año, mes, día) que `chrono` lee de un texto en el formato
/// canónico, o `None` si el texto no es una fecha en ese formato.
pub uninterp spec fn fecha_iso(texto: Seq<char>) -> Option<(i32, u32, u32)>;

/// Llama a `chrono::NaiveDate::parse_from_str(texto, "%Y-%m-%d")` y devuelve
/// año, mes y día de la fecha leída. Se confía en que el resultado es
/// `fecha_iso(texto@)` y en que toda fecha leída está en los rangos del
/// calendario de `chrono` (años -262143..=262142, mes 1..=12, día 1..=31).
#[verifier::external_body]
fn interpretar_fecha_iso(texto: &str) -> (r: Option<(i32, u32, u32)>)
    ensures
        r == fecha_iso(texto@),
        r matches Some(t) ==> ANIO_MINIMO <= t.0 <= ANIO_MAXIMO && 1 <= t.1 <= 12 && 1 <= t.2 <= 31,
{
    match chrono::NaiveDate::parse_from_str(texto, FORMATO_FECHA) {
        Ok(d) => Some((d.year(), d.month(), d.day())),
        Err(_) => None,
    }
}

/// Fecha que representa un texto en el formato canónico.
pub open spec fn fecha_de(texto: Seq<char>) -> Option<Fecha> {
    match fecha_iso(texto) {
        Some(t) => Some(Fecha { anio: t.0, mes: t.1, dia: t.2 }),
        None => None,
    }
}

/// Interpreta un texto en el formato canónico.
pub fn fecha_de_texto(texto: &str) -> (r: Option<Fecha>)
    ensures
        r == fecha_de(texto@),
        r matches Some(f) ==> f.valida(),
{
    match interpretar_fecha_iso(texto) {
        Some(t) => Some(Fecha { anio: t.0, mes: t.1, dia: t.2 }),
        None => None,
    }
}

/// Llama a `chrono::Local::now().date_naive()`: la fecha local de hoy.
/// Depende del reloj y de la zona horaria de la máquina; solo se afirma que
/// es una fecha del calendario.
#[verifier::external_body]
pub(crate) fn hoy() -> (r: Fecha)
    ensures
        r.valida(),
{
    let d = chrono::Local::now().date_naive();
    Fecha { anio: d.year(), mes: d.month(), dia: d.day() }
}

/// Llama a `chrono::Local::now().format("%Y-%m-%d")`: la fecha local de hoy
/// en el formato canónico. Depende del reloj; no se afirma nada del texto.
#[verifier::external_body]
pub(crate) fn hoy_en_texto() -> (r: String) {
    chrono::Local::now().format(FORMATO_FECHA).to_string()
}

} // verus!
