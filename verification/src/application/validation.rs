//! Única fuente de verdad para las validaciones de formato de entrada. La
//! interfaz reutiliza estas mismas funciones para el aviso en vivo.

use vstd::prelude::*;
use super::dto::{DatosAbono, DatosAlumno, DatosPago, DatosRepresentante};
use super::error::{ErrorAplicacion, es_validacion};
use crate::domain::fecha::{fecha_de, fecha_de_texto};

verus! {

/// Fecha en el formato canónico "YYYY-MM-DD".
pub open spec fn fecha_valida(fecha: Seq<char>) -> bool {
    fecha_de(fecha) is Some
}

/// Teléfono de contacto: no vacío y de al menos 12 bytes.
pub open spec fn contacto_ok(numero: Seq<char>) -> bool {
    numero.len() > 0 && (vstd::utf8::encode_utf8(numero).len() as usize) >= 12
}

/// Mensaje del primer error de validación de un alumno, si lo hay.
pub open spec fn error_de_alumno(datos: DatosAlumno) -> Option<Seq<char>> {
    if datos.nombre@.len() == 0 {
        Some("El nombre no puede estar vacío."@)
    } else if !(datos.fecha_de_nacimiento@.len() > 0 && fecha_valida(datos.fecha_de_nacimiento@)) {
        Some("La fecha de nacimiento no es válida."@)
    } else if datos.representante_id == 0 {
        Some("El representante no puede estar vacío."@)
    } else {
        None
    }
}

/// Mensaje del primer error de validación de un representante, si lo hay.
pub open spec fn error_de_representante(datos: DatosRepresentante) -> Option<Seq<char>> {
    if datos.nombre@.len() == 0 {
        Some("El nombre del representante no puede estar vacío."@)
    } else if !contacto_ok(datos.numero_contacto@) {
        Some("El teléfono de contacto no es válido."@)
    } else {
        None
    }
}

/// Mensaje del primer error de validación de un pago, si lo hay.
pub open spec fn error_de_pago(datos: DatosPago) -> Option<Seq<char>> {
    if datos.representante_id == 0 {
        Some("Seleccione un representante."@)
    } else if datos.monto_recibido <= 0 {
        Some("El monto debe ser un número positivo."@)
    } else {
        None
    }
}

/// Mensaje del primer error de validación de un abono, si lo hay.
pub open spec fn error_de_abono(datos: DatosAbono) -> Option<Seq<char>> {
    if datos.deuda_id == 0 {
        Some("Seleccione una deuda."@)
    } else if datos.monto <= 0 {
        Some("El monto debe ser un número positivo."@)
    } else {
        None
    }
}

/// Resultado de una validación: error de validación con el mensaje, o Ok.
pub open spec fn resultado_de_validacion(r: Result<(), ErrorAplicacion>, error: Option<Seq<char>>) -> bool {
    match error {
        Some(m) => es_validacion(r, m),
        None => r is Ok,
    }
}

/// Verifica que el texto tenga formato de fecha YYYY-MM-DD.
pub fn es_fecha_valida(fecha: &str) -> (r: bool)
    ensures
        r == fecha_valida(fecha@),
{
    match fecha_de_texto(fecha) {
        Some(_) => true,
        None => false,
    }
}

/// Fecha válida para formularios: además no puede estar vacía.
pub fn es_fecha_valida_form(fecha: &str) -> (r: bool)
    ensures
        r == (fecha@.len() > 0 && fecha_valida(fecha@)),
{
    !fecha.is_empty() && es_fecha_valida(fecha)
}

/// El contacto no puede estar vacío y ocupa al menos 12 bytes.
pub fn contacto_valido(numero: &str) -> (r: bool)
    ensures
        r == contacto_ok(numero@),
{
    !(numero.is_empty() || numero.len() < 12)
}

/// El nombre es obligatorio.
pub fn nombre_valido(nombre: &str) -> (r: bool)
    ensures
        r == (nombre@.len() > 0),
{
    !nombre.is_empty()
}

/// El representante es obligatorio.
pub fn representante_valido(representante: &str) -> (r: bool)
    ensures
        r == (representante@.len() > 0),
{
    !representante.is_empty()
}

/// Un monto es válido si es positivo.
pub fn monto_valido(monto: i64) -> (r: bool)
    ensures
        r == (monto > 0),
{
    monto > 0
}

/// Validación completa antes de persistir un alumno: devuelve el primer
/// error encontrado.
pub fn validar_datos_alumno(datos: &DatosAlumno) -> (r: Result<(), ErrorAplicacion>)
    ensures
        resultado_de_validacion(r, error_de_alumno(*datos)),
{
    if !nombre_valido(datos.nombre.as_str()) {
        return Err(ErrorAplicacion::Validacion(String::from_str("El nombre no puede estar vacío.")));
    }
    if !es_fecha_valida_form(datos.fecha_de_nacimiento.as_str()) {
        return Err(
            ErrorAplicacion::Validacion(String::from_str("La fecha de nacimiento no es válida.")),
        );
    }
    if datos.representante_id == 0 {
        return Err(
            ErrorAplicacion::Validacion(String::from_str("El representante no puede estar vacío.")),
        );
    }
    Ok(())
}

/// Validación completa antes de persistir un representante.
pub fn validar_datos_representante(datos: &DatosRepresentante) -> (r: Result<(), ErrorAplicacion>)
    ensures
        resultado_de_validacion(r, error_de_representante(*datos)),
{
    if !nombre_valido(datos.nombre.as_str()) {
        return Err(
            ErrorAplicacion::Validacion(
                String::from_str("El nombre del representante no puede estar vacío."),
            ),
        );
    }
    if !contacto_valido(datos.numero_contacto.as_str()) {
        return Err(
            ErrorAplicacion::Validacion(String::from_str("El teléfono de contacto no es válido.")),
        );
    }
    Ok(())
}

/// Validación de un pago antes de registrarlo.
pub fn validar_datos_pago(datos: &DatosPago) -> (r: Result<(), ErrorAplicacion>)
    ensures
        resultado_de_validacion(r, error_de_pago(*datos)),
{
    if datos.representante_id == 0 {
        return Err(ErrorAplicacion::Validacion(String::from_str("Seleccione un representante.")));
    }
    if !monto_valido(datos.monto_recibido) {
        return Err(
            ErrorAplicacion::Validacion(String::from_str("El monto debe ser un número positivo.")),
        );
    }
    Ok(())
}

/// Validación de un abono antes de registrarlo.
pub fn validar_datos_abono(datos: &DatosAbono) -> (r: Result<(), ErrorAplicacion>)
    ensures
        resultado_de_validacion(r, error_de_abono(*datos)),
{
    if datos.deuda_id == 0 {
        return Err(ErrorAplicacion::Validacion(String::from_str("Seleccione una deuda.")));
    }
    if !monto_valido(datos.monto) {
        return Err(
            ErrorAplicacion::Validacion(String::from_str("El monto debe ser un número positivo.")),
        );
    }
    Ok(())
}

} // verus!
