//! Errores propios de la capa de aplicación.

use vstd::prelude::*;
use super::ports::{ErrorRepositorio, texto_error_repositorio};

verus! {

/// Error de un caso de uso.
#[derive(Debug)]
pub enum ErrorAplicacion {
    /// Datos de entrada con formato inválido.
    Validacion(String),
    /// Fallo del puerto de persistencia.
    Repositorio(ErrorRepositorio),
}

/// Texto con el que se muestra un error de aplicación.
pub open spec fn texto_error_aplicacion(e: ErrorAplicacion) -> Seq<char> {
    match e {
        ErrorAplicacion::Validacion(d) => "validación: "@ + d@,
        ErrorAplicacion::Repositorio(r) => "persistencia: "@ + texto_error_repositorio(r),
    }
}

/// `r` es un error de validación con el mensaje `m`.
pub open spec fn es_validacion<T>(r: Result<T, ErrorAplicacion>, m: Seq<char>) -> bool {
    r matches Err(ErrorAplicacion::Validacion(d)) && d@ == m
}

impl ErrorAplicacion {
    /// Texto con el que se muestra el error.
    pub fn descripcion(&self) -> (r: String)
        ensures
            r@ == texto_error_aplicacion(*self),
    {
        match self {
            ErrorAplicacion::Validacion(d) => {
                let mut r = String::from_str("validación: ");
                r.append(d.as_str());
                r
            },
            ErrorAplicacion::Repositorio(e) => {
                let mut r = String::from_str("persistencia: ");
                let t = e.descripcion();
                r.append(t.as_str());
                r
            },
        }
    }
}

impl From<ErrorRepositorio> for ErrorAplicacion {
    fn from(error: ErrorRepositorio) -> (r: ErrorAplicacion) {
        ErrorAplicacion::Repositorio(error)
    }
}

impl vstd::std_specs::convert::FromSpecImpl<ErrorRepositorio> for ErrorAplicacion {
    open spec fn obeys_from_spec() -> bool {
        true
    }

    open spec fn from_spec(v: ErrorRepositorio) -> ErrorAplicacion {
        ErrorAplicacion::Repositorio(v)
    }
}

} // verus!
