//! Datos que viajan entre la interfaz y los casos de uso: `Datos*` son la
//! entrada de formularios y `*Vista` las proyecciones de lectura. Montos en
//! centavos.

use vstd::prelude::*;
use crate::domain::alumno::Alumno;
use crate::domain::aplicacion_pago::AplicacionPago;
use crate::domain::catalogos::{EstadoDeuda, EstadoPago, MetodoPago};
use crate::domain::deuda::Deuda;
use crate::domain::historial_pago::HistorialPago;
use crate::domain::pago::Pago;

verus! {

/// Entrada para crear o editar un alumno.
#[derive(Debug, Clone, PartialEq)]
pub struct DatosAlumno {
    pub nombre: String,
    pub fecha_de_nacimiento: String,
    pub rango: i32,
    pub representante_id: usize,
    pub rallita: bool,
}

/// Entrada para crear o editar un representante.
#[derive(Debug, Clone, PartialEq)]
pub struct DatosRepresentante {
    pub nombre: String,
    pub numero_contacto: String,
}

/// Entrada para registrar un pago; el motor de aplicación decide a qué
/// deudas se imputa.
#[derive(Debug, Clone, PartialEq)]
pub struct DatosPago {
    pub representante_id: usize,
    /// Monto recibido, en centavos.
    pub monto_recibido: i64,
    pub metodo_id: i32,
    pub fecha_pago: String,
}

/// Proyección de lectura para la tabla de alumnos.
#[derive(Debug, PartialEq)]
pub struct AlumnoVista {
    pub alumno: Alumno,
    pub nombre_representante: String,
    pub telefono_representante: String,
}

impl Clone for AlumnoVista {
    fn clone(&self) -> (r: Self)
        ensures
            r == *self,
    {
        AlumnoVista {
            alumno: self.alumno.clone(),
            nombre_representante: self.nombre_representante.clone(),
            telefono_representante: self.telefono_representante.clone(),
        }
    }
}

/// Proyección de lectura de una deuda con sus datos resueltos.
#[derive(Debug, PartialEq)]
pub struct DeudaVista {
    pub deuda: Deuda,
    pub nombre_representante: String,
    pub telefono_representante: String,
    /// Estado tipado de la deuda.
    pub estado: EstadoDeuda,
}

impl Clone for DeudaVista {
    fn clone(&self) -> (r: Self)
        ensures
            r == *self,
    {
        DeudaVista {
            deuda: self.deuda.clone(),
            nombre_representante: self.nombre_representante.clone(),
            telefono_representante: self.telefono_representante.clone(),
            estado: self.estado,
        }
    }
}

/// Proyección de lectura de un pago con sus datos resueltos.
#[derive(Debug, Clone, PartialEq)]
pub struct PagoVista {
    pub pago: Pago,
    pub nombre_representante: String,
    pub metodo: MetodoPago,
    pub estado: EstadoPago,
    /// Aplicaciones de este pago a deudas.
    pub aplicaciones: Vec<AplicacionPagoVista>,
}

/// Proyección de lectura de una aplicación de pago.
#[derive(Debug, Clone, PartialEq)]
pub struct AplicacionPagoVista {
    pub aplicacion: AplicacionPago,
    pub nombre_representante: String,
    pub periodo_deuda: String,
}

/// Entrada para registrar un movimiento en el historial de pagos.
#[derive(Debug, Clone, PartialEq)]
pub struct DatosHistorialPago {
    pub representante_id: usize,
    pub tipo_id: i32,
    /// Monto del movimiento, en centavos.
    pub monto: i64,
    pub periodo: String,
    pub fecha: String,
    pub observacion: String,
}

/// Proyección de lectura de un registro del historial.
#[derive(Debug, PartialEq)]
pub struct HistorialPagoVista {
    pub historial: HistorialPago,
    pub nombre_representante: String,
}

impl Clone for HistorialPagoVista {
    fn clone(&self) -> (r: Self)
        ensures
            r == *self,
    {
        HistorialPagoVista {
            historial: self.historial.clone(),
            nombre_representante: self.nombre_representante.clone(),
        }
    }
}

/// Entrada para registrar un abono contra una deuda.
#[derive(Debug, Clone, PartialEq)]
pub struct DatosAbono {
    pub deuda_id: usize,
    /// Monto del abono, en centavos.
    pub monto: i64,
    pub fecha: String,
    pub observacion: String,
}

} // verus!
