//! Puertos (interfaces) que la capa de aplicación exige al mundo exterior.
//! Las implementaciones concretas (SQLite, consola, entorno) viven fuera de
//! la biblioteca; sus métodos no prometen nada sobre lo que devuelven.

use vstd::prelude::*;
use std::collections::HashSet;
use crate::domain::abono::Abono;
use crate::domain::alumno::Alumno;
use crate::domain::aplicacion_pago::AplicacionPago;
use crate::domain::deuda::Deuda;
use crate::domain::historial_pago::HistorialPago;
use crate::domain::pago::Pago;
use crate::domain::representante::Representante;

verus! {

/// Puerto de registro de eventos.
pub trait Logger: Send + Sync {
    fn debug(&self, mensaje: &str);

    fn info(&self, mensaje: &str);

    fn error(&self, mensaje: &str);
}

/// Errores que un repositorio de persistencia puede reportar.
#[derive(Debug)]
pub enum ErrorRepositorio {
    Conexion(String),
    Consulta(String),
}

/// Texto con el que se muestra un error de repositorio.
pub open spec fn texto_error_repositorio(e: ErrorRepositorio) -> Seq<char> {
    match e {
        ErrorRepositorio::Conexion(d) => "error de conexión: "@ + d@,
        ErrorRepositorio::Consulta(d) => "error de consulta: "@ + d@,
    }
}

impl ErrorRepositorio {
    /// Texto con el que se muestra el error.
    pub fn descripcion(&self) -> (r: String)
        ensures
            r@ == texto_error_repositorio(*self),
    {
        match self {
            ErrorRepositorio::Conexion(d) => {
                let mut r = String::from_str("error de conexión: ");
                r.append(d.as_str());
                r
            },
            ErrorRepositorio::Consulta(d) => {
                let mut r = String::from_str("error de consulta: ");
                r.append(d.as_str());
                r
            },
        }
    }
}

/// Puerto de persistencia de alumnos.
pub trait AlumnoRepository: Send + Sync {
    fn save(&self, alumno: &Alumno) -> Result<(), ErrorRepositorio>;

    fn fetch_all(&self) -> Result<Vec<Alumno>, ErrorRepositorio>;

    fn update(&self, alumno: &Alumno) -> Result<(), ErrorRepositorio>;

    fn update_rangos(&self, ids: HashSet<usize>, rango: i32, rallita: bool) -> Result<
        (),
        ErrorRepositorio,
    >;

    fn delete(&self, ids: HashSet<usize>) -> Result<(), ErrorRepositorio>;

    fn desactivar(&self, ids: HashSet<usize>) -> Result<(), ErrorRepositorio>;

    fn activar(&self, ids: HashSet<usize>) -> Result<(), ErrorRepositorio>;
}

/// Puerto de persistencia de representantes.
pub trait RepresentanteRepository: Send + Sync {
    fn save(&self, representante: &Representante) -> Result<(), ErrorRepositorio>;

    fn fetch_all(&self) -> Result<Vec<Representante>, ErrorRepositorio>;

    fn update(&self, representante: &Representante) -> Result<(), ErrorRepositorio>;

    fn delete(&self, ids: HashSet<usize>) -> Result<(), ErrorRepositorio>;

    fn desactivar(&self, ids: HashSet<usize>) -> Result<(), ErrorRepositorio>;

    fn activar(&self, ids: HashSet<usize>) -> Result<(), ErrorRepositorio>;
}

/// Puerto de persistencia de pagos.
pub trait PagoRepository: Send + Sync {
    /// Guarda un pago y devuelve su identificador recién asignado.
    fn save(&self, pago: &Pago) -> Result<usize, ErrorRepositorio>;

    /// Pagos cuya fecha cae en el periodo "YYYY-MM".
    fn fetch_por_periodo(&self, periodo: &str) -> Result<Vec<Pago>, ErrorRepositorio>;

    fn fetch_por_representante(&self, representante_id: usize) -> Result<
        Vec<Pago>,
        ErrorRepositorio,
    >;

    fn fetch_all(&self) -> Result<Vec<Pago>, ErrorRepositorio>;

    fn update_estado(&self, id: usize, estado_id: i32) -> Result<(), ErrorRepositorio>;

    fn delete(&self, ids: HashSet<usize>) -> Result<(), ErrorRepositorio>;
}

/// Puerto de persistencia de deudas mensuales.
pub trait DeudaRepository: Send + Sync {
    fn save(&self, deuda: &Deuda) -> Result<(), ErrorRepositorio>;

    fn fetch_por_periodo(&self, periodo: &str) -> Result<Vec<Deuda>, ErrorRepositorio>;

    /// Deudas Pendientes o Parciales del representante, de la más antigua a
    /// la más nueva según su vencimiento.
    fn fetch_cobrables_por_representante(&self, representante_id: usize) -> Result<
        Vec<Deuda>,
        ErrorRepositorio,
    >;

    fn fetch_todos_periodos_por_representante(&self, representante_id: usize) -> Result<
        Vec<String>,
        ErrorRepositorio,
    >;

    fn fetch_all(&self) -> Result<Vec<Deuda>, ErrorRepositorio>;

    fn update_estado(&self, id: usize, monto_pendiente: i64, estado_id: i32) -> Result<
        (),
        ErrorRepositorio,
    >;

    fn delete(&self, ids: HashSet<usize>) -> Result<(), ErrorRepositorio>;
}

/// Puerto de persistencia de aplicaciones de pago (pagos ↔ deudas).
pub trait AplicacionPagoRepository: Send + Sync {
    fn save(&self, aplicacion: &AplicacionPago) -> Result<(), ErrorRepositorio>;

    fn fetch_por_pago(&self, pago_id: usize) -> Result<Vec<AplicacionPago>, ErrorRepositorio>;

    fn fetch_por_deuda(&self, deuda_id: usize) -> Result<Vec<AplicacionPago>, ErrorRepositorio>;

    fn delete_por_pago(&self, pago_id: usize) -> Result<(), ErrorRepositorio>;
}

/// Puerto de persistencia de abonos.
pub trait AbonoRepository: Send + Sync {
    fn save(&self, abono: &Abono) -> Result<(), ErrorRepositorio>;

    fn fetch_por_deuda(&self, deuda_id: usize) -> Result<Vec<Abono>, ErrorRepositorio>;

    fn fetch_por_periodo(&self, periodo: &str) -> Result<Vec<Abono>, ErrorRepositorio>;

    fn delete(&self, ids: HashSet<usize>) -> Result<(), ErrorRepositorio>;
}

/// Puerto de persistencia del historial de pagos.
pub trait HistorialPagoRepository: Send + Sync {
    fn save(&self, registro: &HistorialPago) -> Result<(), ErrorRepositorio>;

    fn fetch_por_representante(&self, representante_id: usize) -> Result<
        Vec<HistorialPago>,
        ErrorRepositorio,
    >;

    fn fetch_por_periodo(&self, periodo: &str) -> Result<Vec<HistorialPago>, ErrorRepositorio>;

    fn fetch_all(&self) -> Result<Vec<HistorialPago>, ErrorRepositorio>;

    fn delete(&self, ids: HashSet<usize>) -> Result<(), ErrorRepositorio>;
}

/// Puerto de configuración externa.
pub trait Configuracion: Send + Sync {
    fn ruta_base_de_datos(&self) -> String;
}

/// Puerto de ajustes de la aplicación (pares clave-valor persistidos).
pub trait ConfiguracionAppRepository: Send + Sync {
    fn obtener(&self, clave: &str) -> Result<Option<String>, ErrorRepositorio>;

    fn guardar(&self, clave: &str, valor: &str) -> Result<(), ErrorRepositorio>;
}

} // verus!
