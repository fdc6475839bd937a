//! Capa de dominio: entidades de negocio y reglas puras.

pub mod alumno;
pub mod catalogos;
pub mod cintas;
pub mod fecha;
pub mod texto;
pub mod abono;
pub mod aplicacion_pago;
pub mod deuda;
pub mod historial_pago;
pub mod representante;
pub mod pago;
pub mod monto;

pub use abono::Abono;
pub use alumno::Alumno;
pub use aplicacion_pago::AplicacionPago;
pub use catalogos::{
    EstadoAlumno, EstadoDeuda, EstadoPago, EstadoRepresentante, MetodoPago, TipoEvento,
    TipoHistorial,
};
pub use cintas::Cintas;
pub use deuda::Deuda;
pub use historial_pago::HistorialPago;
pub use pago::Pago;
pub use representante::Representante;
