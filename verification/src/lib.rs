//! BudoDB: gestión de alumnos, representantes y mensualidades de una escuela
//! de artes marciales.
//!
//! - [`domain`]: entidades y reglas de negocio puras.
//! - [`application`]: casos de uso, validaciones y puertos hacia el exterior.
//! - [`models`]: ficha de alumno con el representante como texto libre.
//!
//! Los montos de dinero se representan en centavos (`i64`).

pub mod application;
pub mod domain;
pub mod models;
pub mod presentation;
