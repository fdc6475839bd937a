//! Lógica de la interfaz que no depende de cómo se dibuja: selección de
//! filas por contexto, búsqueda y filtrado de alumnos y cifras del panel.

pub mod seleccion;
pub mod consultas;
pub mod etiquetas;
pub mod filtros;
