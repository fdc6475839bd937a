//! Casos de uso de alumnos y la proyección de lectura de la tabla de alumnos.

use vstd::prelude::*;
use std::collections::HashSet;
use std::sync::Arc;
use super::dto::{AlumnoVista, DatosAlumno};
use super::error::{ErrorAplicacion, es_validacion};
use super::ports::{AlumnoRepository, ErrorRepositorio, Logger};
use super::validation::{error_de_alumno, validar_datos_alumno};
use crate::domain::alumno::Alumno;
use crate::domain::representante::{Representante, buscar_por_id, representante_con_id};

verus! {

/// Resultado de delegar en un puerto: éxito, o el error del puerto.
pub open spec fn delegado<T>(r: Result<T, ErrorAplicacion>) -> bool {
    r is Ok || r matches Err(ErrorAplicacion::Repositorio(_))
}

/// Resultado de un caso de uso que valida antes de delegar en un puerto: el
/// primer error de validación, o lo que responda el puerto.
pub open spec fn validado_y_delegado(r: Result<(), ErrorAplicacion>, error: Option<Seq<char>>) -> bool {
    match error {
        Some(m) => es_validacion(r, m),
        None => delegado(r),
    }
}

/// Traduce el error de un puerto.
pub fn desde_puerto<T>(r: Result<T, ErrorRepositorio>) -> (s: Result<T, ErrorAplicacion>)
    ensures
        match r {
            Ok(v) => s == Ok::<T, ErrorAplicacion>(v),
            Err(e) => s == Err::<T, ErrorAplicacion>(ErrorAplicacion::Repositorio(e)),
        },
{
    match r {
        Ok(v) => Ok(v),
        Err(e) => Err(ErrorAplicacion::Repositorio(e)),
    }
}

/// Alumno nuevo que se persiste al agregar: activo, sin identificador
/// asignado y sin rallita si es un grado Dan.
pub open spec fn alumno_nuevo(datos: DatosAlumno) -> Alumno {
    Alumno {
        id: 0,
        nombre: datos.nombre,
        fecha_de_nacimiento: datos.fecha_de_nacimiento,
        rango: datos.rango,
        representante_id: datos.representante_id,
        rallita: datos.rango > 0 && datos.rallita,
        estado_id: 1,
    }
}

/// Alumno editado que se persiste al actualizar: conserva el identificador,
/// queda activo y, como al agregar, sin rallita si es un grado Dan.
pub open spec fn alumno_editado(id: usize, datos: DatosAlumno) -> Alumno {
    Alumno {
        id,
        nombre: datos.nombre,
        fecha_de_nacimiento: datos.fecha_de_nacimiento,
        rango: datos.rango,
        representante_id: datos.representante_id,
        rallita: datos.rango > 0 && datos.rallita,
        estado_id: 1,
    }
}

/// Alumno que se persiste al agregar (`alumno_nuevo`).
pub fn construir_alumno_nuevo(datos: DatosAlumno) -> (r: Alumno)
    ensures
        r == alumno_nuevo(datos),
{
    let rallita = Alumno::aplica_rallita(datos.rango, datos.rallita);
    Alumno {
        id: 0,
        nombre: datos.nombre,
        fecha_de_nacimiento: datos.fecha_de_nacimiento,
        rango: datos.rango,
        representante_id: datos.representante_id,
        rallita,
        estado_id: 1,
    }
}

/// Alumno que se persiste al actualizar (`alumno_editado`).
pub fn construir_alumno_editado(id: usize, datos: DatosAlumno) -> (r: Alumno)
    ensures
        r == alumno_editado(id, datos),
{
    let rallita = Alumno::aplica_rallita(datos.rango, datos.rallita);
    Alumno {
        id,
        nombre: datos.nombre,
        fecha_de_nacimiento: datos.fecha_de_nacimiento,
        rango: datos.rango,
        representante_id: datos.representante_id,
        rallita,
        estado_id: 1,
    }
}

/// Casos de uso de alumnos sobre un repositorio y un registro de eventos.
pub struct ServicioAlumnos<R: AlumnoRepository + ?Sized, L: Logger + ?Sized> {
    repositorio: Arc<R>,
    logger: Arc<L>,
}

impl<R: AlumnoRepository + ?Sized, L: Logger + ?Sized> ServicioAlumnos<R, L> {
    pub fn nuevo(repositorio: Arc<R>, logger: Arc<L>) -> (r: Self)
        ensures
            r.repositorio() == repositorio,
            r.logger() == logger,
    {
        ServicioAlumnos { repositorio, logger }
    }

    /// Repositorio en el que delega el servicio.
    pub closed spec fn repositorio(&self) -> Arc<R> {
        self.repositorio
    }

    /// Registro de eventos del servicio.
    pub closed spec fn logger(&self) -> Arc<L> {
        self.logger
    }

    pub fn obtener_todos(&self) -> (r: Result<Vec<Alumno>, ErrorAplicacion>)
        ensures
            delegado(r),
            r matches Ok(v) ==> call_ensures(
                R::fetch_all,
                (&*self.repositorio(),),
                Ok::<Vec<Alumno>, ErrorRepositorio>(v),
            ),
    {
        let leido = self.repositorio.fetch_all();
        let ghost l = leido;
        assert(call_ensures(R::fetch_all, (&*self.repositorio(),), l));
        desde_puerto(leido)
    }

    /// Valida y persiste un alumno nuevo (`alumno_nuevo(datos)`).
    pub fn agregar(&self, datos: DatosAlumno) -> (r: Result<(), ErrorAplicacion>)
        ensures
            validado_y_delegado(r, error_de_alumno(datos)),
            r is Ok ==> call_ensures(
                R::save,
                (&*self.repositorio(), &alumno_nuevo(datos)),
                Ok::<(), ErrorRepositorio>(()),
            ),
    {
        match validar_datos_alumno(&datos) {
            Err(e) => return Err(e),
            Ok(()) => {},
        }
        let alumno = construir_alumno_nuevo(datos);
        match self.repositorio.save(&alumno) {
            Err(e) => return Err(ErrorAplicacion::Repositorio(e)),
            Ok(u) => {
                assert(call_ensures(R::save, (&*self.repositorio(), &alumno), Ok::<(), ErrorRepositorio>(())));
            },
        }
        self.logger.debug("Alumno agregado");
        Ok(())
    }

    /// Valida y persiste la edición de un alumno (`alumno_editado(id, datos)`).
    pub fn actualizar(&self, id: usize, datos: DatosAlumno) -> (r: Result<(), ErrorAplicacion>)
        ensures
            validado_y_delegado(r, error_de_alumno(datos)),
            r is Ok ==> call_ensures(
                R::update,
                (&*self.repositorio(), &alumno_editado(id, datos)),
                Ok::<(), ErrorRepositorio>(()),
            ),
    {
        match validar_datos_alumno(&datos) {
            Err(e) => return Err(e),
            Ok(()) => {},
        }
        let alumno = construir_alumno_editado(id, datos);
        match self.repositorio.update(&alumno) {
            Err(e) => return Err(ErrorAplicacion::Repositorio(e)),
            Ok(u) => {
                assert(call_ensures(R::update, (&*self.repositorio(), &alumno), Ok::<(), ErrorRepositorio>(())));
            },
        }
        self.logger.debug("Alumno actualizado");
        Ok(())
    }

    /// Cambia en lote el rango y la rallita; sin identificadores no hace nada.
    pub fn promover(&self, ids: HashSet<usize>, rango: i32, rallita: bool) -> (r: Result<
        (),
        ErrorAplicacion,
    >)
        ensures
            ids@.is_empty() ==> r is Ok,
            delegado(r),
            r is Ok && !ids@.is_empty() ==> call_ensures(
                R::update_rangos,
                (&*self.repositorio(), ids, rango, rallita),
                Ok::<(), ErrorRepositorio>(()),
            ),
    {
        if ids.is_empty() {
            return Ok(());
        }
        let ghost pedidos = ids;
        match self.repositorio.update_rangos(ids, rango, rallita) {
            Err(e) => return Err(ErrorAplicacion::Repositorio(e)),
            Ok(u) => {
                assert(call_ensures(
                    R::update_rangos,
                    (&*self.repositorio(), pedidos, rango, rallita),
                    Ok::<(), ErrorRepositorio>(()),
                ));
            },
        }
        self.logger.debug("Grados actualizados en lote");
        Ok(())
    }

    /// Borrado lógico; sin identificadores no hace nada.
    pub fn eliminar(&self, ids: HashSet<usize>) -> (r: Result<(), ErrorAplicacion>)
        ensures
            ids@.is_empty() ==> r is Ok,
            delegado(r),
            r is Ok && !ids@.is_empty() ==> call_ensures(
                R::delete,
                (&*self.repositorio(), ids),
                Ok::<(), ErrorRepositorio>(()),
            ),
    {
        if ids.is_empty() {
            return Ok(());
        }
        let ghost pedidos = ids;
        match self.repositorio.delete(ids) {
            Err(e) => return Err(ErrorAplicacion::Repositorio(e)),
            Ok(u) => {
                assert(call_ensures(
                    R::delete,
                    (&*self.repositorio(), pedidos),
                    Ok::<(), ErrorRepositorio>(()),
                ));
            },
        }
        self.logger.debug("Alumnos marcados como eliminados");
        Ok(())
    }

    /// Desactiva alumnos; sin identificadores no hace nada.
    pub fn desactivar(&self, ids: HashSet<usize>) -> (r: Result<(), ErrorAplicacion>)
        ensures
            ids@.is_empty() ==> r is Ok,
            delegado(r),
            r is Ok && !ids@.is_empty() ==> call_ensures(
                R::desactivar,
                (&*self.repositorio(), ids),
                Ok::<(), ErrorRepositorio>(()),
            ),
    {
        if ids.is_empty() {
            return Ok(());
        }
        let ghost pedidos = ids;
        match self.repositorio.desactivar(ids) {
            Err(e) => return Err(ErrorAplicacion::Repositorio(e)),
            Ok(u) => {
                assert(call_ensures(
                    R::desactivar,
                    (&*self.repositorio(), pedidos),
                    Ok::<(), ErrorRepositorio>(()),
                ));
            },
        }
        self.logger.debug("Alumnos desactivados");
        Ok(())
    }

    /// Activa alumnos; sin identificadores no hace nada.
    pub fn activar(&self, ids: HashSet<usize>) -> (r: Result<(), ErrorAplicacion>)
        ensures
            ids@.is_empty() ==> r is Ok,
            delegado(r),
            r is Ok && !ids@.is_empty() ==> call_ensures(
                R::activar,
                (&*self.repositorio(), ids),
                Ok::<(), ErrorRepositorio>(()),
            ),
    {
        if ids.is_empty() {
            return Ok(());
        }
        let ghost pedidos = ids;
        match self.repositorio.activar(ids) {
            Err(e) => return Err(ErrorAplicacion::Repositorio(e)),
            Ok(u) => {
                assert(call_ensures(
                    R::activar,
                    (&*self.repositorio(), pedidos),
                    Ok::<(), ErrorRepositorio>(()),
                ));
            },
        }
        self.logger.debug("Alumnos activados");
        Ok(())
    }
}

/// Vista de un alumno: el nombre y el teléfono del primer representante
/// con su identificador, o "Sin representante" y un teléfono vacío.
pub open spec fn vista_de_alumno(alumno: Alumno, reps: Seq<Representante>) -> (Seq<char>, Seq<char>) {
    match representante_con_id(reps, alumno.representante_id) {
        Some(r) => (r.nombre@, r.numero_contacto@),
        None => ("Sin representante"@, Seq::<char>::empty()),
    }
}

/// Arma la proyección de lectura de la tabla de alumnos: un elemento por
/// alumno, en el mismo orden.
pub fn armar_vistas_alumnos(alumnos: &[Alumno], representantes: &[Representante]) -> (r: Vec<
    AlumnoVista,
>)
    ensures
        r@.len() == alumnos@.len(),
        forall|i: int|
            0 <= i < alumnos@.len() ==> {
                &&& (#[trigger] r@[i]).alumno == alumnos@[i]
                &&& (r@[i].nombre_representante@, r@[i].telefono_representante@) == vista_de_alumno(
                    alumnos@[i],
                    representantes@,
                )
            },
{
    let mut vistas: Vec<AlumnoVista> = Vec::new();
    let mut i: usize = 0;
    while i < alumnos.len()
        invariant
            i <= alumnos@.len(),
            vistas@.len() == i,
            forall|j: int|
                0 <= j < i ==> {
                    &&& (#[trigger] vistas@[j]).alumno == alumnos@[j]
                    &&& (vistas@[j].nombre_representante@, vistas@[j].telefono_representante@)
                        == vista_de_alumno(alumnos@[j], representantes@)
                },
        decreases alumnos@.len() - i,
    {
        let alumno = &alumnos[i];
        let (nombre, telefono) = match buscar_por_id(representantes, alumno.representante_id) {
            Some(k) => (representantes[k].nombre.clone(), representantes[k].numero_contacto.clone()),
            None => (String::from_str("Sin representante"), String::new()),
        };
        vistas.push(
            AlumnoVista {
                alumno: alumno.clone(),
                nombre_representante: nombre,
                telefono_representante: telefono,
            },
        );
        i = i + 1;
    }
    vistas
}

} // verus!
