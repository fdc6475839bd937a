//! Casos de uso de representantes: alta, edición, listado, activación y
//! borrado lógico.

use vstd::prelude::*;
use std::collections::HashSet;
use std::sync::Arc;
use super::dto::DatosRepresentante;
use super::error::ErrorAplicacion;
use super::ports::{ErrorRepositorio, Logger, RepresentanteRepository};
use super::service::{delegado, desde_puerto, validado_y_delegado};
use super::validation::{error_de_representante, validar_datos_representante};
use crate::domain::representante::Representante;

verus! {

/// Representante que se persiste al agregar (`id` 0) o al editar: activo.
pub open spec fn representante_de_datos(id: usize, datos: DatosRepresentante) -> Representante {
    Representante {
        id,
        nombre: datos.nombre,
        numero_contacto: datos.numero_contacto,
        estado_id: 1,
    }
}

/// Representante que se persiste con esos datos: activo, con el
/// identificador dado (0 al agregar).
pub fn construir_representante(id: usize, datos: DatosRepresentante) -> (r: Representante)
    ensures
        r == representante_de_datos(id, datos),
{
    Representante {
        id,
        nombre: datos.nombre,
        numero_contacto: datos.numero_contacto,
        estado_id: 1,
    }
}

/// Casos de uso de representantes.
pub struct ServicioRepresentantes<R: RepresentanteRepository + ?Sized, L: Logger + ?Sized> {
    repositorio: Arc<R>,
    logger: Arc<L>,
}

impl<R: RepresentanteRepository + ?Sized, L: Logger + ?Sized> ServicioRepresentantes<R, L> {
    pub fn nuevo(repositorio: Arc<R>, logger: Arc<L>) -> (r: Self)
        ensures
            r.repositorio() == repositorio,
            r.logger() == logger,
    {
        ServicioRepresentantes { repositorio, logger }
    }

    /// Repositorio en el que delega el servicio.
    pub closed spec fn repositorio(&self) -> Arc<R> {
        self.repositorio
    }

    /// Registro de eventos del servicio.
    pub closed spec fn logger(&self) -> Arc<L> {
        self.logger
    }

    /// Lista los representantes que guarda el repositorio.
    pub fn obtener_todos(&self) -> (r: Result<Vec<Representante>, ErrorAplicacion>)
        ensures
            delegado(r),
            r matches Ok(v) ==> call_ensures(
                R::fetch_all,
                (&*self.repositorio(),),
                Ok::<Vec<Representante>, ErrorRepositorio>(v),
            ),
    {
        let leido = self.repositorio.fetch_all();
        let ghost l = leido;
        assert(call_ensures(R::fetch_all, (&*self.repositorio(),), l));
        desde_puerto(leido)
    }

    /// Valida y persiste un representante nuevo (`representante_de_datos(0, datos)`).
    pub fn agregar(&self, datos: DatosRepresentante) -> (r: Result<(), ErrorAplicacion>)
        ensures
            validado_y_delegado(r, error_de_representante(datos)),
            r is Ok ==> call_ensures(
                R::save,
                (&*self.repositorio(), &representante_de_datos(0, datos)),
                Ok::<(), ErrorRepositorio>(()),
            ),
    {
        match validar_datos_representante(&datos) {
            Err(e) => return Err(e),
            Ok(()) => {},
        }
        let representante = construir_representante(0, datos);
        match self.repositorio.save(&representante) {
            Err(e) => return Err(ErrorAplicacion::Repositorio(e)),
            Ok(u) => {
                assert(call_ensures(
                    R::save,
                    (&*self.repositorio(), &representante),
                    Ok::<(), ErrorRepositorio>(()),
                ));
            },
        }
        self.logger.debug("Representante agregado");
        Ok(())
    }

    /// Valida y persiste la edición (`representante_de_datos(id, datos)`).
    pub fn actualizar(&self, id: usize, datos: DatosRepresentante) -> (r: Result<
        (),
        ErrorAplicacion,
    >)
        ensures
            validado_y_delegado(r, error_de_representante(datos)),
            r is Ok ==> call_ensures(
                R::update,
                (&*self.repositorio(), &representante_de_datos(id, datos)),
                Ok::<(), ErrorRepositorio>(()),
            ),
    {
        match validar_datos_representante(&datos) {
            Err(e) => return Err(e),
            Ok(()) => {},
        }
        let representante = construir_representante(id, datos);
        match self.repositorio.update(&representante) {
            Err(e) => return Err(ErrorAplicacion::Repositorio(e)),
            Ok(u) => {
                assert(call_ensures(
                    R::update,
                    (&*self.repositorio(), &representante),
                    Ok::<(), ErrorRepositorio>(()),
                ));
            },
        }
        self.logger.debug("Representante actualizado");
        Ok(())
    }

    /// Borrado lógico: el historial de pagos conserva su nombre. Sin
    /// identificadores no hace nada.
    pub fn eliminar(&self, ids: HashSet<usize>) -> (r: Result<(), ErrorAplicacion>)
        ensures
            ids@.is_empty() ==> r is Ok,
            delegado(r),
            r is Ok && !ids@.is_empty() ==> call_ensures(
                R::delete,
                (&*self.repositorio(), ids),
                Ok::<(), ErrorRepositorio>(()),
            ),
    {
        if ids.is_empty() {
            return Ok(());
        }
        let ghost pedidos = ids;
        match self.repositorio.delete(ids) {
            Err(e) => return Err(ErrorAplicacion::Repositorio(e)),
            Ok(u) => {
                assert(call_ensures(R::delete, (&*self.repositorio(), pedidos), Ok::<(), ErrorRepositorio>(())));
            },
        }
        self.logger.debug("Representantes marcados como eliminados");
        Ok(())
    }

    /// Desactiva representantes; sin identificadores no hace nada.
    pub fn desactivar(&self, ids: HashSet<usize>) -> (r: Result<(), ErrorAplicacion>)
        ensures
            ids@.is_empty() ==> r is Ok,
            delegado(r),
            r is Ok && !ids@.is_empty() ==> call_ensures(
                R::desactivar,
                (&*self.repositorio(), ids),
                Ok::<(), ErrorRepositorio>(()),
            ),
    {
        if ids.is_empty() {
            return Ok(());
        }
        let ghost pedidos = ids;
        match self.repositorio.desactivar(ids) {
            Err(e) => return Err(ErrorAplicacion::Repositorio(e)),
            Ok(u) => {
                assert(call_ensures(R::desactivar, (&*self.repositorio(), pedidos), Ok::<(), ErrorRepositorio>(())));
            },
        }
        self.logger.debug("Representantes desactivados");
        Ok(())
    }

    /// Activa representantes; sin identificadores no hace nada.
    pub fn activar(&self, ids: HashSet<usize>) -> (r: Result<(), ErrorAplicacion>)
        ensures
            ids@.is_empty() ==> r is Ok,
            delegado(r),
            r is Ok && !ids@.is_empty() ==> call_ensures(
                R::activar,
                (&*self.repositorio(), ids),
                Ok::<(), ErrorRepositorio>(()),
            ),
    {
        if ids.is_empty() {
            return Ok(());
        }
        let ghost pedidos = ids;
        match self.repositorio.activar(ids) {
            Err(e) => return Err(ErrorAplicacion::Repositorio(e)),
            Ok(u) => {
                assert(call_ensures(R::activar, (&*self.repositorio(), pedidos), Ok::<(), ErrorRepositorio>(())));
            },
        }
        self.logger.debug("Representantes activados");
        Ok(())
    }
}

} // verus!
