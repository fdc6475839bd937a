//! Casos de uso del historial de pagos: registro y consultas con el nombre
//! del representante resuelto.

use vstd::prelude::*;
use std::sync::Arc;
use super::dto::{DatosHistorialPago, HistorialPagoVista};
use super::error::{ErrorAplicacion, es_validacion};
use super::ports::{ErrorRepositorio, HistorialPagoRepository, Logger};
use super::service::delegado;
use crate::domain::historial_pago::HistorialPago;
use crate::domain::representante::{Representante, buscar_por_id, representante_con_id};

verus! {

/// Registro que se persiste a partir de los datos.
pub open spec fn registro_de_datos(datos: DatosHistorialPago) -> HistorialPago {
    HistorialPago {
        id: 0,
        representante_id: datos.representante_id,
        tipo_id: datos.tipo_id,
        monto: datos.monto,
        periodo: datos.periodo,
        fecha: datos.fecha,
        observacion: datos.observacion,
    }
}

/// Nombre con el que se muestra el representante de un registro: el del
/// primer representante con su identificador, o "Desconocido".
pub open spec fn nombre_en_historial(reps: Seq<Representante>, id: usize) -> Seq<char> {
    match representante_con_id(reps, id) {
        Some(r) => r.nombre@,
        None => "Desconocido"@,
    }
}

/// `v` son las vistas de `registros`: una por registro, en el mismo orden,
/// con el nombre del representante resuelto.
pub open spec fn son_vistas_de_historial(
    v: Seq<HistorialPagoVista>,
    registros: Seq<HistorialPago>,
    reps: Seq<Representante>,
) -> bool {
    &&& v.len() == registros.len()
    &&& forall|i: int|
        0 <= i < registros.len() ==> {
            &&& (#[trigger] v[i]).historial == registros[i]
            &&& v[i].nombre_representante@ == nombre_en_historial(reps, registros[i].representante_id)
        }
}

/// Resultado de listar a partir de lo que respondió el puerto: sus registros
/// con el nombre resuelto, o su error.
pub fn vistas_de_lo_leido(
    leido: Result<Vec<HistorialPago>, ErrorRepositorio>,
    representantes: &[Representante],
) -> (r: Result<Vec<HistorialPagoVista>, ErrorAplicacion>)
    ensures
        match leido {
            Err(e) => r == Err::<Vec<HistorialPagoVista>, ErrorAplicacion>(
                ErrorAplicacion::Repositorio(e),
            ),
            Ok(registros) => r matches Ok(v) && son_vistas_de_historial(
                v@,
                registros@,
                representantes@,
            ),
        },
{
    match leido {
        Err(e) => Err(ErrorAplicacion::Repositorio(e)),
        Ok(registros) => {
            let v = resolver_vistas_historial(registros.as_slice(), representantes);
            assert(son_vistas_de_historial(v@, registros@, representantes@));
            let r = Ok(v);
            assert(r matches Ok(w) && son_vistas_de_historial(w@, registros@, representantes@));
            r
        },
    }
}

/// Vistas del historial: un elemento por registro, en el mismo orden, con el
/// nombre del representante resuelto.
pub fn resolver_vistas_historial(registros: &[HistorialPago], representantes: &[Representante]) -> (r: Vec<HistorialPagoVista>)
    ensures
        r@.len() == registros@.len(),
        forall|i: int|
            0 <= i < registros@.len() ==> {
                &&& (#[trigger] r@[i]).historial == registros@[i]
                &&& r@[i].nombre_representante@ == nombre_en_historial(
                    representantes@,
                    registros@[i].representante_id,
                )
            },
{
    let mut vistas: Vec<HistorialPagoVista> = Vec::new();
    let mut i: usize = 0;
    while i < registros.len()
        invariant
            i <= registros@.len(),
            vistas@.len() == i,
            forall|j: int|
                0 <= j < i ==> {
                    &&& (#[trigger] vistas@[j]).historial == registros@[j]
                    &&& vistas@[j].nombre_representante@ == nombre_en_historial(
                        representantes@,
                        registros@[j].representante_id,
                    )
                },
        decreases registros@.len() - i,
    {
        let registro = &registros[i];
        let nombre = match buscar_por_id(representantes, registro.representante_id) {
            Some(k) => representantes[k].nombre.clone(),
            None => String::from_str("Desconocido"),
        };
        vistas.push(HistorialPagoVista { historial: registro.clone(), nombre_representante: nombre });
        i = i + 1;
    }
    vistas
}

/// Casos de uso del historial de pagos.
pub struct ServicioHistorialPagos<R: HistorialPagoRepository + ?Sized, L: Logger + ?Sized> {
    repositorio: Arc<R>,
    logger: Arc<L>,
}

impl<R: HistorialPagoRepository + ?Sized, L: Logger + ?Sized> ServicioHistorialPagos<R, L> {
    pub fn nuevo(repositorio: Arc<R>, logger: Arc<L>) -> (r: Self)
        ensures
            r.repositorio() == repositorio,
            r.logger() == logger,
    {
        ServicioHistorialPagos { repositorio, logger }
    }

    /// Repositorio en el que delega el servicio.
    pub closed spec fn repositorio(&self) -> Arc<R> {
        self.repositorio
    }

    /// Registro de eventos del servicio.
    pub closed spec fn logger(&self) -> Arc<L> {
        self.logger
    }

    /// Registra un movimiento (`registro_de_datos(datos)`); el monto debe ser
    /// positivo.
    pub fn registrar(&self, datos: DatosHistorialPago) -> (r: Result<(), ErrorAplicacion>)
        ensures
            datos.monto <= 0 ==> es_validacion(r, "El monto debe ser positivo."@),
            datos.monto > 0 ==> delegado(r),
            r is Ok ==> call_ensures(
                R::save,
                (&*self.repositorio(), &registro_de_datos(datos)),
                Ok::<(), ErrorRepositorio>(()),
            ),
    {
        if datos.monto <= 0 {
            return Err(ErrorAplicacion::Validacion(String::from_str("El monto debe ser positivo.")));
        }
        let registro = HistorialPago {
            id: 0,
            representante_id: datos.representante_id,
            tipo_id: datos.tipo_id,
            monto: datos.monto,
            periodo: datos.periodo,
            fecha: datos.fecha,
            observacion: datos.observacion,
        };
        assert(registro == registro_de_datos(datos));
        match self.repositorio.save(&registro) {
            Err(e) => return Err(ErrorAplicacion::Repositorio(e)),
            Ok(u) => {
                assert(call_ensures(R::save, (&*self.repositorio(), &registro), Ok::<(), ErrorRepositorio>(())));
            },
        }
        self.logger.debug("Registro de historial guardado");
        Ok(())
    }

    /// Todos los registros, con el nombre del representante resuelto.
    pub fn listar_todos(&self, representantes: &[Representante]) -> (r: Result<
        Vec<HistorialPagoVista>,
        ErrorAplicacion,
    >)
        ensures
            delegado(r),
            r matches Ok(v) ==> exists|regs: Seq<HistorialPago>|
                #[trigger] son_vistas_de_historial(v@, regs, representantes@),
            r matches Ok(v) ==> exists|regs: Vec<HistorialPago>|
                #[trigger] call_ensures(
                    R::fetch_all,
                    (&*self.repositorio(),),
                    Ok::<Vec<HistorialPago>, ErrorRepositorio>(regs),
                ) && son_vistas_de_historial(v@, regs@, representantes@),
    {
        let leido = self.repositorio.fetch_all();
        let ghost antes = leido;
        let r = vistas_de_lo_leido(leido, representantes);
        proof {
            match antes {
                Ok(regs) => {
                    assert(call_ensures(
                        R::fetch_all,
                        (&*self.repositorio(),),
                        Ok::<Vec<HistorialPago>, ErrorRepositorio>(regs),
                    ));
                    assert(r matches Ok(v) && son_vistas_de_historial(v@, regs@, representantes@));
                },
                Err(_) => {},
            }
        }
        r
    }

    /// Registros de un representante, con el nombre resuelto.
    pub fn listar_por_representante(
        &self,
        representante_id: usize,
        representantes: &[Representante],
    ) -> (r: Result<Vec<HistorialPagoVista>, ErrorAplicacion>)
        ensures
            delegado(r),
            r matches Ok(v) ==> exists|regs: Seq<HistorialPago>|
                #[trigger] son_vistas_de_historial(v@, regs, representantes@),
            r matches Ok(v) ==> exists|regs: Vec<HistorialPago>|
                #[trigger] call_ensures(
                    R::fetch_por_representante,
                    (&*self.repositorio(), representante_id),
                    Ok::<Vec<HistorialPago>, ErrorRepositorio>(regs),
                ) && son_vistas_de_historial(v@, regs@, representantes@),
    {
        let leido = self.repositorio.fetch_por_representante(representante_id);
        let ghost antes = leido;
        let r = vistas_de_lo_leido(leido, representantes);
        proof {
            match antes {
                Ok(regs) => {
                    assert(call_ensures(
                        R::fetch_por_representante,
                        (&*self.repositorio(), representante_id),
                        Ok::<Vec<HistorialPago>, ErrorRepositorio>(regs),
                    ));
                    assert(r matches Ok(v) && son_vistas_de_historial(v@, regs@, representantes@));
                },
                Err(_) => {},
            }
        }
        r
    }

    /// Registros de un periodo, con el nombre resuelto.
    pub fn listar_por_periodo(&self, periodo: &str, representantes: &[Representante]) -> (r: Result<
        Vec<HistorialPagoVista>,
        ErrorAplicacion,
    >)
        ensures
            delegado(r),
            r matches Ok(v) ==> exists|regs: Seq<HistorialPago>|
                #[trigger] son_vistas_de_historial(v@, regs, representantes@),
            r matches Ok(v) ==> exists|regs: Vec<HistorialPago>|
                #[trigger] call_ensures(
                    R::fetch_por_periodo,
                    (&*self.repositorio(), periodo),
                    Ok::<Vec<HistorialPago>, ErrorRepositorio>(regs),
                ) && son_vistas_de_historial(v@, regs@, representantes@),
    {
        let leido = self.repositorio.fetch_por_periodo(periodo);
        let ghost antes = leido;
        let r = vistas_de_lo_leido(leido, representantes);
        proof {
            match antes {
                Ok(regs) => {
                    assert(call_ensures(
                        R::fetch_por_periodo,
                        (&*self.repositorio(), periodo),
                        Ok::<Vec<HistorialPago>, ErrorRepositorio>(regs),
                    ));
                    assert(r matches Ok(v) && son_vistas_de_historial(v@, regs@, representantes@));
                },
                Err(_) => {},
            }
        }
        r
    }
}

} // verus!
