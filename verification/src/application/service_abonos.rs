//! Casos de uso de abonos: registro contra una deuda existente.

use vstd::prelude::*;
use std::sync::Arc;
use super::dto::DatosAbono;
use super::error::ErrorAplicacion;
use super::ports::{AbonoRepository, ErrorRepositorio, Logger};
use super::service::{delegado, validado_y_delegado};
use super::validation::{error_de_abono, validar_datos_abono};
use crate::domain::abono::Abono;

verus! {

/// Abono que se persiste al registrar.
pub open spec fn abono_de_datos(datos: DatosAbono) -> Abono {
    Abono {
        id: 0,
        deuda_id: datos.deuda_id,
        monto: datos.monto,
        fecha: datos.fecha,
        observacion: datos.observacion,
    }
}

/// Suma de los montos de una lista de abonos.
pub open spec fn suma_abonos(abonos: Seq<Abono>) -> int
    decreases abonos.len(),
{
    if abonos.len() == 0 {
        0
    } else {
        suma_abonos(abonos.drop_last()) + abonos.last().monto
    }
}

/// Suma los montos de una lista de abonos.
pub fn sumar_abonos(abonos: &[Abono]) -> (r: i128)
    ensures
        r == suma_abonos(abonos@),
{
    let mut total: i128 = 0;
    let mut i: usize = 0;
    while i < abonos.len()
        invariant
            i <= abonos@.len(),
            total == suma_abonos(abonos@.take(i as int)),
            -(i as int) * 9223372036854775808 <= total <= (i as int) * 9223372036854775808,
        decreases abonos@.len() - i,
    {
        assert(abonos@.take(i + 1).drop_last() =~= abonos@.take(i as int));
        total = total + abonos[i].monto as i128;
        i = i + 1;
    }
    assert(abonos@.take(i as int) =~= abonos@);
    total
}

/// Casos de uso de abonos.
pub struct ServicioAbonos<R: AbonoRepository + ?Sized, L: Logger + ?Sized> {
    repositorio: Arc<R>,
    logger: Arc<L>,
}

impl<R: AbonoRepository + ?Sized, L: Logger + ?Sized> ServicioAbonos<R, L> {
    pub fn nuevo(repositorio: Arc<R>, logger: Arc<L>) -> (r: Self)
        ensures
            r.repositorio() == repositorio,
            r.logger() == logger,
    {
        ServicioAbonos { repositorio, logger }
    }

    /// Repositorio en el que delega el servicio.
    pub closed spec fn repositorio(&self) -> Arc<R> {
        self.repositorio
    }

    /// Registro de eventos del servicio.
    pub closed spec fn logger(&self) -> Arc<L> {
        self.logger
    }

    /// Valida y persiste un abono (`abono_de_datos(datos)`).
    pub fn registrar(&self, datos: DatosAbono) -> (r: Result<(), ErrorAplicacion>)
        ensures
            validado_y_delegado(r, error_de_abono(datos)),
            r is Ok ==> call_ensures(
                R::save,
                (&*self.repositorio(), &abono_de_datos(datos)),
                Ok::<(), ErrorRepositorio>(()),
            ),
    {
        match validar_datos_abono(&datos) {
            Err(e) => return Err(e),
            Ok(()) => {},
        }
        let abono = Abono {
            id: 0,
            deuda_id: datos.deuda_id,
            monto: datos.monto,
            fecha: datos.fecha,
            observacion: datos.observacion,
        };
        assert(abono == abono_de_datos(datos));
        match self.repositorio.save(&abono) {
            Err(e) => return Err(ErrorAplicacion::Repositorio(e)),
            Ok(u) => {
                assert(call_ensures(R::save, (&*self.repositorio(), &abono), Ok::<(), ErrorRepositorio>(())));
            },
        }
        self.logger.debug("Abono registrado");
        Ok(())
    }

    /// Total abonado contra una deuda: la suma de los abonos que devuelve el
    /// repositorio para ella.
    pub fn total_por_deuda(&self, deuda_id: usize) -> (r: Result<i128, ErrorAplicacion>)
        ensures
            delegado(r),
            r matches Ok(t) ==> exists|abonos: Seq<Abono>| #[trigger] suma_abonos(abonos) == t,
            r matches Ok(t) ==> exists|abonos: Vec<Abono>|
                #[trigger] call_ensures(
                    R::fetch_por_deuda,
                    (&*self.repositorio(), deuda_id),
                    Ok::<Vec<Abono>, ErrorRepositorio>(abonos),
                ) && suma_abonos(abonos@) == t,
    {
        match self.repositorio.fetch_por_deuda(deuda_id) {
            Err(e) => Err(ErrorAplicacion::Repositorio(e)),
            Ok(abonos) => {
                assert(call_ensures(
                    R::fetch_por_deuda,
                    (&*self.repositorio(), deuda_id),
                    Ok::<Vec<Abono>, ErrorRepositorio>(abonos),
                ));
                let t = sumar_abonos(abonos.as_slice());
                assert(suma_abonos(abonos@) == t);
                Ok(t)
            },
        }
    }
}

} // verus!
