//! Entidad de negocio `AplicacionPago`: cuánto de un pago se imputó a una
//! deuda concreta.

use vstd::prelude::*;

verus! {

/// Imputación de parte de un pago a una deuda. Montos en centavos.
#[derive(PartialEq, Debug)]
pub struct AplicacionPago {
    pub id: usize,
    /// Pago que originó esta aplicación.
    pub pago_id: usize,
    /// Deuda que recibe el abono.
    pub deuda_id: usize,
    /// Monto aplicado de este pago a esta deuda, en centavos.
    pub monto_aplicado: i64,
    /// Fecha de la aplicación, formato "YYYY-MM-DD".
    pub fecha: String,
}

impl Clone for AplicacionPago {
    fn clone(&self) -> (r: Self)
        ensures
            r == *self,
    {
        AplicacionPago {
            id: self.id,
            pago_id: self.pago_id,
            deuda_id: self.deuda_id,
            monto_aplicado: self.monto_aplicado,
            fecha: self.fecha.clone(),
        }
    }
}

} // verus!
