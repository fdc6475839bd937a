//! Entidad de negocio `Abono`: pago parcial o total contra una deuda.

use vstd::prelude::*;

verus! {

/// Abono registrado contra una deuda. Montos en centavos.
#[derive(PartialEq, Debug)]
pub struct Abono {
    pub id: usize,
    /// Deuda que se está saldando.
    pub deuda_id: usize,
    /// Monto abonado en esta transacción, en centavos.
    pub monto: i64,
    /// Fecha de registro del abono, formato "YYYY-MM-DD".
    pub fecha: String,
    /// Nota libre opcional.
    pub observacion: String,
}

impl Clone for Abono {
    fn clone(&self) -> (r: Self)
        ensures
            r == *self,
    {
        Abono {
            id: self.id,
            deuda_id: self.deuda_id,
            monto: self.monto,
            fecha: self.fecha.clone(),
            observacion: self.observacion.clone(),
        }
    }
}

} // verus!
