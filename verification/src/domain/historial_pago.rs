//! Entidad de negocio `HistorialPago`: bitácora de auditoría de los
//! movimientos financieros. Nunca se edita ni se elimina.

use vstd::prelude::*;

verus! {

/// Registro del historial de pagos. Montos en centavos.
#[derive(PartialEq, Debug)]
pub struct HistorialPago {
    pub id: usize,
    pub representante_id: usize,
    /// Tipo en `cat_tipos_historial`: 1=DeudaCreada, 2=PagoRegistrado, etc.
    pub tipo_id: i32,
    /// Monto del movimiento, en centavos.
    pub monto: i64,
    /// Periodo al que aplica, formato "YYYY-MM".
    pub periodo: String,
    /// Fecha del registro, formato "YYYY-MM-DD".
    pub fecha: String,
    pub observacion: String,
}

impl Clone for HistorialPago {
    fn clone(&self) -> (r: Self)
        ensures
            r == *self,
    {
        HistorialPago {
            id: self.id,
            representante_id: self.representante_id,
            tipo_id: self.tipo_id,
            monto: self.monto,
            periodo: self.periodo.clone(),
            fecha: self.fecha.clone(),
            observacion: self.observacion.clone(),
        }
    }
}

} // verus!
