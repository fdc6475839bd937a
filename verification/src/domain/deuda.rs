//! Entidad de negocio `Deuda`: obligación mensual de un representante.
//! El estado se persiste y lo actualiza el motor de aplicación de pagos.

use vstd::prelude::*;
use super::catalogos::EstadoDeuda;

verus! {

/// Deuda mensual de un representante. Montos en centavos.
#[derive(PartialEq, Debug)]
pub struct Deuda {
    pub id: usize,
    pub representante_id: usize,
    /// Monto total de la mensualidad al momento de creación.
    pub monto_total: i64,
    /// Saldo pendiente: se reduce con cada aplicación de pago.
    pub monto_pendiente: i64,
    /// Periodo que cubre esta deuda, formato "YYYY-MM".
    pub periodo: String,
    /// Fecha de vencimiento (YYYY-MM-DD).
    pub fecha_vencimiento: String,
    /// Estado persistido en `cat_estados_deuda`.
    pub estado_id: i32,
    /// Alumno específico, si la deuda es por alumno.
    pub alumno_id: Option<usize>,
}

/// Estado tipado de un identificador persistido: uno desconocido se lee
/// como Pendiente.
pub open spec fn estado_de_deuda(estado_id: i32) -> EstadoDeuda {
    match EstadoDeuda::desde_id(estado_id) {
        Some(e) => e,
        None => EstadoDeuda::Pendiente,
    }
}

/// Lo abonado de una deuda: total menos pendiente, nunca negativo.
pub open spec fn abonado(monto_total: int, monto_pendiente: int) -> int {
    if monto_total - monto_pendiente > 0 {
        monto_total - monto_pendiente
    } else {
        0
    }
}

impl Deuda {
    /// Estado de la deuda como enum tipado.
    pub fn estado(&self) -> (r: EstadoDeuda)
        ensures
            r == estado_de_deuda(self.estado_id),
    {
        match EstadoDeuda::from_id(self.estado_id) {
            Some(e) => e,
            None => EstadoDeuda::Pendiente,
        }
    }

    /// Saldo pendiente.
    pub fn saldo(&self) -> (r: i64)
        ensures
            r == self.monto_pendiente,
    {
        self.monto_pendiente
    }

    /// Total abonado = monto_total - monto_pendiente, sin bajar de cero.
    pub fn total_abonado(&self) -> (r: i64)
        requires
            self.monto_total - self.monto_pendiente <= i64::MAX,
        ensures
            r == abonado(self.monto_total as int, self.monto_pendiente as int),
    {
        if (self.monto_total as i128) - (self.monto_pendiente as i128) > 0 {
            (self.monto_total as i128 - self.monto_pendiente as i128) as i64
        } else {
            0
        }
    }
}

impl Clone for Deuda {
    fn clone(&self) -> (r: Self)
        ensures
            r == *self,
    {
        Deuda {
            id: self.id,
            representante_id: self.representante_id,
            monto_total: self.monto_total,
            monto_pendiente: self.monto_pendiente,
            periodo: self.periodo.clone(),
            fecha_vencimiento: self.fecha_vencimiento.clone(),
            estado_id: self.estado_id,
            alumno_id: self.alumno_id,
        }
    }
}


/// `k` es la primera posición de `deudas` con el identificador `id`.
pub open spec fn primera_deuda_con_id(deudas: Seq<Deuda>, id: usize, k: int) -> bool {
    &&& 0 <= k < deudas.len()
    &&& deudas[k].id == id
    &&& forall|j: int| 0 <= j < k ==> deudas[j].id != id
}

/// Primera deuda de la lista con el identificador `id`, si hay.
pub open spec fn deuda_con_id(deudas: Seq<Deuda>, id: usize) -> Option<Deuda> {
    if exists|k: int| primera_deuda_con_id(deudas, id, k) {
        Some(deudas[choose|k: int| primera_deuda_con_id(deudas, id, k)])
    } else {
        None
    }
}

/// Posición de la primera deuda con el identificador `id`.
pub fn buscar_deuda_por_id(deudas: &[Deuda], id: usize) -> (r: Option<usize>)
    ensures
        match r {
            Some(k) => primera_deuda_con_id(deudas@, id, k as int) && deuda_con_id(deudas@, id)
                == Some(deudas@[k as int]),
            None => deuda_con_id(deudas@, id) is None,
        },
{
    let mut i: usize = 0;
    while i < deudas.len()
        invariant
            i <= deudas@.len(),
            forall|j: int| 0 <= j < i ==> deudas@[j].id != id,
        decreases deudas@.len() - i,
    {
        if deudas[i].id == id {
            proof {
                assert(primera_deuda_con_id(deudas@, id, i as int));
                let k = choose|k: int| primera_deuda_con_id(deudas@, id, k);
                if k > i {
                    assert(deudas@[i as int].id == id);
                }
                assert(k == i);
            }
            return Some(i);
        }
        i = i + 1;
    }
    None
}

/// `k` es la primera posición de `deudas` del representante.
pub open spec fn primera_deuda_de(deudas: Seq<Deuda>, representante_id: usize, k: int) -> bool {
    &&& 0 <= k < deudas.len()
    &&& deudas[k].representante_id == representante_id
    &&& forall|j: int| 0 <= j < k ==> deudas[j].representante_id != representante_id
}

/// Posición de la primera deuda del representante.
pub fn buscar_deuda_de_representante(deudas: &[Deuda], representante_id: usize) -> (r: Option<
    usize,
>)
    ensures
        match r {
            Some(k) => primera_deuda_de(deudas@, representante_id, k as int),
            None => forall|j: int|
                0 <= j < deudas@.len() ==> deudas@[j].representante_id != representante_id,
        },
{
    let mut i: usize = 0;
    while i < deudas.len()
        invariant
            i <= deudas@.len(),
            forall|j: int| 0 <= j < i ==> deudas@[j].representante_id != representante_id,
        decreases deudas@.len() - i,
    {
        if deudas[i].representante_id == representante_id {
            return Some(i);
        }
        i = i + 1;
    }
    None
}

/// Suma de los saldos pendientes.
pub open spec fn suma_pendiente(deudas: Seq<Deuda>) -> int
    decreases deudas.len(),
{
    if deudas.len() == 0 {
        0
    } else {
        suma_pendiente(deudas.drop_last()) + deudas.last().monto_pendiente
    }
}

/// Suma de los saldos pendientes de las deudas.
pub fn total_pendiente(deudas: &[Deuda]) -> (r: i128)
    ensures
        r == suma_pendiente(deudas@),
{
    let mut total: i128 = 0;
    let mut i: usize = 0;
    while i < deudas.len()
        invariant
            i <= deudas@.len(),
            total == suma_pendiente(deudas@.take(i as int)),
            -(i as int) * 0x8000_0000_0000_0000 <= total <= (i as int) * 0x8000_0000_0000_0000,
        decreases deudas@.len() - i,
    {
        assert(deudas@.take(i + 1).drop_last() =~= deudas@.take(i as int));
        total = total + deudas[i].monto_pendiente as i128;
        i = i + 1;
    }
    assert(deudas@.take(i as int) =~= deudas@);
    total
}

} // verus!
