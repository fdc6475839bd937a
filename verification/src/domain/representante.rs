//! Entidad de negocio `Representante`: el adulto responsable de uno o varios
//! alumnos, que es quien paga la mensualidad.

use vstd::prelude::*;

verus! {

/// Representante de uno o varios alumnos.
#[derive(PartialEq, Debug)]
pub struct Representante {
    pub id: usize,
    pub nombre: String,
    pub numero_contacto: String,
    /// Estado en `cat_estados_representante`: 1=Activo, 2=Inactivo.
    pub estado_id: i32,
}

impl Clone for Representante {
    fn clone(&self) -> (r: Self)
        ensures
            r == *self,
    {
        Representante {
            id: self.id,
            nombre: self.nombre.clone(),
            numero_contacto: self.numero_contacto.clone(),
            estado_id: self.estado_id,
        }
    }
}

/// `k` es la primera posición de `reps` con el identificador `id`.
pub open spec fn primera_con_id(reps: Seq<Representante>, id: usize, k: int) -> bool {
    &&& 0 <= k < reps.len()
    &&& reps[k].id == id
    &&& forall|j: int| 0 <= j < k ==> reps[j].id != id
}

/// Primer representante de la lista con el identificador `id`, si hay.
pub open spec fn representante_con_id(reps: Seq<Representante>, id: usize) -> Option<
    Representante,
> {
    if exists|k: int| primera_con_id(reps, id, k) {
        Some(reps[choose|k: int| primera_con_id(reps, id, k)])
    } else {
        None
    }
}

/// Posición del primer representante con el identificador `id`.
pub(crate) fn buscar_por_id(reps: &[Representante], id: usize) -> (r: Option<usize>)
    ensures
        match r {
            Some(k) => primera_con_id(reps@, id, k as int),
            None => forall|j: int| 0 <= j < reps@.len() ==> reps@[j].id != id,
        },
        match r {
            Some(k) => representante_con_id(reps@, id) == Some(reps@[k as int]),
            None => representante_con_id(reps@, id) is None,
        },
{
    let mut i: usize = 0;
    while i < reps.len()
        invariant
            i <= reps@.len(),
            forall|j: int| 0 <= j < i ==> reps@[j].id != id,
        decreases reps@.len() - i,
    {
        if reps[i].id == id {
            proof {
                assert(primera_con_id(reps@, id, i as int));
                let k = choose|k: int| primera_con_id(reps@, id, k);
                if k < i {
                } else if k > i {
                    assert(reps@[i as int].id == id);
                }
                assert(k == i);
            }
            return Some(i);
        }
        i = i + 1;
    }
    None
}

} // verus!
