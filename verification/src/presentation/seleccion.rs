//! Selección de filas de las tablas, independiente por contexto.

use vstd::prelude::*;
use std::collections::HashSet;
use crate::application::dto::AlumnoVista;
use crate::domain::texto::{es_menor, lema_menor_asimetrico, lema_menor_total};

verus! {

broadcast use vstd::std_specs::hash::group_hash_axioms;

/// Conjunto con `id` agregado si no estaba, o quitado si estaba.
pub open spec fn conmutado(s: Set<usize>, id: usize) -> Set<usize> {
    if s.contains(id) {
        s.remove(id)
    } else {
        s.insert(id)
    }
}

/// Selección única: quitar `id` si estaba; si no, que quede solo `id`.
pub open spec fn conmutado_unico(s: Set<usize>, id: usize) -> Set<usize> {
    if s.contains(id) {
        s.remove(id)
    } else {
        Set::empty().insert(id)
    }
}

/// Identificadores de los alumnos visibles.
pub open spec fn ids_visibles(visibles: Seq<AlumnoVista>) -> Set<usize> {
    Set::new(|id: usize| exists|k: int| 0 <= k < visibles.len() && visibles[k].alumno.id == id)
}

/// Marcar todos: si ya estaban todos los visibles, se quitan ellos solos; si
/// falta alguno, se agregan todos.
pub open spec fn con_todos(s: Set<usize>, visibles: Seq<AlumnoVista>) -> Set<usize> {
    if ids_visibles(visibles).subset_of(s) {
        s.difference(ids_visibles(visibles))
    } else {
        s.union(ids_visibles(visibles))
    }
}

/// Conmutar dos veces el mismo identificador deja la selección como estaba.
pub proof fn conmutar_dos_veces_no_cambia_nada(s: Set<usize>, id: usize)
    ensures
        conmutado(conmutado(s, id), id) == s,
{
    assert(conmutado(conmutado(s, id), id) =~= s);
}

/// Contexto de selección que nombra un texto.
#[derive(Debug, Clone, Copy, PartialEq, Eq, Structural)]
pub enum Contexto {
    Alumnos,
    Consulta,
    Representantes,
    General,
}

/// Contexto que nombra el texto: "alumnos", "consulta", "representantes";
/// cualquier otro es el general.
pub open spec fn contexto_de(texto: Seq<char>) -> Contexto {
    if texto == "alumnos"@ {
        Contexto::Alumnos
    } else if texto == "consulta"@ {
        Contexto::Consulta
    } else if texto == "representantes"@ {
        Contexto::Representantes
    } else {
        Contexto::General
    }
}

/// ¿Son iguales los dos textos?
fn mismo_texto(a: &str, b: &str) -> (r: bool)
    ensures
        r == (a@ == b@),
{
    proof {
        lema_menor_total(a@, b@);
        lema_menor_asimetrico(a@, b@);
        if a@ == b@ {
            lema_menor_asimetrico(a@, a@);
        }
    }
    !es_menor(a, b) && !es_menor(b, a)
}

/// Interpreta el nombre de un contexto.
pub fn interpretar_contexto(texto: &str) -> (r: Contexto)
    ensures
        r == contexto_de(texto@),
{
    if mismo_texto(texto, "alumnos") {
        Contexto::Alumnos
    } else if mismo_texto(texto, "consulta") {
        Contexto::Consulta
    } else if mismo_texto(texto, "representantes") {
        Contexto::Representantes
    } else {
        Contexto::General
    }
}

/// Conmuta `id` en el conjunto.
pub fn conmutar(s: &mut HashSet<usize>, id: usize)
    ensures
        final(s)@ == conmutado(old(s)@, id),
{
    if s.contains(&id) {
        s.remove(&id);
    } else {
        s.insert(id);
    }
    assert(s@ =~= conmutado(old(s)@, id));
}

/// Conmuta `id` como selección única.
pub fn conmutar_unico(s: &mut HashSet<usize>, id: usize)
    ensures
        final(s)@ == conmutado_unico(old(s)@, id),
{
    if s.contains(&id) {
        s.remove(&id);
    } else {
        s.clear();
        s.insert(id);
    }
    assert(s@ =~= conmutado_unico(old(s)@, id));
}

/// Selecciones de la interfaz: una general y una por contexto.
pub struct Selecciones {
    pub seleccionados: HashSet<usize>,
    pub seleccion_alumnos: HashSet<usize>,
    pub seleccion_consulta: HashSet<usize>,
    pub seleccion_representantes: HashSet<usize>,
}

impl Selecciones {
    /// Selección del contexto.
    pub open spec fn del_contexto(&self, c: Contexto) -> Set<usize> {
        match c {
            Contexto::Alumnos => self.seleccion_alumnos@,
            Contexto::Consulta => self.seleccion_consulta@,
            Contexto::Representantes => self.seleccion_representantes@,
            Contexto::General => self.seleccionados@,
        }
    }

    /// Todas vacías.
    pub fn nuevo() -> (r: Self)
        ensures
            r.seleccionados@.is_empty(),
            r.seleccion_alumnos@.is_empty(),
            r.seleccion_consulta@.is_empty(),
            r.seleccion_representantes@.is_empty(),
    {
        Selecciones {
            seleccionados: HashSet::new(),
            seleccion_alumnos: HashSet::new(),
            seleccion_consulta: HashSet::new(),
            seleccion_representantes: HashSet::new(),
        }
    }

    /// Conmuta `id` en la selección general.
    pub fn toggle_seleccion(&mut self, id: usize)
        ensures
            final(self).seleccionados@ == conmutado(old(self).seleccionados@, id),
            final(self).seleccion_alumnos == old(self).seleccion_alumnos,
            final(self).seleccion_consulta == old(self).seleccion_consulta,
            final(self).seleccion_representantes == old(self).seleccion_representantes,
    {
        conmutar(&mut self.seleccionados, id);
    }

    /// Conmuta `id` como selección única en la selección general.
    pub fn toggle_single_seleccion(&mut self, id: usize)
        ensures
            final(self).seleccionados@ == conmutado_unico(old(self).seleccionados@, id),
            final(self).seleccion_alumnos == old(self).seleccion_alumnos,
            final(self).seleccion_consulta == old(self).seleccion_consulta,
            final(self).seleccion_representantes == old(self).seleccion_representantes,
    {
        conmutar_unico(&mut self.seleccionados, id);
    }

    /// Selección del contexto que nombra el texto.
    pub fn seleccion_get(&self, contexto: &str) -> (r: &HashSet<usize>)
        ensures
            r@ == self.del_contexto(contexto_de(contexto@)),
    {
        match interpretar_contexto(contexto) {
            Contexto::Alumnos => &self.seleccion_alumnos,
            Contexto::Consulta => &self.seleccion_consulta,
            Contexto::Representantes => &self.seleccion_representantes,
            Contexto::General => &self.seleccionados,
        }
    }

    /// Conmuta `id` en la selección del contexto; las demás no cambian.
    pub fn toggle_seleccion_ctx(&mut self, id: usize, contexto: &str)
        ensures
            forall|c: Contexto|
                #[trigger] final(self).del_contexto(c) == if c == contexto_de(contexto@) {
                    conmutado(old(self).del_contexto(c), id)
                } else {
                    old(self).del_contexto(c)
                },
    {
        match interpretar_contexto(contexto) {
            Contexto::Alumnos => conmutar(&mut self.seleccion_alumnos, id),
            Contexto::Consulta => conmutar(&mut self.seleccion_consulta, id),
            Contexto::Representantes => conmutar(&mut self.seleccion_representantes, id),
            Contexto::General => conmutar(&mut self.seleccionados, id),
        }
    }

    /// Conmuta `id` como selección única en el contexto; las demás no cambian.
    pub fn toggle_single_seleccion_ctx(&mut self, id: usize, contexto: &str)
        ensures
            forall|c: Contexto|
                #[trigger] final(self).del_contexto(c) == if c == contexto_de(contexto@) {
                    conmutado_unico(old(self).del_contexto(c), id)
                } else {
                    old(self).del_contexto(c)
                },
    {
        match interpretar_contexto(contexto) {
            Contexto::Alumnos => conmutar_unico(&mut self.seleccion_alumnos, id),
            Contexto::Consulta => conmutar_unico(&mut self.seleccion_consulta, id),
            Contexto::Representantes => conmutar_unico(&mut self.seleccion_representantes, id),
            Contexto::General => conmutar_unico(&mut self.seleccionados, id),
        }
    }

    /// Marca o desmarca todos los alumnos visibles en la selección de alumnos.
    pub fn toggle_all(&mut self, alumnos_visibles: Vec<AlumnoVista>)
        ensures
            final(self).seleccion_alumnos@ == con_todos(old(self).seleccion_alumnos@, alumnos_visibles@),
            final(self).seleccionados == old(self).seleccionados,
            final(self).seleccion_consulta == old(self).seleccion_consulta,
            final(self).seleccion_representantes == old(self).seleccion_representantes,
    {
        let ghost inicial = self.seleccion_alumnos@;
        let ghost ids = ids_visibles(alumnos_visibles@);
        let mut todos = true;
        let mut i: usize = 0;
        while i < alumnos_visibles.len()
            invariant
                i <= alumnos_visibles@.len(),
                self.seleccion_alumnos@ == inicial,
                self.seleccionados == old(self).seleccionados,
                self.seleccion_consulta == old(self).seleccion_consulta,
                self.seleccion_representantes == old(self).seleccion_representantes,
                todos == (forall|k: int| 0 <= k < i ==> inicial.contains(#[trigger] alumnos_visibles@[k].alumno.id)),
            decreases alumnos_visibles@.len() - i,
        {
            if !self.seleccion_alumnos.contains(&alumnos_visibles[i].alumno.id) {
                todos = false;
            }
            i = i + 1;
        }
        proof {
            if todos {
                assert forall|x: usize| ids.contains(x) implies inicial.contains(x) by {
                    let k = choose|k: int| 0 <= k < alumnos_visibles@.len() && alumnos_visibles@[k].alumno.id == x;
                }
            } else {
                let k = choose|k: int| 0 <= k < alumnos_visibles@.len() && !inicial.contains(#[trigger] alumnos_visibles@[k].alumno.id);
                assert(ids.contains(alumnos_visibles@[k].alumno.id));
            }
        }
        let mut j: usize = 0;
        while j < alumnos_visibles.len()
            invariant
                j <= alumnos_visibles@.len(),
                ids == ids_visibles(alumnos_visibles@),
                self.seleccionados == old(self).seleccionados,
                self.seleccion_consulta == old(self).seleccion_consulta,
                self.seleccion_representantes == old(self).seleccion_representantes,
                todos ==> self.seleccion_alumnos@ == inicial.difference(Set::new(|id: usize| exists|k: int| 0 <= k < j && alumnos_visibles@[k].alumno.id == id)),
                !todos ==> self.seleccion_alumnos@ == inicial.union(Set::new(|id: usize| exists|k: int| 0 <= k < j && alumnos_visibles@[k].alumno.id == id)),
            decreases alumnos_visibles@.len() - j,
        {
            let id = alumnos_visibles[j].alumno.id;
            let ghost antes = Set::new(|x: usize| exists|k: int| 0 <= k < j && alumnos_visibles@[k].alumno.id == x);
            let ghost despues = Set::new(|x: usize| exists|k: int| 0 <= k < j + 1 && alumnos_visibles@[k].alumno.id == x);
            assert(despues =~= antes.insert(id)) by {
                assert forall|x: usize| despues.contains(x) implies antes.insert(id).contains(x) by {
                    let k = choose|k: int| 0 <= k < j + 1 && alumnos_visibles@[k].alumno.id == x;
                    if k < j {
                        assert(antes.contains(x));
                    }
                }
                assert forall|x: usize| antes.insert(id).contains(x) implies despues.contains(x) by {
                    if x != id {
                        let k = choose|k: int| 0 <= k < j && alumnos_visibles@[k].alumno.id == x;
                        assert(0 <= k < j + 1 && alumnos_visibles@[k].alumno.id == x);
                    } else {
                        assert(alumnos_visibles@[j as int].alumno.id == x);
                    }
                }
            }
            if todos {
                self.seleccion_alumnos.remove(&id);
                assert(self.seleccion_alumnos@ =~= inicial.difference(despues));
            } else {
                self.seleccion_alumnos.insert(id);
                assert(self.seleccion_alumnos@ =~= inicial.union(despues));
            }
            j = j + 1;
        }
        proof {
            let todas = Set::new(|x: usize| exists|k: int| 0 <= k < j && alumnos_visibles@[k].alumno.id == x);
            assert(todas =~= ids);
        }
    }
}

} // verus!
