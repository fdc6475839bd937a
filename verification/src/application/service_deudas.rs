//! Casos de uso de deudas mensuales.
//!
//! El monto de cada deuda es `monto_base × alumnos activos del representante`,
//! salvo que el administrador haya fijado un monto propio para ese
//! representante (ajuste `mensualidad_override_{id}`).

use vstd::prelude::*;
use std::sync::Arc;
use super::dto::DeudaVista;
use super::error::{ErrorAplicacion, es_validacion};
use super::ports::{AbonoRepository, ConfiguracionAppRepository, DeudaRepository, ErrorRepositorio, Logger};
use super::service::delegado;
use crate::domain::alumno::Alumno;
use crate::domain::catalogos::EstadoDeuda;
use crate::domain::deuda::{Deuda, estado_de_deuda};
use crate::domain::monto::{monto_de_texto, monto_desde_texto, lema_monto_no_negativo};
use crate::domain::representante::{Representante, buscar_por_id, representante_con_id};
use crate::domain::texto::{agregar_natural, decimal_nat};

verus! {

/// Cantidad de alumnos activos (estado 1) de un representante.
pub open spec fn activos_de(alumnos: Seq<Alumno>, representante_id: usize) -> nat
    decreases alumnos.len(),
{
    if alumnos.len() == 0 {
        0
    } else {
        activos_de(alumnos.drop_last(), representante_id) + if alumnos.last().representante_id
            == representante_id && alumnos.last().estado_id == 1 {
            1nat
        } else {
            0nat
        }
    }
}

/// Mensualidad de un representante: el monto propio si es positivo; si no,
/// el monto base por la cantidad de alumnos activos (0 sin alumnos).
pub open spec fn mensualidad(propio: Option<int>, monto_base: int, activos: int) -> int {
    match propio {
        Some(m) if m > 0 => m,
        _ => if activos <= 0 {
            0
        } else {
            monto_base * activos
        },
    }
}

/// Monto propio que expresa el texto de un ajuste, si es positivo.
pub open spec fn monto_propio(texto: Seq<char>) -> Option<int> {
    match monto_de_texto(texto) {
        Some(m) if m > 0 => Some(m),
        _ => None,
    }
}

/// El monto propio leído de un ajuste: el monto si el puerto devolvió un
/// texto que expresa un monto positivo; ninguno en otro caso, también si el
/// puerto falló.
pub open spec fn es_monto_propio_leido(r: Option<i64>, leido: Result<Option<String>, ErrorRepositorio>) -> bool {
    r == match leido {
        Ok(Some(t)) => match monto_propio(t@) {
            Some(m) => Some(m as i64),
            None => None,
        },
        _ => None,
    }
}

/// Interpreta lo que el puerto devolvió para el ajuste de monto propio de
/// un representante.
pub fn monto_propio_leido(leido: Result<Option<String>, ErrorRepositorio>) -> (r: Option<i64>)
    ensures
        es_monto_propio_leido(r, leido),
        r matches Some(m) ==> m > 0,
{
    match leido {
        Ok(Some(valor)) => {
            proof {
                lema_monto_no_negativo(valor@);
            }
            match monto_desde_texto(valor.as_str()) {
                Some(m) => if m > 0 {
                    Some(m)
                } else {
                    None
                },
                None => None,
            }
        },
        _ => None,
    }
}

/// `d` es la deuda nueva del representante por `monto` en el periodo, con el
/// vencimiento dado.
pub open spec fn es_deuda_nueva(
    d: Deuda,
    representante_id: usize,
    monto: i64,
    periodo: Seq<char>,
    fecha: Seq<char>,
) -> bool {
    &&& d.id == 0
    &&& d.representante_id == representante_id
    &&& d.monto_total == monto
    &&& d.monto_pendiente == monto
    &&& d.periodo@ == periodo
    &&& d.fecha_vencimiento@ == fecha
    &&& d.estado_id == EstadoDeuda::Pendiente.id_de()
    &&& d.alumno_id is None
}

/// Cuenta los alumnos activos de un representante.
pub fn contar_alumnos_activos(alumnos: &[Alumno], representante_id: usize) -> (r: usize)
    ensures
        r == activos_de(alumnos@, representante_id),
{
    let mut n: usize = 0;
    let mut i: usize = 0;
    while i < alumnos.len()
        invariant
            i <= alumnos@.len(),
            n == activos_de(alumnos@.take(i as int), representante_id),
            n <= i,
        decreases alumnos@.len() - i,
    {
        assert(alumnos@.take(i + 1).drop_last() =~= alumnos@.take(i as int));
        if alumnos[i].representante_id == representante_id && alumnos[i].estado_id == 1 {
            n = n + 1;
        }
        i = i + 1;
    }
    assert(alumnos@.take(i as int) =~= alumnos@);
    n
}

/// Mensualidad de un representante a partir del monto propio (si hay), el
/// monto base y la cantidad de alumnos activos; `None` si no cabe en `i64`.
pub fn calcular_mensualidad(propio: Option<i64>, monto_base: i64, activos: usize) -> (r: Option<i64>)
    ensures
        ({
            let m = mensualidad(
                match propio {
                    Some(p) => Some(p as int),
                    None => None,
                },
                monto_base as int,
                activos as int,
            );
            &&& i64::MIN <= m <= i64::MAX ==> r == Some(m as i64)
            &&& !(i64::MIN <= m <= i64::MAX) ==> r is None
        }),
{
    match propio {
        Some(m) => if m > 0 {
            return Some(m);
        },
        None => {},
    }
    if activos == 0 {
        return Some(0);
    }
    assert(-170141183460469231722463931679029329920 <= (monto_base as int) * (activos as int)
        <= 170141183460469231722463931679029329920) by (nonlinear_arith)
        requires
            i64::MIN <= monto_base <= i64::MAX,
            0 <= activos <= 18446744073709551615,
    ;
    let producto: i128 = (monto_base as i128) * (activos as i128);
    if producto >= i64::MIN as i128 && producto <= i64::MAX as i128 {
        Some(producto as i64)
    } else {
        None
    }
}

/// `r` es lo que `calcular_mensualidad` da para el monto propio `propio`.
pub open spec fn mensualidad_en_i64(r: Option<i64>, propio: Option<int>, monto_base: int, activos: int) -> bool {
    let m = mensualidad(propio, monto_base, activos);
    &&& i64::MIN <= m <= i64::MAX ==> r == Some(m as i64)
    &&& !(i64::MIN <= m <= i64::MAX) ==> r is None
}

/// Construye la deuda nueva de un representante para el periodo.
pub fn crear_deuda_nueva(representante_id: usize, monto: i64, periodo: &str, fecha: &str) -> (r: Deuda)
    ensures
        es_deuda_nueva(r, representante_id, monto, periodo@, fecha@),
{
    Deuda {
        id: 0,
        representante_id,
        monto_total: monto,
        monto_pendiente: monto,
        periodo: String::from_str(periodo),
        fecha_vencimiento: String::from_str(fecha),
        estado_id: EstadoDeuda::Pendiente.id(),
        alumno_id: None,
    }
}

/// Alguna deuda de `existentes` es del representante.
pub open spec fn ya_tiene_deuda(existentes: Seq<Deuda>, representante_id: usize) -> bool {
    exists|j: int| 0 <= j < existentes.len() && #[trigger] existentes[j].representante_id == representante_id
}

/// El representante recibe deuda en el periodo: está activo, no tiene ya una
/// deuda en el periodo y tiene alumnos activos.
pub open spec fn recibe_deuda(existentes: Seq<Deuda>, rep: Representante, alumnos: Seq<Alumno>) -> bool {
    &&& rep.estado_id == 1
    &&& !ya_tiene_deuda(existentes, rep.id)
    &&& activos_de(alumnos, rep.id) > 0
}

/// Monto propio leído, como entero matemático.
pub open spec fn propio_en_int(propio: Option<i64>) -> Option<int> {
    match propio {
        Some(p) => Some(p as int),
        None => None,
    }
}

/// Mensualidad del representante `i` de la lista.
pub open spec fn mensualidad_de(
    reps: Seq<Representante>,
    alumnos: Seq<Alumno>,
    propios: Seq<Option<i64>>,
    monto_base: int,
    i: int,
) -> int {
    mensualidad(propio_en_int(propios[i]), monto_base, activos_de(alumnos, reps[i].id) as int)
}

/// Plan de deudas de los primeros `n` representantes: un par (representante,
/// monto) por cada uno que recibe deuda, en el orden de la lista.
pub open spec fn plan_hasta(
    existentes: Seq<Deuda>,
    reps: Seq<Representante>,
    alumnos: Seq<Alumno>,
    propios: Seq<Option<i64>>,
    monto_base: int,
    n: nat,
) -> Seq<(usize, int)>
    decreases n,
{
    if n == 0 {
        Seq::empty()
    } else {
        let previo = plan_hasta(existentes, reps, alumnos, propios, monto_base, (n - 1) as nat);
        if recibe_deuda(existentes, reps[n - 1], alumnos) {
            previo.push((reps[n - 1].id, mensualidad_de(reps, alumnos, propios, monto_base, n - 1)))
        } else {
            previo
        }
    }
}

/// Plan de deudas del mes: un par (representante, monto) por cada
/// representante que recibe deuda, en el orden de la lista.
pub open spec fn plan_deudas(
    existentes: Seq<Deuda>,
    reps: Seq<Representante>,
    alumnos: Seq<Alumno>,
    propios: Seq<Option<i64>>,
    monto_base: int,
) -> Seq<(usize, int)> {
    plan_hasta(existentes, reps, alumnos, propios, monto_base, reps.len())
}

/// Todos los montos del plan caben en `i64`.
pub open spec fn plan_cabe(plan: Seq<(usize, int)>) -> bool {
    forall|j: int| 0 <= j < plan.len() ==> i64::MIN <= (#[trigger] plan[j]).1 <= i64::MAX
}

/// `v` son las deudas nuevas del plan, una por par y en el mismo orden.
pub open spec fn son_deudas_del_plan(v: Seq<Deuda>, plan: Seq<(usize, int)>, periodo: Seq<char>, fecha: Seq<char>) -> bool {
    &&& v.len() == plan.len()
    &&& forall|j: int|
        0 <= j < plan.len() ==> es_deuda_nueva(
            #[trigger] v[j],
            plan[j].0,
            plan[j].1 as i64,
            periodo,
            fecha,
        )
}

/// `p` es el par de algún representante de los primeros `n` que recibe
/// deuda: su identificador y su mensualidad.
pub open spec fn par_de_quien_recibe(
    existentes: Seq<Deuda>,
    reps: Seq<Representante>,
    alumnos: Seq<Alumno>,
    propios: Seq<Option<i64>>,
    monto_base: int,
    n: int,
    p: (usize, int),
) -> bool {
    exists|i: int|
        0 <= i < n && recibe_deuda(existentes, reps[i], alumnos) && p == (
        reps[i].id,
        mensualidad_de(reps, alumnos, propios, monto_base, i),
        )
}

/// El plan de los primeros `k` representantes es un prefijo del de los
/// primeros `n`, y no tiene más pares que representantes.
proof fn lema_plan_prefijo(
    existentes: Seq<Deuda>,
    reps: Seq<Representante>,
    alumnos: Seq<Alumno>,
    propios: Seq<Option<i64>>,
    monto_base: int,
    k: nat,
    n: nat,
)
    requires
        k <= n,
    ensures
        plan_hasta(existentes, reps, alumnos, propios, monto_base, k).len() <= plan_hasta(
            existentes,
            reps,
            alumnos,
            propios,
            monto_base,
            n,
        ).len(),
        plan_hasta(existentes, reps, alumnos, propios, monto_base, n).len() <= n,
        forall|j: int|
            0 <= j < plan_hasta(existentes, reps, alumnos, propios, monto_base, k).len() ==> (
            #[trigger] plan_hasta(existentes, reps, alumnos, propios, monto_base, n)[j])
                == plan_hasta(existentes, reps, alumnos, propios, monto_base, k)[j],
    decreases n,
{
    if n > 0 {
        lema_plan_prefijo(existentes, reps, alumnos, propios, monto_base, 0, (n - 1) as nat);
        if k < n {
            lema_plan_prefijo(existentes, reps, alumnos, propios, monto_base, k, (n - 1) as nat);
        }
    }
}

/// Cada par del plan de los primeros `n` viene de un representante de esos
/// `n` que recibe deuda, por su mensualidad; y cada uno de ellos que recibe
/// deuda tiene su par.
proof fn lema_plan_origen(
    existentes: Seq<Deuda>,
    reps: Seq<Representante>,
    alumnos: Seq<Alumno>,
    propios: Seq<Option<i64>>,
    monto_base: int,
    n: nat,
)
    requires
        n <= reps.len(),
    ensures
        forall|j: int|
            0 <= j < plan_hasta(existentes, reps, alumnos, propios, monto_base, n).len()
                ==> par_de_quien_recibe(
                existentes,
                reps,
                alumnos,
                propios,
                monto_base,
                n as int,
                #[trigger] plan_hasta(existentes, reps, alumnos, propios, monto_base, n)[j],
            ),
        forall|i: int|
            0 <= i < n && #[trigger] recibe_deuda(existentes, reps[i], alumnos) ==> exists|j: int|
                0 <= j < plan_hasta(existentes, reps, alumnos, propios, monto_base, n).len()
                    && plan_hasta(existentes, reps, alumnos, propios, monto_base, n)[j].0
                    == reps[i].id,
    decreases n,
{
    if n > 0 {
        let m = (n - 1) as nat;
        lema_plan_origen(existentes, reps, alumnos, propios, monto_base, m);
        let previo = plan_hasta(existentes, reps, alumnos, propios, monto_base, m);
        let plan = plan_hasta(existentes, reps, alumnos, propios, monto_base, n);
        assert forall|j: int| 0 <= j < plan.len() implies par_de_quien_recibe(
            existentes,
            reps,
            alumnos,
            propios,
            monto_base,
            n as int,
            #[trigger] plan[j],
        ) by {
            if j < previo.len() {
                assert(plan[j] == previo[j]);
                assert(par_de_quien_recibe(existentes, reps, alumnos, propios, monto_base, m as int, previo[j]));
                let i = choose|i: int|
                    0 <= i < m && recibe_deuda(existentes, reps[i], alumnos) && previo[j] == (
                    reps[i].id,
                    mensualidad_de(reps, alumnos, propios, monto_base, i),
                    );
                assert(0 <= i < n && recibe_deuda(existentes, reps[i], alumnos) && plan[j] == (
                reps[i].id,
                mensualidad_de(reps, alumnos, propios, monto_base, i),
                ));
            } else {
                assert(0 <= m < n && recibe_deuda(existentes, reps[m as int], alumnos) && plan[j] == (
                reps[m as int].id,
                mensualidad_de(reps, alumnos, propios, monto_base, m as int),
                ));
            }
        }
        assert forall|i: int| 0 <= i < n && #[trigger] recibe_deuda(existentes, reps[i], alumnos) implies exists|j: int|
            0 <= j < plan.len() && plan[j].0 == reps[i].id by {
            if i < m {
                let j = choose|j: int| 0 <= j < previo.len() && previo[j].0 == reps[i].id;
                assert(plan[j] == previo[j]);
            } else {
                assert(plan[previo.len() as int].0 == reps[i].id);
            }
        }
    }
}

/// Los identificadores del plan de los primeros `n` son distintos si los de
/// los representantes lo son.
proof fn lema_plan_sin_repetidos(
    existentes: Seq<Deuda>,
    reps: Seq<Representante>,
    alumnos: Seq<Alumno>,
    propios: Seq<Option<i64>>,
    monto_base: int,
    n: nat,
)
    requires
        n <= reps.len(),
        forall|a: int, b: int| 0 <= a < b < reps.len() ==> reps[a].id != reps[b].id,
    ensures
        forall|a: int, b: int|
            0 <= a < b < plan_hasta(existentes, reps, alumnos, propios, monto_base, n).len()
                ==> #[trigger] plan_hasta(existentes, reps, alumnos, propios, monto_base, n)[a].0
                != #[trigger] plan_hasta(existentes, reps, alumnos, propios, monto_base, n)[b].0,
    decreases n,
{
    if n > 0 {
        let m = (n - 1) as nat;
        lema_plan_sin_repetidos(existentes, reps, alumnos, propios, monto_base, m);
        lema_plan_origen(existentes, reps, alumnos, propios, monto_base, m);
        let previo = plan_hasta(existentes, reps, alumnos, propios, monto_base, m);
        let plan = plan_hasta(existentes, reps, alumnos, propios, monto_base, n);
        assert forall|a: int, b: int| 0 <= a < b < plan.len() implies #[trigger] plan[a].0
            != #[trigger] plan[b].0 by {
            assert(plan[a] == previo[a]);
            if b < previo.len() {
                assert(plan[b] == previo[b]);
            } else {
                assert(par_de_quien_recibe(existentes, reps, alumnos, propios, monto_base, m as int, previo[a]));
                let i = choose|i: int|
                    0 <= i < m && recibe_deuda(existentes, reps[i], alumnos) && previo[a] == (
                    reps[i].id,
                    mensualidad_de(reps, alumnos, propios, monto_base, i),
                    );
                assert(plan[b].0 == reps[m as int].id);
            }
        }
    }
}

/// Si nadie de los primeros `n` recibe deuda, su plan está vacío.
proof fn lema_plan_vacio(
    existentes: Seq<Deuda>,
    reps: Seq<Representante>,
    alumnos: Seq<Alumno>,
    propios: Seq<Option<i64>>,
    monto_base: int,
    n: nat,
)
    requires
        forall|i: int| 0 <= i < n ==> !#[trigger] recibe_deuda(existentes, reps[i], alumnos),
    ensures
        plan_hasta(existentes, reps, alumnos, propios, monto_base, n).len() == 0,
    decreases n,
{
    if n > 0 {
        lema_plan_vacio(existentes, reps, alumnos, propios, monto_base, (n - 1) as nat);
        assert(!recibe_deuda(existentes, reps[n - 1], alumnos));
    }
}

/// El plan da exactamente una deuda a cada representante que la recibe
/// (activo, sin deuda en el periodo y con alumnos activos) y ninguna a los
/// demás: cada par es el de uno que la recibe, por su mensualidad; cada uno
/// que la recibe tiene su par; y si los identificadores de los
/// representantes son distintos, también lo son los del plan.
pub proof fn el_plan_da_una_deuda_a_cada_representante_que_la_recibe(
    existentes: Seq<Deuda>,
    reps: Seq<Representante>,
    alumnos: Seq<Alumno>,
    propios: Seq<Option<i64>>,
    monto_base: int,
)
    requires
        propios.len() == reps.len(),
    ensures
        plan_deudas(existentes, reps, alumnos, propios, monto_base).len() <= reps.len(),
        forall|j: int|
            0 <= j < plan_deudas(existentes, reps, alumnos, propios, monto_base).len()
                ==> par_de_quien_recibe(
                existentes,
                reps,
                alumnos,
                propios,
                monto_base,
                reps.len() as int,
                #[trigger] plan_deudas(existentes, reps, alumnos, propios, monto_base)[j],
            ),
        forall|i: int|
            0 <= i < reps.len() && #[trigger] recibe_deuda(existentes, reps[i], alumnos) ==> exists|j: int|
                0 <= j < plan_deudas(existentes, reps, alumnos, propios, monto_base).len()
                    && plan_deudas(existentes, reps, alumnos, propios, monto_base)[j].0 == reps[i].id,
        forall|j: int|
            0 <= j < plan_deudas(existentes, reps, alumnos, propios, monto_base).len() ==> !ya_tiene_deuda(
                existentes,
                (#[trigger] plan_deudas(existentes, reps, alumnos, propios, monto_base)[j]).0,
            ),
        (forall|a: int, b: int| 0 <= a < b < reps.len() ==> reps[a].id != reps[b].id) ==> forall|
            a: int,
            b: int,
        |
            0 <= a < b < plan_deudas(existentes, reps, alumnos, propios, monto_base).len()
                ==> #[trigger] plan_deudas(existentes, reps, alumnos, propios, monto_base)[a].0
                != #[trigger] plan_deudas(existentes, reps, alumnos, propios, monto_base)[b].0,
{
    let n = reps.len();
    lema_plan_prefijo(existentes, reps, alumnos, propios, monto_base, 0, n);
    lema_plan_origen(existentes, reps, alumnos, propios, monto_base, n);
    let plan = plan_deudas(existentes, reps, alumnos, propios, monto_base);
    assert forall|j: int| 0 <= j < plan.len() implies !ya_tiene_deuda(existentes, (#[trigger] plan[j]).0) by {
        assert(par_de_quien_recibe(existentes, reps, alumnos, propios, monto_base, n as int, plan[j]));
    }
    if forall|a: int, b: int| 0 <= a < b < reps.len() ==> reps[a].id != reps[b].id {
        lema_plan_sin_repetidos(existentes, reps, alumnos, propios, monto_base, n);
    }
}

/// Con las deudas del plan ya guardadas junto a las que había, volver a
/// planear el mismo periodo no crea ninguna: nadie recibe una segunda deuda
/// en un periodo, sean cuales sean los montos propios que se lean entonces.
pub proof fn volver_a_planear_no_duplica_deudas(
    existentes: Seq<Deuda>,
    reps: Seq<Representante>,
    alumnos: Seq<Alumno>,
    propios: Seq<Option<i64>>,
    propios_despues: Seq<Option<i64>>,
    monto_base: int,
    nuevas: Seq<Deuda>,
    periodo: Seq<char>,
    fecha: Seq<char>,
)
    requires
        propios.len() == reps.len(),
        propios_despues.len() == reps.len(),
        son_deudas_del_plan(
            nuevas,
            plan_deudas(existentes, reps, alumnos, propios, monto_base),
            periodo,
            fecha,
        ),
    ensures
        plan_deudas(existentes + nuevas, reps, alumnos, propios_despues, monto_base).len() == 0,
{
    let n = reps.len();
    let plan = plan_deudas(existentes, reps, alumnos, propios, monto_base);
    let todas = existentes + nuevas;
    lema_plan_origen(existentes, reps, alumnos, propios, monto_base, n);
    assert forall|i: int| 0 <= i < n implies !#[trigger] recibe_deuda(todas, reps[i], alumnos) by {
        if recibe_deuda(existentes, reps[i], alumnos) {
            let j = choose|j: int| 0 <= j < plan.len() && plan[j].0 == reps[i].id;
            assert(es_deuda_nueva(nuevas[j], plan[j].0, plan[j].1 as i64, periodo, fecha));
            assert(todas[existentes.len() + j].representante_id == reps[i].id);
        } else if ya_tiene_deuda(existentes, reps[i].id) {
            let j = choose|j: int|
                0 <= j < existentes.len() && #[trigger] existentes[j].representante_id == reps[i].id;
            assert(todas[j].representante_id == reps[i].id);
        }
    }
    lema_plan_vacio(todas, reps, alumnos, propios_despues, monto_base, n);
}

/// Generar el mes no duplica deudas: si el periodo no tenía dos deudas de
/// un mismo representante y los representantes son distintos, tras agregar
/// las deudas del plan ningún representante tiene dos deudas en el periodo.
pub proof fn generar_el_mes_no_duplica_deudas(
    existentes: Seq<Deuda>,
    reps: Seq<Representante>,
    alumnos: Seq<Alumno>,
    propios: Seq<Option<i64>>,
    monto_base: int,
    nuevas: Seq<Deuda>,
    periodo: Seq<char>,
    fecha: Seq<char>,
)
    requires
        propios.len() == reps.len(),
        forall|a: int, b: int| 0 <= a < b < reps.len() ==> reps[a].id != reps[b].id,
        forall|a: int, b: int|
            0 <= a < b < existentes.len() ==> existentes[a].representante_id
                != existentes[b].representante_id,
        son_deudas_del_plan(
            nuevas,
            plan_deudas(existentes, reps, alumnos, propios, monto_base),
            periodo,
            fecha,
        ),
    ensures
        forall|a: int, b: int|
            0 <= a < b < (existentes + nuevas).len() ==> (#[trigger] (existentes + nuevas)[a]).representante_id
                != (#[trigger] (existentes + nuevas)[b]).representante_id,
{
    let plan = plan_deudas(existentes, reps, alumnos, propios, monto_base);
    let todas = existentes + nuevas;
    let n = existentes.len() as int;
    el_plan_da_una_deuda_a_cada_representante_que_la_recibe(existentes, reps, alumnos, propios, monto_base);
    assert forall|a: int, b: int| 0 <= a < b < todas.len() implies (#[trigger] todas[a]).representante_id
        != (#[trigger] todas[b]).representante_id by {
        if b < n {
            assert(todas[a] == existentes[a] && todas[b] == existentes[b]);
        } else if a < n {
            let j = b - n;
            assert(todas[b] == nuevas[j]);
            assert(es_deuda_nueva(nuevas[j], plan[j].0, plan[j].1 as i64, periodo, fecha));
            assert(!ya_tiene_deuda(existentes, plan[j].0));
            assert(todas[a] == existentes[a]);
            if todas[a].representante_id == todas[b].representante_id {
                assert(existentes[a].representante_id == plan[j].0);
            }
        } else {
            let ja = a - n;
            let jb = b - n;
            assert(todas[a] == nuevas[ja] && todas[b] == nuevas[jb]);
            assert(es_deuda_nueva(nuevas[ja], plan[ja].0, plan[ja].1 as i64, periodo, fecha));
            assert(es_deuda_nueva(nuevas[jb], plan[jb].0, plan[jb].1 as i64, periodo, fecha));
            assert(plan[ja].0 != plan[jb].0);
        }
    }
}

/// Planea las deudas del mes sobre lo leído: las deudas ya existentes del
/// periodo y el monto propio de cada representante (`montos_propios[i]` es
/// el del representante `i`; sólo cuenta si es positivo). Crea una deuda por
/// cada representante activo sin deuda en el periodo y con alumnos activos,
/// por su mensualidad, en el orden de la lista.
pub fn planear_deudas_del_mes(
    existentes: &[Deuda],
    representantes: &[Representante],
    alumnos: &[Alumno],
    montos_propios: &[Option<i64>],
    monto_base: i64,
    periodo: &str,
    fecha: &str,
) -> (r: Result<Vec<Deuda>, ErrorAplicacion>)
    requires
        montos_propios@.len() == representantes@.len(),
    ensures
        monto_base <= 0 ==> es_validacion(r, "El monto base de mensualidad debe ser mayor a cero."@),
        monto_base > 0 && plan_cabe(
            plan_deudas(existentes@, representantes@, alumnos@, montos_propios@, monto_base as int),
        ) ==> (r matches Ok(v) && son_deudas_del_plan(
            v@,
            plan_deudas(existentes@, representantes@, alumnos@, montos_propios@, monto_base as int),
            periodo@,
            fecha@,
        )),
        monto_base > 0 && !plan_cabe(
            plan_deudas(existentes@, representantes@, alumnos@, montos_propios@, monto_base as int),
        ) ==> es_validacion(r, "La mensualidad calculada excede el monto máximo."@),
{
    if monto_base <= 0 {
        return Err(
            ErrorAplicacion::Validacion(
                String::from_str("El monto base de mensualidad debe ser mayor a cero."),
            ),
        );
    }
    let ghost ex = existentes@;
    let ghost reps = representantes@;
    let ghost al = alumnos@;
    let ghost pr = montos_propios@;
    let ghost base = monto_base as int;
    let mut deudas: Vec<Deuda> = Vec::new();
    let mut i: usize = 0;
    while i < representantes.len()
        invariant
            i <= reps.len(),
            ex == existentes@,
            reps == representantes@,
            al == alumnos@,
            pr == montos_propios@,
            pr.len() == reps.len(),
            base == monto_base,
            monto_base > 0,
            plan_cabe(plan_hasta(ex, reps, al, pr, base, i as nat)),
            son_deudas_del_plan(deudas@, plan_hasta(ex, reps, al, pr, base, i as nat), periodo@, fecha@),
        decreases reps.len() - i,
    {
        let rep = &representantes[i];
        let recibe = rep.estado_id == 1 && !tiene_deuda(existentes, rep.id);
        let activos = if recibe {
            contar_alumnos_activos(alumnos, rep.id)
        } else {
            0
        };
        let ghost previo = plan_hasta(ex, reps, al, pr, base, i as nat);
        if recibe && activos > 0 {
            assert(recibe_deuda(ex, reps[i as int], al));
            let ghost plan_i = plan_hasta(ex, reps, al, pr, base, (i + 1) as nat);
            assert(plan_i == previo.push(
                (reps[i as int].id, mensualidad_de(reps, al, pr, base, i as int)),
            ));
            let monto = match calcular_mensualidad(montos_propios[i], monto_base, activos) {
                Some(m) => m,
                None => {
                    proof {
                        let plan = plan_deudas(ex, reps, al, pr, base);
                        lema_plan_prefijo(ex, reps, al, pr, base, (i + 1) as nat, reps.len());
                        assert(plan[previo.len() as int] == plan_i[previo.len() as int]);
                    }
                    return Err(
                        ErrorAplicacion::Validacion(
                            String::from_str("La mensualidad calculada excede el monto máximo."),
                        ),
                    );
                },
            };
            let deuda = crear_deuda_nueva(rep.id, monto, periodo, fecha);
            deudas.push(deuda);
            proof {
                assert forall|j: int| 0 <= j < plan_i.len() implies i64::MIN <= (
                #[trigger] plan_i[j]).1 <= i64::MAX by {
                    if j < previo.len() {
                        assert(plan_i[j] == previo[j]);
                    }
                }
                assert forall|j: int| 0 <= j < plan_i.len() implies es_deuda_nueva(
                    #[trigger] deudas@[j],
                    plan_i[j].0,
                    plan_i[j].1 as i64,
                    periodo@,
                    fecha@,
                ) by {
                    if j < previo.len() {
                        assert(plan_i[j] == previo[j]);
                    }
                }
            }
        } else {
            proof {
                if recibe {
                    assert(!recibe_deuda(ex, reps[i as int], al));
                } else {
                    assert(!recibe_deuda(ex, reps[i as int], al));
                }
            }
        }
        i = i + 1;
    }
    Ok(deudas)
}

/// Alguna deuda de la lista es del representante.
pub fn tiene_deuda(deudas: &[Deuda], representante_id: usize) -> (r: bool)
    ensures
        r == ya_tiene_deuda(deudas@, representante_id),
{
    let mut i: usize = 0;
    while i < deudas.len()
        invariant
            i <= deudas@.len(),
            forall|j: int| 0 <= j < i ==> deudas@[j].representante_id != representante_id,
        decreases deudas@.len() - i,
    {
        if deudas[i].representante_id == representante_id {
            return true;
        }
        i = i + 1;
    }
    false
}

/// Nombre con el que se muestra el representante de una deuda: el del primer
/// representante con su identificador, o "ID {id}".
pub open spec fn nombre_de_deudor(reps: Seq<Representante>, id: usize) -> Seq<char> {
    match representante_con_id(reps, id) {
        Some(r) => r.nombre@,
        None => "ID "@ + decimal_nat(id as nat),
    }
}

/// Teléfono del representante de una deuda, o vacío.
pub open spec fn telefono_de_deudor(reps: Seq<Representante>, id: usize) -> Seq<char> {
    match representante_con_id(reps, id) {
        Some(r) => r.numero_contacto@,
        None => Seq::<char>::empty(),
    }
}

/// `v` son las vistas de `d`: una por deuda, en el mismo orden, con los
/// datos del representante y el estado tipado.
pub open spec fn son_vistas_de_deudas(v: Seq<DeudaVista>, d: Seq<Deuda>, reps: Seq<Representante>) -> bool {
    &&& v.len() == d.len()
    &&& forall|i: int|
        0 <= i < d.len() ==> {
            &&& (#[trigger] v[i]).deuda == d[i]
            &&& v[i].nombre_representante@ == nombre_de_deudor(reps, d[i].representante_id)
            &&& v[i].telefono_representante@ == telefono_de_deudor(reps, d[i].representante_id)
            &&& v[i].estado == estado_de_deuda(d[i].estado_id)
        }
}

/// Vistas de deudas: una por deuda, en el mismo orden, con los datos del
/// representante y el estado tipado.
pub fn armar_vistas_deudas(deudas: &[Deuda], representantes: &[Representante]) -> (r: Vec<DeudaVista>)
    ensures
        r@.len() == deudas@.len(),
        forall|i: int|
            0 <= i < deudas@.len() ==> {
                &&& (#[trigger] r@[i]).deuda == deudas@[i]
                &&& r@[i].nombre_representante@ == nombre_de_deudor(
                    representantes@,
                    deudas@[i].representante_id,
                )
                &&& r@[i].telefono_representante@ == telefono_de_deudor(
                    representantes@,
                    deudas@[i].representante_id,
                )
                &&& r@[i].estado == estado_de_deuda(deudas@[i].estado_id)
            },
{
    let mut vistas: Vec<DeudaVista> = Vec::new();
    let mut i: usize = 0;
    while i < deudas.len()
        invariant
            i <= deudas@.len(),
            vistas@.len() == i,
            forall|j: int|
                0 <= j < i ==> {
                    &&& (#[trigger] vistas@[j]).deuda == deudas@[j]
                    &&& vistas@[j].nombre_representante@ == nombre_de_deudor(
                        representantes@,
                        deudas@[j].representante_id,
                    )
                    &&& vistas@[j].telefono_representante@ == telefono_de_deudor(
                        representantes@,
                        deudas@[j].representante_id,
                    )
                    &&& vistas@[j].estado == estado_de_deuda(deudas@[j].estado_id)
                },
        decreases deudas@.len() - i,
    {
        let deuda = &deudas[i];
        let (nombre, telefono) = match buscar_por_id(representantes, deuda.representante_id) {
            Some(k) => (representantes[k].nombre.clone(), representantes[k].numero_contacto.clone()),
            None => {
                let mut n = String::from_str("ID ");
                agregar_natural(&mut n, deuda.representante_id as u64);
                (n, String::new())
            },
        };
        let estado = deuda.estado();
        vistas.push(
            DeudaVista {
                deuda: deuda.clone(),
                nombre_representante: nombre,
                telefono_representante: telefono,
                estado,
            },
        );
        i = i + 1;
    }
    vistas
}

/// Clave del ajuste con el monto propio de un representante.
pub open spec fn clave_monto_propio(representante_id: usize) -> Seq<char> {
    "mensualidad_override_"@ + decimal_nat(representante_id as nat)
}

/// `existentes` es una respuesta que el repositorio puede dar al pedirle
/// las deudas del periodo.
pub open spec fn lee_deudas_del_periodo<D: DeudaRepository + ?Sized>(
    repo: &D,
    periodo: &str,
    existentes: Vec<Deuda>,
) -> bool {
    call_ensures(D::fetch_por_periodo, (repo, periodo), Ok::<Vec<Deuda>, ErrorRepositorio>(existentes))
}

/// El repositorio aceptó guardar la deuda.
pub open spec fn guardo_la_deuda<D: DeudaRepository + ?Sized>(repo: &D, deuda: Deuda) -> bool {
    call_ensures(D::save, (repo, &deuda), Ok::<(), ErrorRepositorio>(()))
}

/// Generar el mes guardó `nuevas`: las deudas del plan sobre las deudas que
/// el repositorio devolvió para ese mismo periodo y los montos propios
/// (positivos) que el repositorio de ajustes devolvió para cada
/// representante que recibe deuda, cada una aceptada por el repositorio.
pub open spec fn guarda_el_plan_del_mes<D: DeudaRepository + ?Sized, C: ConfiguracionAppRepository + ?Sized>(
    repo: &D,
    ajustes: &C,
    periodo: &str,
    fecha: &str,
    reps: Seq<Representante>,
    alumnos: Seq<Alumno>,
    monto_base: int,
    existentes: Vec<Deuda>,
    propios: Seq<Option<i64>>,
    nuevas: Seq<Deuda>,
) -> bool {
    &&& lee_deudas_del_periodo(repo, periodo, existentes)
    &&& propios.len() == reps.len()
    &&& forall|i: int| 0 <= i < propios.len() ==> (#[trigger] propios[i] matches Some(m) ==> m > 0)
    &&& forall|i: int|
        0 <= i < reps.len() && #[trigger] recibe_deuda(existentes@, reps[i], alumnos) ==> lee_monto_propio(
            ajustes,
            reps[i].id,
            propios[i],
        )
    &&& son_deudas_del_plan(
        nuevas,
        plan_deudas(existentes@, reps, alumnos, propios, monto_base),
        periodo@,
        fecha@,
    )
    &&& forall|k: int| 0 <= k < nuevas.len() ==> guardo_la_deuda(repo, #[trigger] nuevas[k])
}

/// `propio` es el monto propio que da una respuesta que el repositorio de
/// ajustes puede dar al pedirle el ajuste `clave_monto_propio(id)`.
pub open spec fn lee_monto_propio<C: ConfiguracionAppRepository + ?Sized>(
    repo: &C,
    representante_id: usize,
    propio: Option<i64>,
) -> bool {
    exists|clave: &str, leido: Result<Option<String>, ErrorRepositorio>|
        clave@ == clave_monto_propio(representante_id) && #[trigger] call_ensures(
            C::obtener,
            (repo, clave),
            leido,
        ) && es_monto_propio_leido(propio, leido)
}

/// Casos de uso de deudas mensuales.
pub struct ServicioDeudas<
    D: DeudaRepository + ?Sized,
    C: ConfiguracionAppRepository + ?Sized,
    L: Logger + ?Sized,
> {
    repo_deudas: Arc<D>,
    repo_ajustes: Arc<C>,
    logger: Arc<L>,
}

impl<
    D: DeudaRepository + ?Sized,
    C: ConfiguracionAppRepository + ?Sized,
    L: Logger + ?Sized,
> ServicioDeudas<D, C, L> {
    /// Construye el servicio. El repositorio de abonos se acepta por
    /// compatibilidad con quien lo arma y no se usa.
    pub fn nuevo<B: AbonoRepository + ?Sized>(
        repo_deudas: Arc<D>,
        repo_ajustes: Arc<C>,
        _repo_abonos: Arc<B>,
        logger: Arc<L>,
    ) -> (r: Self)
        ensures
            r.repo_deudas() == repo_deudas,
            r.repo_ajustes() == repo_ajustes,
            r.logger() == logger,
    {
        ServicioDeudas { repo_deudas, repo_ajustes, logger }
    }

    /// Repositorio de deudas del servicio.
    pub closed spec fn repo_deudas(&self) -> Arc<D> {
        self.repo_deudas
    }

    /// Repositorio de ajustes del servicio.
    pub closed spec fn repo_ajustes(&self) -> Arc<C> {
        self.repo_ajustes
    }

    /// Registro de eventos del servicio.
    pub closed spec fn logger(&self) -> Arc<L> {
        self.logger
    }

    /// Monto propio configurado para el representante: lo que
    /// `monto_propio_leido` da para lo que el puerto devuelva del ajuste
    /// `clave_monto_propio(id)`.
    fn monto_propio_de(&self, representante_id: usize) -> (r: Option<i64>)
        ensures
            exists|leido: Result<Option<String>, ErrorRepositorio>| #[trigger] es_monto_propio_leido(r, leido),
            r matches Some(m) ==> m > 0,
            lee_monto_propio(&*self.repo_ajustes(), representante_id, r),
    {
        let mut clave = String::from_str("mensualidad_override_");
        agregar_natural(&mut clave, representante_id as u64);
        let c = clave.as_str();
        assert(c@ == clave_monto_propio(representante_id));
        let leido = self.repo_ajustes.obtener(c);
        let ghost l = leido;
        assert(call_ensures(C::obtener, (&*self.repo_ajustes(), c), l));
        let r = monto_propio_leido(leido);
        assert(es_monto_propio_leido(r, l));
        r
    }

    /// Mensualidad de un representante con `alumnos_activos` activos: su
    /// monto propio o el monto base por alumno.
    fn mensualidad_para_representante(
        &self,
        representante_id: usize,
        monto_base: i64,
        alumnos_activos: usize,
    ) -> (r: Option<i64>)
        requires
            monto_base > 0,
            alumnos_activos > 0,
        ensures
            r matches Some(m) ==> m > 0,
            exists|propio: Option<int>|
                (propio matches Some(p) ==> p > 0) && #[trigger] mensualidad_en_i64(
                    r,
                    propio,
                    monto_base as int,
                    alumnos_activos as int,
                ),
    {
        let propio = self.monto_propio_de(representante_id);
        let r = calcular_mensualidad(propio, monto_base, alumnos_activos);
        let ghost p: Option<int> = match propio {
            Some(x) => Some(x as int),
            None => None,
        };
        assert(mensualidad_en_i64(r, p, monto_base as int, alumnos_activos as int));
        assert(monto_base * alumnos_activos > 0) by (nonlinear_arith)
            requires
                monto_base > 0,
                alumnos_activos > 0,
        ;
        r
    }

    /// Crea la deuda del periodo de cada representante activo que aún no
    /// tiene una y tiene alumnos activos, por su mensualidad
    /// (`planear_deudas_del_mes` sobre las deudas del periodo y los montos
    /// propios leídos). Devuelve cuántas creó.
    pub fn crear_deudas_del_mes(
        &self,
        periodo: &str,
        monto_base: i64,
        fecha: &str,
        representantes: &[Representante],
        alumnos: &[Alumno],
    ) -> (r: Result<usize, ErrorAplicacion>)
        ensures
            monto_base <= 0 ==> es_validacion(
                r,
                "El monto base de mensualidad debe ser mayor a cero."@,
            ),
            monto_base > 0 ==> delegado(r) || es_validacion(
                r,
                "La mensualidad calculada excede el monto máximo."@,
            ),
            r matches Ok(n) ==> exists|existentes: Seq<Deuda>, propios: Seq<Option<i64>>|
                propios.len() == representantes@.len() && n == #[trigger] plan_deudas(
                    existentes,
                    representantes@,
                    alumnos@,
                    propios,
                    monto_base as int,
                ).len(),
            r matches Ok(n) ==> n <= representantes@.len(),
            r matches Ok(n) ==> exists|existentes: Vec<Deuda>, propios: Seq<Option<i64>>, nuevas: Seq<Deuda>|
                #[trigger] guarda_el_plan_del_mes(
                    &*self.repo_deudas(),
                    &*self.repo_ajustes(),
                    periodo,
                    fecha,
                    representantes@,
                    alumnos@,
                    monto_base as int,
                    existentes,
                    propios,
                    nuevas,
                ) && n == nuevas.len(),
    {
        if monto_base <= 0 {
            return Err(
                ErrorAplicacion::Validacion(
                    String::from_str("El monto base de mensualidad debe ser mayor a cero."),
                ),
            );
        }
        let leidas = self.repo_deudas.fetch_por_periodo(periodo);
        let existentes = match leidas {
            Err(e) => return Err(ErrorAplicacion::Repositorio(e)),
            Ok(v) => v,
        };
        assert(lee_deudas_del_periodo(&*self.repo_deudas, periodo, existentes));
        let mut propios: Vec<Option<i64>> = Vec::new();
        let mut i: usize = 0;
        while i < representantes.len()
            invariant
                i <= representantes@.len(),
                propios@.len() == i,
                forall|j: int| 0 <= j < i ==> (#[trigger] propios@[j] matches Some(m) ==> m > 0),
                forall|j: int|
                    0 <= j < i && #[trigger] recibe_deuda(existentes@, representantes@[j], alumnos@)
                        ==> lee_monto_propio(&*self.repo_ajustes(), representantes@[j].id, propios@[j]),
            decreases representantes@.len() - i,
        {
            let rep = &representantes[i];
            let mut propio: Option<i64> = None;
            if rep.estado_id == 1 && !tiene_deuda(existentes.as_slice(), rep.id) {
                let activos = contar_alumnos_activos(alumnos, rep.id);
                if activos == 0 {
                    let mut mensaje = String::from_str("Rep #");
                    agregar_natural(&mut mensaje, rep.id as u64);
                    mensaje.append(" (");
                    mensaje.append(rep.nombre.as_str());
                    mensaje.append(") no tiene alumnos activos, se salta");
                    self.logger.debug(mensaje.as_str());
                } else {
                    propio = self.monto_propio_de(rep.id);
                }
            }
            let ghost antes = propios@;
            propios.push(propio);
            proof {
                assert forall|j: int|
                    0 <= j < i + 1 && #[trigger] recibe_deuda(existentes@, representantes@[j], alumnos@)
                        implies lee_monto_propio(&*self.repo_ajustes(), representantes@[j].id, propios@[j]) by {
                    if j < i {
                        assert(propios@[j] == antes[j]);
                    }
                }
            }
            i = i + 1;
        }
        let plan = match planear_deudas_del_mes(
            existentes.as_slice(),
            representantes,
            alumnos,
            propios.as_slice(),
            monto_base,
            periodo,
            fecha,
        ) {
            Err(e) => return Err(e),
            Ok(v) => v,
        };
        proof {
            el_plan_da_una_deuda_a_cada_representante_que_la_recibe(
                existentes@,
                representantes@,
                alumnos@,
                propios@,
                monto_base as int,
            );
        }
        let mut k: usize = 0;
        while k < plan.len()
            invariant
                k <= plan@.len(),
                monto_base > 0,
                forall|j: int| 0 <= j < k ==> guardo_la_deuda(&*self.repo_deudas, #[trigger] plan@[j]),
            decreases plan@.len() - k,
        {
            let d = &plan[k];
            match self.repo_deudas.save(d) {
                Err(e) => return Err(ErrorAplicacion::Repositorio(e)),
                Ok(u) => {
                    assert(guardo_la_deuda(&*self.repo_deudas, *d));
                },
            }
            k = k + 1;
        }
        let creadas = plan.len();
        if creadas > 0 {
            let mut mensaje = String::new();
            agregar_natural(&mut mensaje, creadas as u64);
            mensaje.append(" deudas creadas para el periodo ");
            mensaje.append(periodo);
            self.logger.info(mensaje.as_str());
        }
        assert(creadas == plan_deudas(
            existentes@,
            representantes@,
            alumnos@,
            propios@,
            monto_base as int,
        ).len());
        assert(guarda_el_plan_del_mes(
            &*self.repo_deudas(),
            &*self.repo_ajustes(),
            periodo,
            fecha,
            representantes@,
            alumnos@,
            monto_base as int,
            existentes,
            propios@,
            plan@,
        ));
        Ok(creadas)
    }

    /// Deudas del periodo con los datos del representante resueltos.
    pub fn listar_del_periodo(&self, periodo: &str, representantes: &[Representante]) -> (r: Result<
        Vec<DeudaVista>,
        ErrorAplicacion,
    >)
        ensures
            r is Err ==> r matches Err(ErrorAplicacion::Repositorio(_)),
            r matches Ok(v) ==> exists|d: Seq<Deuda>| #[trigger] son_vistas_de_deudas(v@, d, representantes@),
            r matches Ok(v) ==> exists|d: Vec<Deuda>|
                #[trigger] lee_deudas_del_periodo(&*self.repo_deudas(), periodo, d)
                    && son_vistas_de_deudas(v@, d@, representantes@),
    {
        let leidas = self.repo_deudas.fetch_por_periodo(periodo);
        match leidas {
            Err(e) => Err(ErrorAplicacion::Repositorio(e)),
            Ok(deudas) => {
                assert(lee_deudas_del_periodo(&*self.repo_deudas(), periodo, deudas));
                let v = armar_vistas_deudas(deudas.as_slice(), representantes);
                assert(son_vistas_de_deudas(v@, deudas@, representantes@));
                let r = Ok(v);
                assert(r matches Ok(w) && son_vistas_de_deudas(w@, deudas@, representantes@));
                r
            },
        }
    }
}

/// Un monto propio positivo prevalece; sin él, la mensualidad es el monto
/// base por cada alumno activo, y sin alumnos activos no hay mensualidad.
pub proof fn la_mensualidad_es_por_alumno_salvo_monto_propio(
    propio: Option<int>,
    monto_base: int,
    activos: int,
)
    ensures
        (propio matches Some(m) && m > 0) ==> mensualidad(propio, monto_base, activos)
            == propio->0,
        !(propio matches Some(m) && m > 0) && activos > 0 ==> mensualidad(
            propio,
            monto_base,
            activos,
        ) == monto_base * activos,
        !(propio matches Some(m) && m > 0) && activos <= 0 ==> mensualidad(
            propio,
            monto_base,
            activos,
        ) == 0,
{
}

} // verus!
