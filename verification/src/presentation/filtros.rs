//! Filtros de las tablas del panel: alumnos por estado, deudas por texto y
//! estado, historial por fechas y tipo, representantes por texto y estado.

use vstd::prelude::*;
use super::consultas::{a_minusculas, contiene, contiene_texto, es_texto, minusculas};
use super::etiquetas::{es_adelanto, es_registro_de_adelanto};
use crate::application::dto::{AlumnoVista, DeudaVista, HistorialPagoVista, PagoVista};
use crate::domain::catalogos::{EstadoDeuda, EstadoPago};
use crate::domain::representante::Representante;
use crate::domain::texto::{es_menor, menor_texto};

verus! {

/// La fila pasa el filtro de estado: "Activo" exige el estado 1, "Inactivo"
/// el 2; cualquier otro valor deja pasar todo.
pub open spec fn pasa_estado(estado_id: i32, filtro: Seq<char>) -> bool {
    if filtro == "Activo"@ {
        estado_id == 1
    } else if filtro == "Inactivo"@ {
        estado_id == 2
    } else {
        true
    }
}

fn cumple_estado(estado_id: i32, filtro: &str) -> (r: bool)
    ensures
        r == pasa_estado(estado_id, filtro@),
{
    if es_texto(filtro, "Activo") {
        estado_id == 1
    } else if es_texto(filtro, "Inactivo") {
        estado_id == 2
    } else {
        true
    }
}

/// Alumnos que pasan el filtro de estado, en su orden.
pub fn filtrar_por_estado(lista: Vec<AlumnoVista>, filtro: &str) -> (r: Vec<AlumnoVista>)
    ensures
        r@ == lista@.filter(|v: AlumnoVista| pasa_estado(v.alumno.estado_id, filtro@)),
{
    let ghost pred = |v: AlumnoVista| pasa_estado(v.alumno.estado_id, filtro@);
    let mut r: Vec<AlumnoVista> = Vec::new();
    let mut i: usize = 0;
    proof {
        reveal(Seq::filter);
        assert(lista@.take(0) =~= Seq::<AlumnoVista>::empty());
    }
    while i < lista.len()
        invariant
            i <= lista@.len(),
            pred == (|v: AlumnoVista| pasa_estado(v.alumno.estado_id, filtro@)),
            r@ == lista@.take(i as int).filter(pred),
        decreases lista@.len() - i,
    {
        proof {
            reveal(Seq::filter);
            assert(lista@.take(i + 1).drop_last() =~= lista@.take(i as int));
            assert(lista@.take(i + 1).last() == lista@[i as int]);
        }
        if cumple_estado(lista[i].alumno.estado_id, filtro) {
            r.push(lista[i].clone());
        }
        i = i + 1;
    }
    assert(lista@.take(i as int) =~= lista@);
    r
}

/// Estado de deuda que nombra el filtro, si nombra uno.
pub open spec fn estado_del_filtro(filtro: Seq<char>) -> Option<EstadoDeuda> {
    if filtro == "Pendiente"@ {
        Some(EstadoDeuda::Pendiente)
    } else if filtro == "Parcial"@ {
        Some(EstadoDeuda::Parcial)
    } else if filtro == "Pagada"@ {
        Some(EstadoDeuda::Pagada)
    } else if filtro == "Anticipada"@ {
        Some(EstadoDeuda::Anticipada)
    } else if filtro == "Anulada"@ {
        Some(EstadoDeuda::Anulada)
    } else {
        None
    }
}

fn interpretar_estado_de_deuda(filtro: &str) -> (r: Option<EstadoDeuda>)
    ensures
        r == estado_del_filtro(filtro@),
{
    if es_texto(filtro, "Pendiente") {
        Some(EstadoDeuda::Pendiente)
    } else if es_texto(filtro, "Parcial") {
        Some(EstadoDeuda::Parcial)
    } else if es_texto(filtro, "Pagada") {
        Some(EstadoDeuda::Pagada)
    } else if es_texto(filtro, "Anticipada") {
        Some(EstadoDeuda::Anticipada)
    } else if es_texto(filtro, "Anulada") {
        Some(EstadoDeuda::Anulada)
    } else {
        None
    }
}

/// La deuda pasa la búsqueda (ya en minúsculas) por nombre o teléfono del
/// representante y el filtro de estado; vacíos no filtran.
pub open spec fn pasa_filtro_deuda(v: DeudaVista, q: Seq<char>, filtro: Seq<char>) -> bool {
    &&& (q.len() == 0 || contiene(minusculas(v.nombre_representante@), q) || contiene(
        v.telefono_representante@,
        q,
    ))
    &&& (filtro.len() == 0 || match estado_del_filtro(filtro) {
        Some(e) => v.estado == e,
        None => true,
    })
}

/// Deudas que pasan la búsqueda y el filtro de estado, en su orden.
pub fn filtrar_deudas(deudas: &[DeudaVista], busqueda: &str, filtro: &str) -> (r: Vec<DeudaVista>)
    ensures
        r@ == deudas@.filter(|v: DeudaVista| pasa_filtro_deuda(v, minusculas(busqueda@), filtro@)),
{
    let q = a_minusculas(busqueda);
    let vacia = q.unicode_len() == 0;
    let sin_estado = filtro.unicode_len() == 0;
    let estado = interpretar_estado_de_deuda(filtro);
    let ghost pred = |v: DeudaVista| pasa_filtro_deuda(v, minusculas(busqueda@), filtro@);
    let mut r: Vec<DeudaVista> = Vec::new();
    let mut i: usize = 0;
    proof {
        reveal(Seq::filter);
        assert(deudas@.take(0) =~= Seq::<DeudaVista>::empty());
    }
    while i < deudas.len()
        invariant
            i <= deudas@.len(),
            q@ == minusculas(busqueda@),
            vacia == (q@.len() == 0),
            sin_estado == (filtro@.len() == 0),
            estado == estado_del_filtro(filtro@),
            pred == (|v: DeudaVista| pasa_filtro_deuda(v, minusculas(busqueda@), filtro@)),
            r@ == deudas@.take(i as int).filter(pred),
        decreases deudas@.len() - i,
    {
        proof {
            reveal(Seq::filter);
            assert(deudas@.take(i + 1).drop_last() =~= deudas@.take(i as int));
            assert(deudas@.take(i + 1).last() == deudas@[i as int]);
        }
        let v = &deudas[i];
        let por_nombre = vacia || contiene_texto(
            a_minusculas(v.nombre_representante.as_str()).as_str(),
            q.as_str(),
        ) || contiene_texto(v.telefono_representante.as_str(), q.as_str());
        let por_estado = sin_estado || match estado {
            Some(e) => v.estado == e,
            None => true,
        };
        if por_nombre && por_estado {
            r.push(v.clone());
        }
        i = i + 1;
    }
    assert(deudas@.take(i as int) =~= deudas@);
    r
}

/// El tipo de movimiento pasa el filtro: "Deuda" (creadas que no son
/// adelantos), "Pago", "Abono", "Anticipado" (adelantos), "Ajuste",
/// "Anulación"; cualquier otro valor deja pasar todo.
pub open spec fn pasa_tipo(v: HistorialPagoVista, tipo: Seq<char>) -> bool {
    let t = v.historial.tipo_id;
    if tipo == "Deuda"@ {
        t == 1 && !es_registro_de_adelanto(v)
    } else if tipo == "Pago"@ {
        t == 2
    } else if tipo == "Abono"@ {
        t == 3
    } else if tipo == "Anticipado"@ {
        es_registro_de_adelanto(v)
    } else if tipo == "Ajuste"@ {
        t == 4
    } else if tipo == "Anulación"@ {
        t == 5
    } else {
        true
    }
}

/// El registro cae entre `desde` y `hasta` (comparando las fechas
/// "YYYY-MM-DD" como texto; vacías no limitan) y pasa el filtro de tipo.
pub open spec fn pasa_filtro_historial(
    v: HistorialPagoVista,
    desde: Seq<char>,
    hasta: Seq<char>,
    tipo: Seq<char>,
) -> bool {
    let f = v.historial.fecha@;
    &&& (desde.len() == 0 || !menor_texto(f, desde))
    &&& (hasta.len() == 0 || !menor_texto(hasta, f))
    &&& pasa_tipo(v, tipo)
}

fn cumple_tipo(v: &HistorialPagoVista, tipo: &str) -> (r: bool)
    ensures
        r == pasa_tipo(*v, tipo@),
{
    let t = v.historial.tipo_id;
    if es_texto(tipo, "Deuda") {
        t == 1 && !es_adelanto(v)
    } else if es_texto(tipo, "Pago") {
        t == 2
    } else if es_texto(tipo, "Abono") {
        t == 3
    } else if es_texto(tipo, "Anticipado") {
        es_adelanto(v)
    } else if es_texto(tipo, "Ajuste") {
        t == 4
    } else if es_texto(tipo, "Anulación") {
        t == 5
    } else {
        true
    }
}

/// Registros del historial entre las fechas y del tipo elegidos, en su orden.
pub fn filtrar_historial(
    historial: &[HistorialPagoVista],
    desde: &str,
    hasta: &str,
    tipo: &str,
) -> (r: Vec<HistorialPagoVista>)
    ensures
        r@ == historial@.filter(
            |v: HistorialPagoVista| pasa_filtro_historial(v, desde@, hasta@, tipo@),
        ),
{
    let ghost pred = |v: HistorialPagoVista| pasa_filtro_historial(v, desde@, hasta@, tipo@);
    let sin_desde = desde.unicode_len() == 0;
    let sin_hasta = hasta.unicode_len() == 0;
    let mut r: Vec<HistorialPagoVista> = Vec::new();
    let mut i: usize = 0;
    proof {
        reveal(Seq::filter);
        assert(historial@.take(0) =~= Seq::<HistorialPagoVista>::empty());
    }
    while i < historial.len()
        invariant
            i <= historial@.len(),
            sin_desde == (desde@.len() == 0),
            sin_hasta == (hasta@.len() == 0),
            pred == (|v: HistorialPagoVista| pasa_filtro_historial(v, desde@, hasta@, tipo@)),
            r@ == historial@.take(i as int).filter(pred),
        decreases historial@.len() - i,
    {
        proof {
            reveal(Seq::filter);
            assert(historial@.take(i + 1).drop_last() =~= historial@.take(i as int));
            assert(historial@.take(i + 1).last() == historial@[i as int]);
        }
        let v = &historial[i];
        let fecha = v.historial.fecha.as_str();
        let pasa = (sin_desde || !es_menor(fecha, desde)) && (sin_hasta || !es_menor(hasta, fecha))
            && cumple_tipo(v, tipo);
        if pasa {
            r.push(v.clone());
        }
        i = i + 1;
    }
    assert(historial@.take(i as int) =~= historial@);
    r
}

/// Suma de los montos del historial y cuántos registros hay de pagos (tipo
/// 2), deudas creadas (tipo 1) y anulaciones (tipo 5).
pub open spec fn resumen(v: Seq<HistorialPagoVista>) -> (int, int, int, int)
    decreases v.len(),
{
    if v.len() == 0 {
        (0, 0, 0, 0)
    } else {
        let r = resumen(v.drop_last());
        let t = v.last().historial.tipo_id;
        (
            r.0 + v.last().historial.monto,
            r.1 + if t == 2 {
                1int
            } else {
                0
            },
            r.2 + if t == 1 {
                1int
            } else {
                0
            },
            r.3 + if t == 5 {
                1int
            } else {
                0
            },
        )
    }
}

/// Total de montos y cantidades de pagos, deudas y anulaciones del historial
/// mostrado.
pub fn resumen_historial(v: &[HistorialPagoVista]) -> (r: (i128, usize, usize, usize))
    ensures
        r.0 == resumen(v@).0,
        r.1 == resumen(v@).1,
        r.2 == resumen(v@).2,
        r.3 == resumen(v@).3,
{
    let mut total: i128 = 0;
    let mut pagos: usize = 0;
    let mut deudas: usize = 0;
    let mut anulaciones: usize = 0;
    let mut i: usize = 0;
    while i < v.len()
        invariant
            i <= v@.len(),
            total == resumen(v@.take(i as int)).0,
            pagos == resumen(v@.take(i as int)).1,
            deudas == resumen(v@.take(i as int)).2,
            anulaciones == resumen(v@.take(i as int)).3,
            -(i as int) * 0x8000_0000_0000_0000 <= total <= (i as int) * 0x8000_0000_0000_0000,
            pagos <= i,
            deudas <= i,
            anulaciones <= i,
        decreases v@.len() - i,
    {
        assert(v@.take(i + 1).drop_last() =~= v@.take(i as int));
        let h = &v[i].historial;
        total = total + h.monto as i128;
        if h.tipo_id == 2 {
            pagos = pagos + 1;
        }
        if h.tipo_id == 1 {
            deudas = deudas + 1;
        }
        if h.tipo_id == 5 {
            anulaciones = anulaciones + 1;
        }
        i = i + 1;
    }
    assert(v@.take(i as int) =~= v@);
    (total, pagos, deudas, anulaciones)
}

/// El representante pasa la búsqueda (ya en minúsculas) por nombre o
/// teléfono y el filtro de estado.
pub open spec fn pasa_filtro_representante(r: Representante, q: Seq<char>, filtro: Seq<char>) -> bool {
    &&& (q.len() == 0 || contiene(minusculas(r.nombre@), q) || contiene(r.numero_contacto@, q))
    &&& pasa_estado(r.estado_id, filtro)
}

/// Representantes que pasan la búsqueda y el filtro de estado, en su orden.
pub fn filtrar_representantes(
    representantes: &[Representante],
    busqueda: &str,
    filtro: &str,
) -> (r: Vec<Representante>)
    ensures
        r@ == representantes@.filter(
            |x: Representante| pasa_filtro_representante(x, minusculas(busqueda@), filtro@),
        ),
{
    let q = a_minusculas(busqueda);
    let vacia = q.unicode_len() == 0;
    let ghost pred = |x: Representante| pasa_filtro_representante(x, minusculas(busqueda@), filtro@);
    let mut r: Vec<Representante> = Vec::new();
    let mut i: usize = 0;
    proof {
        reveal(Seq::filter);
        assert(representantes@.take(0) =~= Seq::<Representante>::empty());
    }
    while i < representantes.len()
        invariant
            i <= representantes@.len(),
            q@ == minusculas(busqueda@),
            vacia == (q@.len() == 0),
            pred == (|x: Representante| pasa_filtro_representante(x, minusculas(busqueda@), filtro@)),
            r@ == representantes@.take(i as int).filter(pred),
        decreases representantes@.len() - i,
    {
        proof {
            reveal(Seq::filter);
            assert(representantes@.take(i + 1).drop_last() =~= representantes@.take(i as int));
            assert(representantes@.take(i + 1).last() == representantes@[i as int]);
        }
        let x = &representantes[i];
        let por_nombre = vacia || contiene_texto(a_minusculas(x.nombre.as_str()).as_str(), q.as_str())
            || contiene_texto(x.numero_contacto.as_str(), q.as_str());
        if por_nombre && cumple_estado(x.estado_id, filtro) {
            r.push(x.clone());
        }
        i = i + 1;
    }
    assert(representantes@.take(i as int) =~= representantes@);
    r
}

/// `k` es la última posición de `pagos` con un pago del representante.
pub open spec fn ultimo_pago_en(pagos: Seq<PagoVista>, representante_id: usize, k: int) -> bool {
    &&& 0 <= k < pagos.len()
    &&& pagos[k].pago.representante_id == representante_id
    &&& forall|j: int| k < j < pagos.len() ==> pagos[j].pago.representante_id != representante_id
}

/// Posición del último pago del representante en la lista, si tiene.
pub fn ultimo_pago_de(pagos: &[PagoVista], representante_id: usize) -> (r: Option<usize>)
    ensures
        match r {
            Some(k) => ultimo_pago_en(pagos@, representante_id, k as int),
            None => forall|j: int|
                0 <= j < pagos@.len() ==> pagos@[j].pago.representante_id != representante_id,
        },
{
    let mut i: usize = pagos.len();
    while i > 0
        invariant
            i <= pagos@.len(),
            forall|j: int| i <= j < pagos@.len() ==> pagos@[j].pago.representante_id != representante_id,
        decreases i,
    {
        if pagos[i - 1].pago.representante_id == representante_id {
            return Some(i - 1);
        }
        i = i - 1;
    }
    None
}

/// `k` es la última posición de `pagos` con un pago completado del
/// representante.
pub open spec fn ultimo_pago_completado_en(pagos: Seq<PagoVista>, representante_id: usize, k: int) -> bool {
    &&& 0 <= k < pagos.len()
    &&& pagos[k].pago.representante_id == representante_id
    &&& pagos[k].estado == EstadoPago::Completado
    &&& forall|j: int|
        k < j < pagos.len() ==> !(pagos[j].pago.representante_id == representante_id && pagos[j].estado
            == EstadoPago::Completado)
}

/// Posición del último pago completado del representante en la lista, si
/// tiene: el pago que el panel ofrece reversar.
pub fn ultimo_pago_completado_de(pagos: &[PagoVista], representante_id: usize) -> (r: Option<usize>)
    ensures
        match r {
            Some(k) => ultimo_pago_completado_en(pagos@, representante_id, k as int),
            None => forall|j: int|
                0 <= j < pagos@.len() ==> !(pagos@[j].pago.representante_id == representante_id
                    && pagos@[j].estado == EstadoPago::Completado),
        },
{
    let mut i: usize = pagos.len();
    while i > 0
        invariant
            i <= pagos@.len(),
            forall|j: int|
                i <= j < pagos@.len() ==> !(pagos@[j].pago.representante_id == representante_id
                    && pagos@[j].estado == EstadoPago::Completado),
        decreases i,
    {
        let completado = match pagos[i - 1].estado {
            EstadoPago::Completado => true,
            _ => false,
        };
        if pagos[i - 1].pago.representante_id == representante_id && completado {
            return Some(i - 1);
        }
        i = i - 1;
    }
    None
}

} // verus!
