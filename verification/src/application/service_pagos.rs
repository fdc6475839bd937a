//! Casos de uso de pagos mensuales: registro con reparto FIFO y adelantos,
//! listados del periodo, morosos y reversión.

use vstd::prelude::*;
use std::collections::HashSet;
use std::sync::Arc;
use super::dto::{AplicacionPagoVista, DatosPago, PagoVista};
use super::error::{ErrorAplicacion, es_validacion};
use super::motor_fifo::{
    Adelanto, AplicacionFifo, estado_de_adelanto, adelantos_desde, aplicar_a_deudas, deuda_de_adelanto, fifo, planificar_adelantos,
    restaurar_saldo, saldo_restaurado, el_reparto_conserva_el_monto, los_adelantos_conservan_el_sobrante,
    solo_la_ultima_deuda_puede_quedar_parcial, suma_aplicada, suma_plan,
    vista_adelantos, textos, mes_siguiente, MESES_DE_ADELANTO,
};
use super::ports::{
    AplicacionPagoRepository, ConfiguracionAppRepository, DeudaRepository, ErrorRepositorio,
    HistorialPagoRepository, Logger, PagoRepository,
};
use super::service::delegado;
use super::service_deudas::guardo_la_deuda;
use super::validation::{error_de_pago, validar_datos_pago};
use crate::domain::aplicacion_pago::AplicacionPago;
use crate::domain::catalogos::{EstadoDeuda, EstadoPago, MetodoPago, TipoHistorial};
use crate::domain::deuda::{
    Deuda, primera_deuda_con_id, buscar_deuda_de_representante, buscar_deuda_por_id, deuda_con_id, suma_pendiente,
    total_pendiente,
};
use crate::domain::fecha::{Fecha, hoy, hoy_en_texto};
use crate::domain::historial_pago::HistorialPago;
use crate::domain::monto::{lema_monto_no_negativo, monto_de_texto, monto_desde_texto, texto_de_monto};
use crate::domain::pago::{Pago, estado_de_pago, metodo_de_pago};
use crate::domain::representante::{Representante, buscar_por_id, representante_con_id};
use crate::domain::texto::{
    agregar_entero, agregar_natural, decimal_nat, es_menor, lema_menor_asimetrico,
    lema_menor_total, lema_menor_transitivo, menor_texto,
};

verus! {

/// Resultado de aplicar un pago: (deuda, monto aplicado en centavos) de
/// cada aplicación, en el orden en que se hicieron.
pub type ResultadoFifo = Vec<(usize, i64)>;

/// Mensaje cuando hace falta la mensualidad y no está configurada.
pub const MENSAJE_SIN_MENSUALIDAD: &'static str =
    "Configure el monto de mensualidad en Ajustes primero.";

/// Clave del ajuste con la mensualidad.
pub const CLAVE_MENSUALIDAD: &'static str = "monto_mensualidad";

/// Mensualidad que expresa el texto guardado: un monto positivo.
pub open spec fn mensualidad_de_texto(texto: Seq<char>) -> Option<int> {
    match monto_de_texto(texto) {
        Some(m) => if m > 0 {
            Some(m)
        } else {
            None
        },
        None => None,
    }
}

/// Interpreta el texto guardado de la mensualidad.
pub fn interpretar_mensualidad(texto: &str) -> (r: Option<i64>)
    ensures
        r == (match mensualidad_de_texto(texto@) {
            Some(m) => Some(m as i64),
            None => None,
        }),
        r matches Some(m) ==> m > 0,
{
    proof {
        lema_monto_no_negativo(texto@);
    }
    match monto_desde_texto(texto) {
        Some(m) => if m > 0 {
            Some(m)
        } else {
            None
        },
        None => None,
    }
}

/// La mensualidad leída del ajuste: el error del puerto; la mensualidad si
/// el texto guardado es un monto positivo; si no, el aviso de configurarla.
pub open spec fn es_mensualidad_leida(
    r: Result<i64, ErrorAplicacion>,
    ajuste: Result<Option<String>, ErrorRepositorio>,
) -> bool {
    match ajuste {
        Err(e) => r == Err::<i64, ErrorAplicacion>(ErrorAplicacion::Repositorio(e)),
        Ok(Some(t)) => match mensualidad_de_texto(t@) {
            Some(m) => r == Ok::<i64, ErrorAplicacion>(m as i64),
            None => es_validacion(r, MENSAJE_SIN_MENSUALIDAD@),
        },
        Ok(None) => es_validacion(r, MENSAJE_SIN_MENSUALIDAD@),
    }
}

/// Interpreta lo que el puerto de ajustes devolvió para la mensualidad.
pub fn mensualidad_de_ajuste(ajuste: Result<Option<String>, ErrorRepositorio>) -> (r: Result<
    i64,
    ErrorAplicacion,
>)
    ensures
        es_mensualidad_leida(r, ajuste),
        r matches Ok(m) ==> m > 0,
{
    match ajuste {
        Err(e) => Err(ErrorAplicacion::Repositorio(e)),
        Ok(Some(texto)) => match interpretar_mensualidad(texto.as_str()) {
            Some(m) => Ok(m),
            None => Err(ErrorAplicacion::Validacion(String::from_str(MENSAJE_SIN_MENSUALIDAD))),
        },
        Ok(None) => Err(ErrorAplicacion::Validacion(String::from_str(MENSAJE_SIN_MENSUALIDAD))),
    }
}

/// Un pago exige la mensualidad configurada cuando supera lo pendiente de
/// las deudas cobrables: puede sobrar dinero para adelantos.
pub fn exige_mensualidad(monto: i64, cobrables: &[Deuda]) -> (r: bool)
    ensures
        r == (monto > suma_pendiente(cobrables@)),
{
    monto as i128 > total_pendiente(cobrables)
}

/// `p` es el pago que se guarda al registrar `datos`: completado y sin
/// identificador asignado.
pub open spec fn es_pago_nuevo(p: Pago, datos: DatosPago) -> bool {
    &&& p.id == 0
    &&& p.representante_id == datos.representante_id
    &&& p.monto_recibido == datos.monto_recibido
    &&& p.estado_id == EstadoPago::Completado.id_de()
    &&& p.metodo_id == datos.metodo_id
    &&& p.fecha_pago@ == datos.fecha_pago@
}

/// Pago que se guarda al registrar `datos`.
pub fn pago_nuevo(datos: &DatosPago) -> (r: Pago)
    ensures
        es_pago_nuevo(r, *datos),
{
    Pago {
        id: 0,
        representante_id: datos.representante_id,
        monto_recibido: datos.monto_recibido,
        estado_id: EstadoPago::Completado.id(),
        metodo_id: datos.metodo_id,
        fecha_pago: datos.fecha_pago.clone(),
    }
}

/// `a` es la aplicación de `monto` del pago a la deuda, con la fecha del
/// pago y sin identificador asignado.
pub open spec fn es_aplicacion_nueva(
    a: AplicacionPago,
    pago_id: usize,
    deuda_id: usize,
    monto: i64,
    fecha: Seq<char>,
) -> bool {
    &&& a.id == 0
    &&& a.pago_id == pago_id
    &&& a.deuda_id == deuda_id
    &&& a.monto_aplicado == monto
    &&& a.fecha@ == fecha
}

/// Aplicación de `monto` del pago a la deuda.
pub fn aplicacion_nueva(pago_id: usize, deuda_id: usize, monto: i64, fecha: &str) -> (r: AplicacionPago)
    ensures
        es_aplicacion_nueva(r, pago_id, deuda_id, monto, fecha@),
{
    AplicacionPago { id: 0, pago_id, deuda_id, monto_aplicado: monto, fecha: String::from_str(fecha) }
}

/// `h` es el registro de historial con esos datos, sin identificador
/// asignado.
pub open spec fn es_registro_nuevo(
    h: HistorialPago,
    representante_id: usize,
    tipo: TipoHistorial,
    monto: i64,
    periodo: Seq<char>,
    fecha: Seq<char>,
    observacion: Seq<char>,
) -> bool {
    &&& h.id == 0
    &&& h.representante_id == representante_id
    &&& h.tipo_id == tipo.id_de()
    &&& h.monto == monto
    &&& h.periodo@ == periodo
    &&& h.fecha@ == fecha
    &&& h.observacion@ == observacion
}

/// Registro de historial con esos datos.
pub fn registro_de_historial(
    representante_id: usize,
    tipo: TipoHistorial,
    monto: i64,
    periodo: String,
    fecha: &str,
    observacion: String,
) -> (r: HistorialPago)
    ensures
        es_registro_nuevo(r, representante_id, tipo, monto, periodo@, fecha@, observacion@),
{
    HistorialPago {
        id: 0,
        representante_id,
        tipo_id: tipo.id(),
        monto,
        periodo,
        fecha: String::from_str(fecha),
        observacion,
    }
}

/// Lo leído para adelantar lo que sobra de un pago: el ajuste de la
/// mensualidad, la fecha de hoy y los periodos con deuda del representante.
pub struct LecturaAdelantos {
    pub ajuste: Result<Option<String>, ErrorRepositorio>,
    pub hoy: Fecha,
    pub periodos_existentes: Vec<String>,
}

/// Plan de un pago: el reparto entre las deudas cobrables y los adelantos
/// de lo que sobra.
pub struct PlanDePago {
    pub aplicaciones: Vec<AplicacionFifo>,
    pub adelantos: Vec<Adelanto>,
}

/// Mensualidad que expresa el ajuste leído, si es un monto positivo.
pub open spec fn mensualidad_del_ajuste(ajuste: Result<Option<String>, ErrorRepositorio>) -> Option<int> {
    match ajuste {
        Ok(Some(t)) => mensualidad_de_texto(t@),
        _ => None,
    }
}

/// `r` es el plan del pago de `monto` sobre lo leído: el reparto FIFO entre
/// las deudas cobrables y, si sobra dinero, los adelantos por la
/// mensualidad leída a partir del mes siguiente a hoy; si entonces la
/// mensualidad no se puede leer, el error del puerto o el aviso de
/// configurarla.
pub open spec fn es_plan_de_pago(
    r: Result<PlanDePago, ErrorAplicacion>,
    monto: int,
    cobrables: Seq<Deuda>,
    lectura: Option<LecturaAdelantos>,
) -> bool {
    let reparto = fifo(monto, cobrables);
    if reparto.1 <= 0 {
        r matches Ok(p) && p.aplicaciones@ == reparto.0 && p.adelantos@.len() == 0
    } else {
        let l = lectura->0;
        match l.ajuste {
            Err(e) => r == Err::<PlanDePago, ErrorAplicacion>(ErrorAplicacion::Repositorio(e)),
            _ => match mensualidad_del_ajuste(l.ajuste) {
                Some(m) => r matches Ok(p) && p.aplicaciones@ == reparto.0 && vista_adelantos(
                    p.adelantos@,
                ) == adelantos_desde(l.hoy, reparto.1, m, textos(l.periodos_existentes@)).0
                    && forall|k: int|
                    0 <= k < p.adelantos@.len() ==> #[trigger] p.adelantos@[k].monto_deuda == m,
                None => es_validacion(r, MENSAJE_SIN_MENSUALIDAD@),
            },
        }
    }
}

/// Planea un pago sobre lo leído: reparte el monto entre las deudas
/// cobrables (de la más antigua a la más nueva) y, si sobra, lo adelanta a
/// los meses siguientes por la mensualidad leída. Lo leído para adelantar
/// sólo se consulta si sobra dinero.
pub fn planear_pago(monto: i64, cobrables: &[Deuda], lectura: Option<LecturaAdelantos>) -> (r: Result<
    PlanDePago,
    ErrorAplicacion,
>)
    requires
        fifo(monto as int, cobrables@).1 > 0 ==> lectura is Some,
        lectura matches Some(l) ==> l.hoy.valida(),
    ensures
        es_plan_de_pago(r, monto as int, cobrables@, lectura),
{
    let (aplicaciones, restante) = aplicar_a_deudas(monto, cobrables);
    if restante <= 0 {
        return Ok(PlanDePago { aplicaciones, adelantos: Vec::new() });
    }
    let l = match lectura {
        Some(l) => l,
        None => {
            assert(false);
            return Ok(PlanDePago { aplicaciones, adelantos: Vec::new() });
        },
    };
    let ghost ajuste = l.ajuste;
    let hoy = l.hoy;
    let periodos = l.periodos_existentes;
    let mensualidad = match mensualidad_de_ajuste(l.ajuste) {
        Err(e) => return Err(e),
        Ok(m) => m,
    };
    let (adelantos, _sobrante) = planificar_adelantos(hoy, restante, mensualidad, periodos.as_slice());
    assert(mensualidad_del_ajuste(ajuste) == Some(mensualidad as int));
    Ok(PlanDePago { aplicaciones, adelantos })
}

/// Registrar un pago de `monto` con esas deudas cobrables pide la
/// mensualidad: supera lo pendiente, o el reparto deja un sobrante.
pub open spec fn pide_mensualidad(monto: int, cobrables: Seq<Deuda>) -> bool {
    monto > suma_pendiente(cobrables) || fifo(monto, cobrables).1 > 0
}

/// `cobrables` es una respuesta que el repositorio puede dar al pedirle las
/// deudas cobrables del representante.
pub open spec fn lee_cobrables<D: DeudaRepository + ?Sized>(
    repo: &D,
    representante_id: usize,
    cobrables: Vec<Deuda>,
) -> bool {
    call_ensures(
        D::fetch_cobrables_por_representante,
        (repo, representante_id),
        Ok::<Vec<Deuda>, ErrorRepositorio>(cobrables),
    )
}

/// `aplicaciones` es una respuesta que el repositorio puede dar al pedirle
/// las aplicaciones del pago.
pub open spec fn lee_aplicaciones_del_pago<A: AplicacionPagoRepository + ?Sized>(
    repo: &A,
    pago_id: usize,
    aplicaciones: Vec<AplicacionPago>,
) -> bool {
    call_ensures(A::fetch_por_pago, (repo, pago_id), Ok::<Vec<AplicacionPago>, ErrorRepositorio>(aplicaciones))
}

/// `deudas` es una respuesta que el repositorio puede dar al pedirle todas
/// las deudas.
pub open spec fn lee_todas_las_deudas<D: DeudaRepository + ?Sized>(repo: &D, deudas: Vec<Deuda>) -> bool {
    call_ensures(D::fetch_all, (repo,), Ok::<Vec<Deuda>, ErrorRepositorio>(deudas))
}

/// El repositorio aceptó dejar la deuda con ese saldo y estado.
pub open spec fn actualizo_la_deuda<D: DeudaRepository + ?Sized>(
    repo: &D,
    deuda_id: usize,
    saldo: i64,
    estado: i32,
) -> bool {
    call_ensures(D::update_estado, (repo, deuda_id, saldo, estado), Ok::<(), ErrorRepositorio>(()))
}

/// Se reversó la aplicación: sobre unas deudas que el repositorio devolvió,
/// la deuda afectada quedó con el saldo y el estado de `restauracion`.
pub open spec fn restauro_la_aplicacion<D: DeudaRepository + ?Sized>(repo: &D, aplicacion: AplicacionPago) -> bool {
    exists|deudas: Vec<Deuda>|
        #[trigger] lee_todas_las_deudas(repo, deudas) && match restauracion(aplicacion, deudas@) {
            Some((id, saldo, estado)) => actualizo_la_deuda(repo, id, saldo as i64, estado),
            None => true,
        }
}

/// `pagos` es una respuesta que el repositorio puede dar al pedirle los
/// pagos del periodo.
pub open spec fn lee_pagos_del_periodo<P: PagoRepository + ?Sized>(repo: &P, periodo: &str, pagos: Vec<Pago>) -> bool {
    call_ensures(P::fetch_por_periodo, (repo, periodo), Ok::<Vec<Pago>, ErrorRepositorio>(pagos))
}

/// Los morosos son exactamente los representantes sin un pago completado:
/// cada moroso es uno de los representantes y no tiene ningún pago con
/// estado Completado a su nombre; todo representante sin tal pago es moroso;
/// y uno que tiene un pago completado nunca lo es.
pub proof fn los_morosos_son_los_que_no_pagaron(reps: Seq<Representante>, pagos: Seq<Pago>)
    ensures
        forall|k: int|
            0 <= k < morosos(reps, pagos).len() ==> reps.contains(#[trigger] morosos(reps, pagos)[k])
                && forall|j: int|
                0 <= j < pagos.len() ==> !(pagos[j].estado_id == EstadoPago::Completado.id_de()
                    && pagos[j].representante_id == morosos(reps, pagos)[k].id),
        forall|i: int|
            0 <= i < reps.len() && (forall|j: int|
                0 <= j < pagos.len() ==> !(pagos[j].estado_id == EstadoPago::Completado.id_de()
                    && pagos[j].representante_id == reps[i].id)) ==> morosos(reps, pagos).contains(
                #[trigger] reps[i],
            ),
        forall|i: int, j: int|
            0 <= i < reps.len() && 0 <= j < pagos.len() && pagos[j].estado_id
                == EstadoPago::Completado.id_de() && #[trigger] pagos[j].representante_id
                == #[trigger] reps[i].id ==> !morosos(reps, pagos).contains(reps[i]),
{
    let pred = |r: Representante| !pago_completado_de(pagos, r.id);
    let m = morosos(reps, pagos);
    assert(m == reps.filter(pred));
    assert forall|k: int| 0 <= k < m.len() implies reps.contains(#[trigger] m[k]) && forall|j: int|
        0 <= j < pagos.len() ==> !(pagos[j].estado_id == EstadoPago::Completado.id_de()
            && pagos[j].representante_id == m[k].id) by {
        reps.lemma_filter_pred(pred, k);
        assert(m.contains(m[k]));
        reps.lemma_filter_contains_rev(pred, m[k]);
        assert forall|j: int| 0 <= j < pagos.len() implies !(pagos[j].estado_id
            == EstadoPago::Completado.id_de() && pagos[j].representante_id == m[k].id) by {
            if pagos[j].estado_id == EstadoPago::Completado.id_de() && pagos[j].representante_id == m[k].id {
                assert(pago_completado_de(pagos, m[k].id));
            }
        }
    }
    assert forall|i: int|
        0 <= i < reps.len() && (forall|j: int|
            0 <= j < pagos.len() ==> !(pagos[j].estado_id == EstadoPago::Completado.id_de()
                && pagos[j].representante_id == reps[i].id)) implies m.contains(#[trigger] reps[i]) by {
        assert(!pago_completado_de(pagos, reps[i].id));
        reps.lemma_filter_contains(pred, i);
    }
    assert forall|i: int, j: int|
        0 <= i < reps.len() && 0 <= j < pagos.len() && pagos[j].estado_id
            == EstadoPago::Completado.id_de() && #[trigger] pagos[j].representante_id
            == #[trigger] reps[i].id implies !m.contains(reps[i]) by {
        if m.contains(reps[i]) {
            let k = choose|k: int| 0 <= k < m.len() && m[k] == reps[i];
            reps.lemma_filter_pred(pred, k);
            assert(pago_completado_de(pagos, reps[i].id));
        }
    }
}

/// El repositorio aceptó guardar la aplicación de `monto` del pago a la
/// deuda, con esa fecha.
pub open spec fn guardo_la_aplicacion<A: AplicacionPagoRepository + ?Sized>(
    repo: &A,
    pago_id: usize,
    deuda_id: usize,
    monto: i64,
    fecha: Seq<char>,
) -> bool {
    exists|a: AplicacionPago|
        es_aplicacion_nueva(a, pago_id, deuda_id, monto, fecha) && #[trigger] call_ensures(
            A::save,
            (repo, &a),
            Ok::<(), ErrorRepositorio>(()),
        )
}

/// Una aplicación del reparto quedó escrita: la deuda con su nuevo saldo y
/// estado, y el registro de la aplicación del pago.
pub open spec fn aplico_la_aplicacion<D: DeudaRepository + ?Sized, A: AplicacionPagoRepository + ?Sized>(
    deudas: &D,
    aplicaciones: &A,
    pago_id: usize,
    fecha: Seq<char>,
    ap: AplicacionFifo,
) -> bool {
    &&& actualizo_la_deuda(deudas, ap.deuda_id, ap.nuevo_pendiente, ap.nuevo_estado)
    &&& guardo_la_aplicacion(aplicaciones, pago_id, ap.deuda_id, ap.monto, fecha)
}

/// Todas las aplicaciones del reparto quedaron escritas.
pub open spec fn aplico_el_reparto<D: DeudaRepository + ?Sized, A: AplicacionPagoRepository + ?Sized>(
    deudas: &D,
    aplicaciones: &A,
    pago_id: usize,
    fecha: Seq<char>,
    aps: Seq<AplicacionFifo>,
) -> bool {
    forall|k: int| 0 <= k < aps.len() ==> aplico_la_aplicacion(deudas, aplicaciones, pago_id, fecha, #[trigger] aps[k])
}

/// Registrar el pago escribió lo que corresponde: el repositorio aceptó el
/// pago nuevo de `datos` (con identificador `pago_id`), se repartió sobre
/// las deudas cobrables que devolvió, cada aplicación del reparto quedó
/// escrita y, si sobró dinero, se guardaron las deudas de los adelantos.
pub open spec fn registro_el_pago<
    P: PagoRepository + ?Sized,
    D: DeudaRepository + ?Sized,
    A: AplicacionPagoRepository + ?Sized,
    C: ConfiguracionAppRepository + ?Sized,
>(
    pagos: &P,
    deudas: &D,
    aplicaciones: &A,
    ajustes: &C,
    datos: DatosPago,
    pago_id: usize,
    cobrables: Vec<Deuda>,
) -> bool {
    &&& exists|p: Pago|
        es_pago_nuevo(p, datos) && #[trigger] call_ensures(
            P::save,
            (pagos, &p),
            Ok::<usize, ErrorRepositorio>(pago_id),
        )
    &&& lee_cobrables(deudas, datos.representante_id, cobrables)
    &&& aplico_el_reparto(
        deudas,
        aplicaciones,
        pago_id,
        datos.fecha_pago@,
        fifo(datos.monto_recibido as int, cobrables@).0,
    )
    &&& fifo(datos.monto_recibido as int, cobrables@).1 > 0 ==> exists|l: LecturaAdelantos|
        #[trigger] guardo_los_adelantos_de_lo_leido(
            ajustes,
            deudas,
            datos.representante_id,
            fifo(datos.monto_recibido as int, cobrables@).1,
            l,
        )
}

/// `ajuste` es una respuesta que el repositorio de ajustes puede dar al
/// pedirle la mensualidad.
pub open spec fn lee_ajuste_de_mensualidad<C: ConfiguracionAppRepository + ?Sized>(
    repo: &C,
    ajuste: Result<Option<String>, ErrorRepositorio>,
) -> bool {
    call_ensures(C::obtener, (repo, CLAVE_MENSUALIDAD), ajuste)
}

/// El ajuste leído no trae una mensualidad: no está configurada o su texto
/// no es un monto positivo (no es un error del puerto).
pub open spec fn falta_la_mensualidad(ajuste: Result<Option<String>, ErrorRepositorio>) -> bool {
    ajuste is Ok && mensualidad_del_ajuste(ajuste) is None
}

/// `periodos` es una respuesta que el repositorio puede dar al pedirle los
/// periodos con deuda del representante.
pub open spec fn lee_periodos_con_deuda<D: DeudaRepository + ?Sized>(
    repo: &D,
    representante_id: usize,
    periodos: Vec<String>,
) -> bool {
    call_ensures(
        D::fetch_todos_periodos_por_representante,
        (repo, representante_id),
        Ok::<Vec<String>, ErrorRepositorio>(periodos),
    )
}

/// `d` es la deuda de un adelanto del representante: del periodo, por la
/// mensualidad, con lo aplicado ya descontado.
pub open spec fn es_deuda_de_adelanto(
    d: Deuda,
    representante_id: usize,
    periodo: Seq<char>,
    mensualidad: int,
    aplicado: int,
) -> bool {
    &&& d.id == 0
    &&& d.representante_id == representante_id
    &&& d.monto_total == mensualidad
    &&& d.monto_pendiente == mensualidad - aplicado
    &&& d.periodo@ == periodo
    &&& d.estado_id == estado_de_adelanto(mensualidad - aplicado)
    &&& d.alumno_id is None
}

/// El repositorio aceptó guardar la deuda del adelanto (periodo, aplicado).
pub open spec fn guardo_el_adelanto<D: DeudaRepository + ?Sized>(
    repo: &D,
    representante_id: usize,
    adelanto: (Seq<char>, int),
    mensualidad: int,
) -> bool {
    exists|d: Deuda|
        es_deuda_de_adelanto(d, representante_id, adelanto.0, mensualidad, adelanto.1)
            && #[trigger] guardo_la_deuda(repo, d)
}

/// Sobre lo leído para adelantar (el ajuste de la mensualidad y los
/// periodos con deuda que devolvieron los repositorios, y una fecha de hoy
/// válida), se guardó la deuda de cada adelanto del sobrante.
pub open spec fn guardo_los_adelantos_de_lo_leido<C: ConfiguracionAppRepository + ?Sized, D: DeudaRepository + ?Sized>(
    ajustes: &C,
    deudas: &D,
    representante_id: usize,
    sobrante: int,
    l: LecturaAdelantos,
) -> bool {
    &&& lee_ajuste_de_mensualidad(ajustes, l.ajuste)
    &&& l.hoy.valida()
    &&& mensualidad_del_ajuste(l.ajuste) matches Some(m) && {
        &&& lee_periodos_con_deuda(deudas, representante_id, l.periodos_existentes)
        &&& forall|k: int|
            0 <= k < adelantos_desde(l.hoy, sobrante, m, textos(l.periodos_existentes@)).0.len()
                ==> guardo_el_adelanto(
                deudas,
                representante_id,
                #[trigger] adelantos_desde(l.hoy, sobrante, m, textos(l.periodos_existentes@)).0[k],
                m,
            )
    }
}

/// El resultado de registrar un pago de `monto` corresponde a las deudas
/// cobrables leídas: si hubo éxito, empieza por su reparto; si faltó la
/// mensualidad, es porque el pago la pedía.
pub open spec fn resultado_sobre_lo_cobrable(
    r: Result<Vec<(usize, i64)>, ErrorAplicacion>,
    monto: int,
    cobrables: Seq<Deuda>,
) -> bool {
    &&& r matches Ok(v) ==> empieza_por_el_reparto(v@, monto, cobrables)
    &&& es_validacion(r, MENSAJE_SIN_MENSUALIDAD@) ==> pide_mensualidad(monto, cobrables)
}

/// Lo que reversar una aplicación escribe sobre las deudas leídas: la
/// primera deuda con su identificador recibe de vuelta el monto aplicado
/// (`saldo_restaurado`): su identificador, el saldo nuevo y el estado nuevo.
/// Nada si no hay tal deuda o si la suma no cabe en `i64`.
pub open spec fn restauracion(aplicacion: AplicacionPago, deudas: Seq<Deuda>) -> Option<(usize, int, i32)> {
    match deuda_con_id(deudas, aplicacion.deuda_id) {
        Some(d) => if d.monto_pendiente + aplicacion.monto_aplicado >= i64::MIN {
            let (nuevo, estado) = saldo_restaurado(
                d.monto_pendiente as int,
                aplicacion.monto_aplicado as int,
                d.monto_total as int,
            );
            Some((d.id, nuevo, estado))
        } else {
            None
        },
        None => None,
    }
}

/// Reversar una aplicación devuelve a su deuda lo que se le aplicó: si la
/// primera deuda con su identificador tiene saldo `p` y recibió `m > 0` sin
/// pasar del total, queda con saldo `p + m`, Pendiente si vuelve a estar
/// entera y Parcial si no; y si ninguna deuda tiene ese identificador, no se
/// escribe nada.
pub proof fn reversar_devuelve_lo_aplicado(aplicacion: AplicacionPago, deudas: Seq<Deuda>, j: int)
    requires
        0 <= j < deudas.len(),
    ensures
        deudas[j].id == aplicacion.deuda_id && (forall|i: int|
            0 <= i < j ==> #[trigger] deudas[i].id != aplicacion.deuda_id) && aplicacion.monto_aplicado > 0
            && deudas[j].monto_pendiente >= 0 && deudas[j].monto_pendiente + aplicacion.monto_aplicado
            <= deudas[j].monto_total ==> restauracion(aplicacion, deudas) == Some(
            (
                aplicacion.deuda_id,
                deudas[j].monto_pendiente + aplicacion.monto_aplicado,
                if deudas[j].monto_pendiente + aplicacion.monto_aplicado == deudas[j].monto_total {
                    EstadoDeuda::Pendiente.id_de()
                } else {
                    EstadoDeuda::Parcial.id_de()
                },
            ),
        ),
        (forall|i: int| 0 <= i < deudas.len() ==> #[trigger] deudas[i].id != aplicacion.deuda_id)
            ==> restauracion(aplicacion, deudas) is None,
{
    if deudas[j].id == aplicacion.deuda_id && (forall|i: int|
        0 <= i < j ==> #[trigger] deudas[i].id != aplicacion.deuda_id) {
        assert(primera_deuda_con_id(deudas, aplicacion.deuda_id, j));
        let k = choose|k: int| primera_deuda_con_id(deudas, aplicacion.deuda_id, k);
        if k < j {
            assert(deudas[k].id != aplicacion.deuda_id);
        } else if k > j {
            assert(deudas[j].id != aplicacion.deuda_id);
        }
    }
    if forall|i: int| 0 <= i < deudas.len() ==> #[trigger] deudas[i].id != aplicacion.deuda_id {
        if exists|k: int| primera_deuda_con_id(deudas, aplicacion.deuda_id, k) {
            let k = choose|k: int| primera_deuda_con_id(deudas, aplicacion.deuda_id, k);
            assert(deudas[k].id != aplicacion.deuda_id);
        }
    }
}

/// Calcula lo que reversar una aplicación escribe sobre las deudas leídas.
pub fn restauracion_de_aplicacion(aplicacion: &AplicacionPago, deudas: &[Deuda]) -> (r: Option<
    (usize, i64, i32),
>)
    ensures
        match restauracion(*aplicacion, deudas@) {
            Some((id, nuevo, estado)) => r == Some((id, nuevo as i64, estado)),
            None => r is None,
        },
{
    match buscar_deuda_por_id(deudas, aplicacion.deuda_id) {
        Some(k) => {
            let deuda = &deudas[k];
            if deuda.monto_pendiente as i128 + aplicacion.monto_aplicado as i128 >= i64::MIN as i128 {
                let (nuevo, estado) = restaurar_saldo(
                    deuda.monto_pendiente,
                    aplicacion.monto_aplicado,
                    deuda.monto_total,
                );
                Some((deuda.id, nuevo, estado))
            } else {
                None
            }
        },
        None => None,
    }
}

/// `v` empieza por el reparto FIFO de `monto` entre `cobrables`: una
/// entrada (deuda, monto aplicado) por aplicación, en el mismo orden.
pub open spec fn empieza_por_el_reparto(v: Seq<(usize, i64)>, monto: int, cobrables: Seq<Deuda>) -> bool {
    let aps = fifo(monto, cobrables).0;
    &&& aps.len() <= v.len()
    &&& forall|k: int| 0 <= k < aps.len() ==> #[trigger] v[k] == (aps[k].deuda_id, aps[k].monto)
}

/// Suma de los montos de un resultado.
pub open spec fn suma_resultado(r: Seq<(usize, i64)>) -> int
    decreases r.len(),
{
    if r.len() == 0 {
        0
    } else {
        suma_resultado(r.drop_last()) + r.last().1
    }
}

/// Nombre con el que se muestra el representante de un pago: el del primer
/// representante con su identificador, o "ID {id}".
pub open spec fn nombre_de_pagador(reps: Seq<Representante>, id: usize) -> Seq<char> {
    match representante_con_id(reps, id) {
        Some(r) => r.nombre@,
        None => "ID "@ + decimal_nat(id as nat),
    }
}

/// Periodo de la primera deuda con el identificador, o vacío.
pub open spec fn periodo_de_deuda(deudas: Seq<Deuda>, id: usize) -> Seq<char> {
    match deuda_con_id(deudas, id) {
        Some(d) => d.periodo@,
        None => Seq::<char>::empty(),
    }
}

/// `v` es la vista del pago con sus aplicaciones, en el orden dado, con el
/// nombre del representante y el periodo de cada deuda resueltos.
pub open spec fn es_vista_de_pago(
    v: PagoVista,
    pago: Pago,
    reps: Seq<Representante>,
    aplicaciones: Seq<AplicacionPago>,
    deudas: Seq<Deuda>,
) -> bool {
    &&& v.pago == pago
    &&& v.nombre_representante@ == nombre_de_pagador(reps, pago.representante_id)
    &&& v.metodo == metodo_de_pago(pago.metodo_id)
    &&& v.estado == estado_de_pago(pago.estado_id)
    &&& v.aplicaciones@.len() == aplicaciones.len()
    &&& forall|k: int|
        0 <= k < aplicaciones.len() ==> {
            &&& (#[trigger] v.aplicaciones@[k]).aplicacion == aplicaciones[k]
            &&& v.aplicaciones@[k].nombre_representante@ == nombre_de_pagador(
                reps,
                pago.representante_id,
            )
            &&& v.aplicaciones@[k].periodo_deuda@ == periodo_de_deuda(
                deudas,
                aplicaciones[k].deuda_id,
            )
        }
}

/// Vista de un pago con sus aplicaciones y datos resueltos.
pub fn vista_de_pago(
    pago: &Pago,
    representantes: &[Representante],
    aplicaciones: &[AplicacionPago],
    deudas: &[Deuda],
) -> (r: PagoVista)
    ensures
        es_vista_de_pago(r, *pago, representantes@, aplicaciones@, deudas@),
{
    let nombre = match buscar_por_id(representantes, pago.representante_id) {
        Some(k) => representantes[k].nombre.clone(),
        None => {
            let mut n = String::from_str("ID ");
            agregar_natural(&mut n, pago.representante_id as u64);
            proof {
                reveal_strlit("ID ");
            }
            n
        },
    };
    let mut vistas: Vec<AplicacionPagoVista> = Vec::new();
    let mut i: usize = 0;
    while i < aplicaciones.len()
        invariant
            i <= aplicaciones@.len(),
            vistas@.len() == i,
            nombre@ == nombre_de_pagador(representantes@, pago.representante_id),
            forall|k: int|
                0 <= k < i ==> {
                    &&& (#[trigger] vistas@[k]).aplicacion == aplicaciones@[k]
                    &&& vistas@[k].nombre_representante@ == nombre_de_pagador(
                        representantes@,
                        pago.representante_id,
                    )
                    &&& vistas@[k].periodo_deuda@ == periodo_de_deuda(
                        deudas@,
                        aplicaciones@[k].deuda_id,
                    )
                },
        decreases aplicaciones@.len() - i,
    {
        let ap = &aplicaciones[i];
        let periodo = match buscar_deuda_por_id(deudas, ap.deuda_id) {
            Some(k) => deudas[k].periodo.clone(),
            None => String::new(),
        };
        vistas.push(
            AplicacionPagoVista {
                aplicacion: ap.clone(),
                nombre_representante: nombre.clone(),
                periodo_deuda: periodo,
            },
        );
        i = i + 1;
    }
    PagoVista {
        pago: pago.clone(),
        nombre_representante: nombre,
        metodo: pago.metodo(),
        estado: pago.estado(),
        aplicaciones: vistas,
    }
}

/// `v` es la vista de algún pago, con el nombre del representante resuelto
/// sobre `reps`.
pub open spec fn es_vista_de_algun_pago(v: PagoVista, reps: Seq<Representante>) -> bool {
    exists|pago: Pago, aplicaciones: Seq<AplicacionPago>, deudas: Seq<Deuda>|
        es_vista_de_pago(v, pago, reps, aplicaciones, deudas)
}

/// Pago de cada vista, en su orden.
pub open spec fn pagos_de_vistas(v: Seq<PagoVista>) -> Seq<Pago> {
    v.map_values(|x: PagoVista| x.pago)
}

/// Las vistas son las de `pagos`: cada pago aparece en exactamente una
/// vista, en cualquier orden.
pub open spec fn son_vistas_de_los_pagos(v: Seq<PagoVista>, pagos: Seq<Pago>) -> bool {
    pagos_de_vistas(v).to_multiset() == pagos.to_multiset()
}

/// `idx[k]` es la posición en `pagos` del pago de la vista `k`: cada vista
/// viene de un pago distinto y, entre vistas de la misma fecha, se conserva
/// el orden en que llegaron los pagos.
pub open spec fn orden_de_llegada(v: Seq<PagoVista>, pagos: Seq<Pago>, idx: Seq<int>) -> bool {
    &&& idx.len() == v.len()
    &&& forall|k: int|
        0 <= k < v.len() ==> 0 <= #[trigger] idx[k] < pagos.len() && v[k].pago == pagos[idx[k]]
    &&& forall|a: int, b: int| 0 <= a < b < v.len() ==> #[trigger] idx[a] != #[trigger] idx[b]
    &&& forall|a: int, b: int|
        0 <= a < b < v.len() && (#[trigger] v[a]).pago.fecha_pago@ == (#[trigger] v[b]).pago.fecha_pago@
            ==> idx[a] < idx[b]
}

/// Las vistas son las de `pagos`, cada pago exactamente una vez, y entre
/// fechas iguales en el orden en que llegaron.
pub open spec fn lista_los_pagos(v: Seq<PagoVista>, pagos: Seq<Pago>) -> bool {
    &&& son_vistas_de_los_pagos(v, pagos)
    &&& exists|idx: Seq<int>| #[trigger] orden_de_llegada(v, pagos, idx)
}

/// `v` es el listado de los pagos leídos de un periodo: una vista por pago
/// (cada pago exactamente una vez), de la fecha más reciente a la más
/// antigua, y entre fechas iguales en el orden en que se leyeron.
pub open spec fn es_listado_de_pagos(v: Seq<PagoVista>, reps: Seq<Representante>) -> bool {
    &&& ordenadas_por_fecha_desc(v)
    &&& forall|k: int| 0 <= k < v.len() ==> es_vista_de_algun_pago(#[trigger] v[k], reps)
    &&& exists|pagos: Seq<Pago>, idx: Seq<int>|
        son_vistas_de_los_pagos(v, pagos) && #[trigger] orden_de_llegada(v, pagos, idx)
}

/// Vistas ordenadas de la fecha de pago más reciente a la más antigua.
pub open spec fn ordenadas_por_fecha_desc(v: Seq<PagoVista>) -> bool {
    forall|i: int, j: int|
        0 <= i < j < v.len() ==> !menor_texto(
            (#[trigger] v[i]).pago.fecha_pago@,
            (#[trigger] v[j]).pago.fecha_pago@,
        )
}

/// `p` es donde va `v` en `vs`: detrás de todas las vistas cuya fecha no es
/// anterior a la suya y delante de las de fecha anterior.
pub open spec fn posicion_por_fecha(vs: Seq<PagoVista>, v: PagoVista, p: int) -> bool {
    &&& 0 <= p <= vs.len()
    &&& forall|i: int|
        0 <= i < p ==> !menor_texto((#[trigger] vs[i]).pago.fecha_pago@, v.pago.fecha_pago@)
    &&& forall|i: int|
        p <= i < vs.len() ==> menor_texto((#[trigger] vs[i]).pago.fecha_pago@, v.pago.fecha_pago@)
}

/// Inserta una vista manteniendo el orden por fecha descendente, después de
/// las que tienen su misma fecha (el orden de llegada se conserva entre
/// fechas iguales).
pub fn insertar_por_fecha(vistas: &mut Vec<PagoVista>, v: PagoVista)
    requires
        ordenadas_por_fecha_desc(old(vistas)@),
    ensures
        ordenadas_por_fecha_desc(final(vistas)@),
        exists|p: int|
            posicion_por_fecha(old(vistas)@, v, p) && final(vistas)@ == old(vistas)@.insert(p, v),
        final(vistas)@.to_multiset() == old(vistas)@.to_multiset().insert(v),
{
    let mut p: usize = 0;
    while p < vistas.len()
        invariant
            p <= vistas@.len(),
            forall|i: int|
                0 <= i < p ==> !menor_texto(
                    (#[trigger] vistas@[i]).pago.fecha_pago@,
                    v.pago.fecha_pago@,
                ),
        ensures
            p <= vistas@.len(),
            forall|i: int|
                0 <= i < p ==> !menor_texto(
                    (#[trigger] vistas@[i]).pago.fecha_pago@,
                    v.pago.fecha_pago@,
                ),
            p < vistas@.len() ==> menor_texto(vistas@[p as int].pago.fecha_pago@, v.pago.fecha_pago@),
        decreases vistas@.len() - p,
    {
        if es_menor(vistas[p].pago.fecha_pago.as_str(), v.pago.fecha_pago.as_str()) {
            break;
        }
        p = p + 1;
    }
    let ghost antes = vistas@;
    let ghost fecha = v.pago.fecha_pago@;
    proof {
        assert forall|i: int| p <= i < antes.len() implies menor_texto(
            (#[trigger] antes[i]).pago.fecha_pago@,
            fecha,
        ) by {
            let fp = antes[p as int].pago.fecha_pago@;
            let fi = antes[i].pago.fecha_pago@;
            assert(menor_texto(fp, fecha));
            if i > p {
                lema_menor_total(fi, fp);
                if menor_texto(fi, fp) {
                    lema_menor_transitivo(fi, fp, fecha);
                } else if fi != fp {
                    assert(!menor_texto(antes[p as int].pago.fecha_pago@, antes[i].pago.fecha_pago@));
                }
            }
        }
        assert forall|i: int| p <= i < antes.len() implies !menor_texto(
            fecha,
            (#[trigger] antes[i]).pago.fecha_pago@,
        ) by {
            lema_menor_asimetrico(antes[i].pago.fecha_pago@, fecha);
        }
        assert(posicion_por_fecha(antes, v, p as int));
    }
    vistas.insert(p, v);
    proof {
        let nuevo = vistas@;
        assert(nuevo == antes.insert(p as int, v));
        assert(nuevo =~= antes.take(p as int) + seq![v] + antes.skip(p as int));
        assert forall|i: int, j: int| 0 <= i < j < nuevo.len() implies !menor_texto(
            (#[trigger] nuevo[i]).pago.fecha_pago@,
            (#[trigger] nuevo[j]).pago.fecha_pago@,
        ) by {
            if j < p {
                assert(nuevo[i] == antes[i] && nuevo[j] == antes[j]);
            } else if j == p {
                assert(nuevo[i] == antes[i]);
            } else if i == p {
                assert(nuevo[j] == antes[j - 1]);
            } else if i < p {
                assert(nuevo[i] == antes[i] && nuevo[j] == antes[j - 1]);
            } else {
                assert(nuevo[i] == antes[i - 1] && nuevo[j] == antes[j - 1]);
            }
        }
        vstd::seq_lib::lemma_multiset_commutative(antes.take(p as int), seq![v]);
        vstd::seq_lib::lemma_multiset_commutative(antes.take(p as int) + seq![v], antes.skip(p as int));
        vstd::seq_lib::lemma_multiset_commutative(antes.take(p as int), antes.skip(p as int));
        assert(antes =~= antes.take(p as int) + antes.skip(p as int));
        assert(seq![v].to_multiset() =~= vstd::multiset::Multiset::empty().insert(v)) by {
            broadcast use vstd::seq_lib::group_to_multiset_ensures;
            assert(seq![v] =~= Seq::<PagoVista>::empty().push(v));
        }
    }
}


/// ¿Hay en `pagos` un pago completado del representante?
pub open spec fn pago_completado_de(pagos: Seq<Pago>, representante_id: usize) -> bool {
    exists|k: int|
        0 <= k < pagos.len() && (#[trigger] pagos[k]).estado_id == EstadoPago::Completado.id_de()
            && pagos[k].representante_id == representante_id
}

/// Representantes sin un pago completado entre `pagos`, en su orden.
pub open spec fn morosos(reps: Seq<Representante>, pagos: Seq<Pago>) -> Seq<Representante> {
    reps.filter(|r: Representante| !pago_completado_de(pagos, r.id))
}

/// ¿Tiene el representante un pago completado en la lista?
pub fn tiene_pago_completado(pagos: &[Pago], representante_id: usize) -> (r: bool)
    ensures
        r == pago_completado_de(pagos@, representante_id),
{
    let completado = EstadoPago::Completado.id();
    let mut k: usize = 0;
    while k < pagos.len()
        invariant
            k <= pagos@.len(),
            completado == EstadoPago::Completado.id_de(),
            forall|j: int|
                0 <= j < k ==> !((#[trigger] pagos@[j]).estado_id == completado
                    && pagos@[j].representante_id == representante_id),
        decreases pagos@.len() - k,
    {
        if pagos[k].estado_id == completado && pagos[k].representante_id == representante_id {
            assert(pagos@[k as int].estado_id == completado);
            return true;
        }
        k = k + 1;
    }
    false
}

/// Representantes que no tienen un pago completado entre `pagos`.
pub fn filtrar_morosos(pagos: &[Pago], representantes: &[Representante]) -> (r: Vec<
    Representante,
>)
    ensures
        r@ == morosos(representantes@, pagos@),
{
    let ghost pred = |r: Representante| !pago_completado_de(pagos@, r.id);
    let mut r: Vec<Representante> = Vec::new();
    let mut i: usize = 0;
    proof {
        reveal(Seq::filter);
        assert(representantes@.take(0) =~= Seq::<Representante>::empty());
    }
    while i < representantes.len()
        invariant
            i <= representantes@.len(),
            pred == (|r: Representante| !pago_completado_de(pagos@, r.id)),
            r@ == representantes@.take(i as int).filter(pred),
        decreases representantes@.len() - i,
    {
        let rep = &representantes[i];
        proof {
            reveal(Seq::filter);
            assert(representantes@.take(i + 1).drop_last() =~= representantes@.take(i as int));
            assert(representantes@.take(i + 1).last() == representantes@[i as int]);
        }
        if !tiene_pago_completado(pagos, rep.id) {
            r.push(rep.clone());
        }
        i = i + 1;
    }
    assert(representantes@.take(i as int) =~= representantes@);
    r
}

/// Suma de lo recibido en los pagos completados de las vistas.
pub open spec fn total_completados(vistas: Seq<PagoVista>) -> int
    decreases vistas.len(),
{
    if vistas.len() == 0 {
        0
    } else {
        total_completados(vistas.drop_last()) + if vistas.last().estado == EstadoPago::Completado {
            vistas.last().pago.monto_recibido as int
        } else {
            0
        }
    }
}

/// Total recibido en los pagos completados de las vistas.
pub fn sumar_completados(vistas: &[PagoVista]) -> (r: i128)
    ensures
        r == total_completados(vistas@),
{
    let mut total: i128 = 0;
    let mut i: usize = 0;
    while i < vistas.len()
        invariant
            i <= vistas@.len(),
            total == total_completados(vistas@.take(i as int)),
            -(i as int) * 0x8000_0000_0000_0000 <= total <= (i as int) * 0x8000_0000_0000_0000,
        decreases vistas@.len() - i,
    {
        assert(vistas@.take(i + 1).drop_last() =~= vistas@.take(i as int));
        if vistas[i].estado == EstadoPago::Completado {
            total = total + vistas[i].pago.monto_recibido as i128;
        }
        i = i + 1;
    }
    assert(vistas@.take(i as int) =~= vistas@);
    total
}


proof fn lema_suma_resultado_no_negativa(v: Seq<(usize, i64)>)
    requires
        forall|k: int| 0 <= k < v.len() ==> (#[trigger] v[k]).1 > 0,
    ensures
        suma_resultado(v) >= 0,
    decreases v.len(),
{
    if v.len() > 0 {
        let w = v.drop_last();
        assert forall|k: int| 0 <= k < w.len() implies (#[trigger] w[k]).1 > 0 by {
            assert(w[k] == v[k]);
        }
        lema_suma_resultado_no_negativa(w);
        assert(v[v.len() - 1].1 > 0);
    }
}

/// Suma de los montos de un resultado.
fn sumar_resultado(v: &ResultadoFifo) -> (r: i128)
    ensures
        r == suma_resultado(v@),
{
    let mut total: i128 = 0;
    let mut i: usize = 0;
    while i < v.len()
        invariant
            i <= v@.len(),
            total == suma_resultado(v@.take(i as int)),
            -(i as int) * 0x8000_0000_0000_0000 <= total <= (i as int) * 0x8000_0000_0000_0000,
        decreases v@.len() - i,
    {
        assert(v@.take(i + 1).drop_last() =~= v@.take(i as int));
        total = total + v[i].1 as i128;
        i = i + 1;
    }
    assert(v@.take(i as int) =~= v@);
    total
}

/// Desenlace de registrar un pago válido: éxito, un error del puerto o la
/// falta de mensualidad configurada cuando sobra dinero.
pub open spec fn desenlace_de_pago<T>(r: Result<T, ErrorAplicacion>) -> bool {
    ||| r is Ok
    ||| r matches Err(ErrorAplicacion::Repositorio(_))
    ||| es_validacion(r, MENSAJE_SIN_MENSUALIDAD@)
}

/// Cada aplicación del resultado es positiva y entre todas no superan el
/// monto recibido.
pub open spec fn reparte_a_lo_sumo(v: Seq<(usize, i64)>, monto: int) -> bool {
    &&& forall|k: int| 0 <= k < v.len() ==> (#[trigger] v[k]).1 > 0
    &&& suma_resultado(v) <= monto
}

/// Casos de uso de pagos con motor FIFO.
pub struct ServicioPagos<
    P: PagoRepository + ?Sized,
    A: AplicacionPagoRepository + ?Sized,
    D: DeudaRepository + ?Sized,
    H: HistorialPagoRepository + ?Sized,
    C: ConfiguracionAppRepository + ?Sized,
    L: Logger + ?Sized,
> {
    repo_pagos: Arc<P>,
    repo_aplicaciones: Arc<A>,
    repo_deudas: Arc<D>,
    repo_historial: Arc<H>,
    repo_ajustes: Arc<C>,
    logger: Arc<L>,
}

impl<
    P: PagoRepository + ?Sized,
    A: AplicacionPagoRepository + ?Sized,
    D: DeudaRepository + ?Sized,
    H: HistorialPagoRepository + ?Sized,
    C: ConfiguracionAppRepository + ?Sized,
    L: Logger + ?Sized,
> ServicioPagos<P, A, D, H, C, L> {
    pub fn nuevo(
        repo_pagos: Arc<P>,
        repo_aplicaciones: Arc<A>,
        repo_deudas: Arc<D>,
        repo_historial: Arc<H>,
        repo_ajustes: Arc<C>,
        logger: Arc<L>,
    ) -> (r: Self)
        ensures
            r.repo_pagos() == repo_pagos,
            r.repo_aplicaciones() == repo_aplicaciones,
            r.repo_deudas() == repo_deudas,
            r.repo_historial() == repo_historial,
            r.repo_ajustes() == repo_ajustes,
            r.logger() == logger,
    {
        ServicioPagos {
            repo_pagos,
            repo_aplicaciones,
            repo_deudas,
            repo_historial,
            repo_ajustes,
            logger,
        }
    }

    /// Repositorio de pagos del servicio.
    pub closed spec fn repo_pagos(&self) -> Arc<P> {
        self.repo_pagos
    }

    /// Repositorio de aplicaciones de pago del servicio.
    pub closed spec fn repo_aplicaciones(&self) -> Arc<A> {
        self.repo_aplicaciones
    }

    /// Repositorio de deudas del servicio.
    pub closed spec fn repo_deudas(&self) -> Arc<D> {
        self.repo_deudas
    }

    /// Repositorio del historial del servicio.
    pub closed spec fn repo_historial(&self) -> Arc<H> {
        self.repo_historial
    }

    /// Repositorio de ajustes del servicio.
    pub closed spec fn repo_ajustes(&self) -> Arc<C> {
        self.repo_ajustes
    }

    /// Registro de eventos del servicio.
    pub closed spec fn logger(&self) -> Arc<L> {
        self.logger
    }

    /// Mensualidad configurada en ajustes: lo que `mensualidad_de_ajuste` da
    /// para lo que el puerto devuelva.
    fn obtener_mensualidad(&self) -> (r: Result<i64, ErrorAplicacion>)
        ensures
            exists|ajuste: Result<Option<String>, ErrorRepositorio>| #[trigger] es_mensualidad_leida(r, ajuste),
            exists|ajuste: Result<Option<String>, ErrorRepositorio>|
                #[trigger] lee_ajuste_de_mensualidad(&*self.repo_ajustes(), ajuste) && es_mensualidad_leida(r, ajuste),
            desenlace_de_pago(r),
            r matches Ok(m) ==> m > 0,
    {
        let ajuste = self.repo_ajustes.obtener(CLAVE_MENSUALIDAD);
        let ghost leido = ajuste;
        assert(lee_ajuste_de_mensualidad(&*self.repo_ajustes(), leido));
        let r = mensualidad_de_ajuste(ajuste);
        assert(es_mensualidad_leida(r, leido));
        r
    }

    /// Guarda un registro de historial, sin importar si el puerto falla.
    fn registrar_historial(
        &self,
        representante_id: usize,
        tipo: TipoHistorial,
        monto: i64,
        periodo: String,
        fecha: &str,
        observacion: String,
    ) {
        let registro = registro_de_historial(representante_id, tipo, monto, periodo, fecha, observacion);
        let _ = self.repo_historial.save(&registro);
    }

    /// Lee lo necesario para adelantar lo que sobra de un pago: el ajuste de
    /// la mensualidad, la fecha de hoy y, si la mensualidad es válida, los
    /// periodos con deuda del representante.
    fn leer_para_adelantos(&self, representante_id: usize) -> (r: Result<LecturaAdelantos, ErrorAplicacion>)
        ensures
            r matches Ok(l) ==> l.hoy.valida(),
            r matches Ok(l) ==> lee_ajuste_de_mensualidad(&*self.repo_ajustes(), l.ajuste),
            r matches Ok(l) ==> (mensualidad_del_ajuste(l.ajuste) is Some ==> lee_periodos_con_deuda(
                &*self.repo_deudas(),
                representante_id,
                l.periodos_existentes,
            )),
            r is Err ==> r matches Err(ErrorAplicacion::Repositorio(_)),
    {
        let ajuste = self.repo_ajustes.obtener(CLAVE_MENSUALIDAD);
        let ghost leido = ajuste;
        assert(lee_ajuste_de_mensualidad(&*self.repo_ajustes(), leido));
        let usable = match &ajuste {
            Ok(Some(texto)) => interpretar_mensualidad(texto.as_str()).is_some(),
            _ => false,
        };
        let periodos_existentes = if usable {
            match self.repo_deudas.fetch_todos_periodos_por_representante(representante_id) {
                Err(e) => return Err(ErrorAplicacion::Repositorio(e)),
                Ok(v) => {
                    assert(lee_periodos_con_deuda(&*self.repo_deudas(), representante_id, v));
                    v
                },
            }
        } else {
            Vec::new()
        };
        assert(mensualidad_del_ajuste(leido) is Some ==> usable);
        Ok(LecturaAdelantos { ajuste, hoy: hoy(), periodos_existentes })
    }

    /// Reparte un monto positivo entre las deudas cobrables del
    /// representante (de la más antigua a la más nueva) y, si sobra, lee la
    /// mensualidad y adelanta lo que sobra a los meses siguientes al actual
    /// (`planear_pago` sobre lo leído). Devuelve cada aplicación: primero
    /// las del reparto, luego las de los adelantos.
    fn aplicar_fifo(
        &self,
        pago_id: usize,
        representante_id: usize,
        cobrables: &[Deuda],
        monto_total: i64,
        fecha_pago: &str,
    ) -> (r: Result<ResultadoFifo, ErrorAplicacion>)
        requires
            monto_total > 0,
        ensures
            desenlace_de_pago(r),
            r matches Ok(v) ==> reparte_a_lo_sumo(v@, monto_total as int),
            r matches Ok(v) ==> empieza_por_el_reparto(v@, monto_total as int, cobrables@),
            es_validacion(r, MENSAJE_SIN_MENSUALIDAD@) ==> fifo(monto_total as int, cobrables@).1 > 0,
            r is Ok ==> aplico_el_reparto(
                &*self.repo_deudas(),
                &*self.repo_aplicaciones(),
                pago_id,
                fecha_pago@,
                fifo(monto_total as int, cobrables@).0,
            ),
            es_validacion(r, MENSAJE_SIN_MENSUALIDAD@) ==> exists|ajuste: Result<Option<String>, ErrorRepositorio>|
                #[trigger] lee_ajuste_de_mensualidad(&*self.repo_ajustes(), ajuste) && falta_la_mensualidad(ajuste),
            r is Ok && fifo(monto_total as int, cobrables@).1 > 0 ==> exists|
                ajuste: Result<Option<String>, ErrorRepositorio>,
            |
                #[trigger] lee_ajuste_de_mensualidad(&*self.repo_ajustes(), ajuste)
                    && mensualidad_del_ajuste(ajuste) is Some,
            r is Ok && fifo(monto_total as int, cobrables@).1 > 0 ==> exists|l: LecturaAdelantos|
                #[trigger] guardo_los_adelantos_de_lo_leido(
                    &*self.repo_ajustes(),
                    &*self.repo_deudas(),
                    representante_id,
                    fifo(monto_total as int, cobrables@).1,
                    l,
                ),
    {
        let (aplicaciones, restante) = aplicar_a_deudas(monto_total, cobrables);
        let ghost reparto = fifo(monto_total as int, cobrables@);
        proof {
            el_reparto_conserva_el_monto(monto_total as int, cobrables@);
            solo_la_ultima_deuda_puede_quedar_parcial(monto_total as int, cobrables@);
            crate::application::motor_fifo::se_aplica_el_menor_entre_monto_y_saldo(
                monto_total as int,
                cobrables@,
            );
        }
        let ghost aps = aplicaciones@;
        assert(aps == reparto.0);
        let mut resultado: ResultadoFifo = Vec::new();
        let mut i: usize = 0;
        proof {
            assert(aps.skip(0) =~= aps);
        }
        while i < aplicaciones.len()
            invariant
                i <= aps.len(),
                aps == aplicaciones@,
                forall|k: int| 0 <= k < aps.len() ==> (#[trigger] aps[k]).monto > 0 && aps[k].nuevo_pendiente >= 0,
                resultado@.len() == i,
                forall|k: int| 0 <= k < i ==> #[trigger] resultado@[k] == (aps[k].deuda_id, aps[k].monto),
                forall|k: int| 0 <= k < resultado@.len() ==> (#[trigger] resultado@[k]).1 > 0,
                suma_resultado(resultado@) + suma_aplicada(aps.skip(i as int)) == suma_aplicada(aps),
                forall|k: int|
                    0 <= k < i ==> aplico_la_aplicacion(
                        &*self.repo_deudas(),
                        &*self.repo_aplicaciones(),
                        pago_id,
                        fecha_pago@,
                        #[trigger] aps[k],
                    ),
            decreases aps.len() - i,
        {
            let ap = aplicaciones[i];
            match self.repo_deudas.update_estado(ap.deuda_id, ap.nuevo_pendiente, ap.nuevo_estado) {
                Err(e) => return Err(ErrorAplicacion::Repositorio(e)),
                Ok(u) => {
                    assert(actualizo_la_deuda(&*self.repo_deudas(), ap.deuda_id, ap.nuevo_pendiente, ap.nuevo_estado));
                },
            }
            let registro = aplicacion_nueva(pago_id, ap.deuda_id, ap.monto, fecha_pago);
            match self.repo_aplicaciones.save(&registro) {
                Err(e) => return Err(ErrorAplicacion::Repositorio(e)),
                Ok(u) => {
                    assert(call_ensures(A::save, (&*self.repo_aplicaciones(), &registro), Ok::<(), ErrorRepositorio>(())));
                    assert(guardo_la_aplicacion(&*self.repo_aplicaciones(), pago_id, ap.deuda_id, ap.monto, fecha_pago@));
                },
            }
            assert(aplico_la_aplicacion(&*self.repo_deudas(), &*self.repo_aplicaciones(), pago_id, fecha_pago@, aps[i as int]));
            let ghost antes = resultado@;
            resultado.push((ap.deuda_id, ap.monto));
            proof {
                assert(resultado@.drop_last() =~= antes);
                assert(aps.skip(i as int).drop_first() =~= aps.skip(i + 1));
            }
            let periodo = match buscar_deuda_por_id(cobrables, ap.deuda_id) {
                Some(k) => cobrables[k].periodo.clone(),
                None => String::new(),
            };
            let mut mensaje = String::from_str("  → ");
            mensaje.append(texto_de_monto(ap.monto).as_str());
            mensaje.append(" aplicados a deuda #");
            agregar_natural(&mut mensaje, ap.deuda_id as u64);
            mensaje.append(" (");
            mensaje.append(periodo.as_str());
            mensaje.append(") — saldo restante: ");
            mensaje.append(texto_de_monto(ap.nuevo_pendiente).as_str());
            self.logger.debug(mensaje.as_str());
            let mut observacion = String::from_str("Pago #");
            agregar_natural(&mut observacion, pago_id as u64);
            observacion.append(" → deuda #");
            agregar_natural(&mut observacion, ap.deuda_id as u64);
            self.registrar_historial(
                representante_id,
                TipoHistorial::AbonoAplicado,
                ap.monto,
                periodo,
                fecha_pago,
                observacion,
            );
            i = i + 1;
        }
        proof {
            assert(aps.skip(i as int) =~= Seq::<AplicacionFifo>::empty());
        }
        if restante > 0 {
            let lectura = match self.leer_para_adelantos(representante_id) {
                Err(e) => return Err(e),
                Ok(l) => l,
            };
            let ghost l = lectura;
            assert(lee_ajuste_de_mensualidad(&*self.repo_ajustes(), l.ajuste));
            let plan = match planear_pago(monto_total, cobrables, Some(lectura)) {
                Err(e) => {
                    assert(es_validacion(Err::<ResultadoFifo, ErrorAplicacion>(e), MENSAJE_SIN_MENSUALIDAD@)
                        ==> falta_la_mensualidad(l.ajuste));
                    return Err(e);
                },
                Ok(p) => p,
            };
            assert(mensualidad_del_ajuste(l.ajuste) is Some);
            let adelantos = plan.adelantos;
            let ghost mensualidad = mensualidad_del_ajuste(l.ajuste)->0;
            let ghost vista = vista_adelantos(adelantos@);
            proof {
                let inicio = mes_siguiente(l.hoy.anio as int, l.hoy.mes as int);
                los_adelantos_conservan_el_sobrante(
                    inicio.0,
                    inicio.1,
                    restante as int,
                    mensualidad,
                    textos(l.periodos_existentes@),
                    MESES_DE_ADELANTO as nat,
                );
                assert(vista.skip(0) =~= vista);
            }
            let ghost base = suma_resultado(resultado@);
            let ghost n1 = resultado@.len();
            let mut j: usize = 0;
            while j < adelantos.len()
                invariant
                    j <= adelantos@.len(),
                    vista == vista_adelantos(adelantos@),
                    forall|k: int|
                        0 <= k < vista.len() ==> 0 < (#[trigger] vista[k]).1 <= mensualidad,
                    forall|k: int| 0 <= k < adelantos@.len() ==> #[trigger] adelantos@[k].monto_deuda == mensualidad,
                    forall|k: int| 0 <= k < resultado@.len() ==> (#[trigger] resultado@[k]).1 > 0,
                    n1 == aps.len(),
                    n1 <= resultado@.len(),
                    forall|k: int| 0 <= k < n1 ==> #[trigger] resultado@[k] == (aps[k].deuda_id, aps[k].monto),
                    suma_resultado(resultado@) + suma_plan(vista.skip(j as int)) <= base + suma_plan(vista),
                    aplico_el_reparto(
                        &*self.repo_deudas(),
                        &*self.repo_aplicaciones(),
                        pago_id,
                        fecha_pago@,
                        aps,
                    ),
                    forall|k: int|
                        0 <= k < j ==> guardo_el_adelanto(
                            &*self.repo_deudas(),
                            representante_id,
                            #[trigger] vista[k],
                            mensualidad,
                        ),
                decreases adelantos@.len() - j,
            {
                let adelanto = &adelantos[j];
                assert(vista[j as int].1 == adelanto.aplicado);
                let nueva = deuda_de_adelanto(representante_id, adelanto);
                match self.repo_deudas.save(&nueva) {
                    Err(e) => return Err(ErrorAplicacion::Repositorio(e)),
                    Ok(u) => {
                        assert(guardo_la_deuda(&*self.repo_deudas(), nueva));
                        assert(es_deuda_de_adelanto(
                            nueva,
                            representante_id,
                            vista[j as int].0,
                            mensualidad,
                            vista[j as int].1,
                        ));
                        assert(guardo_el_adelanto(&*self.repo_deudas(), representante_id, vista[j as int], mensualidad));
                    },
                }
                let del_periodo = match self.repo_deudas.fetch_por_periodo(adelanto.periodo.as_str()) {
                    Err(e) => return Err(ErrorAplicacion::Repositorio(e)),
                    Ok(v) => v,
                };
                proof {
                    assert(vista.skip(j as int).drop_first() =~= vista.skip(j + 1));
                }
                match buscar_deuda_de_representante(del_periodo.as_slice(), representante_id) {
                    Some(k) => {
                        let deuda_id = del_periodo[k].id;
                        let registro = aplicacion_nueva(pago_id, deuda_id, adelanto.aplicado, fecha_pago);
                        match self.repo_aplicaciones.save(&registro) {
                            Err(e) => return Err(ErrorAplicacion::Repositorio(e)),
                            Ok(()) => {},
                        }
                        let ghost antes = resultado@;
                        resultado.push((deuda_id, adelanto.aplicado));
                        proof {
                            assert(resultado@.drop_last() =~= antes);
                            assert forall|k: int| 0 <= k < n1 implies #[trigger] resultado@[k] == (
                            aps[k].deuda_id,
                            aps[k].monto,
                            ) by {
                                assert(resultado@[k] == antes[k]);
                            }
                        }
                        let mut mensaje = String::from_str("  → ");
                        mensaje.append(texto_de_monto(adelanto.aplicado).as_str());
                        mensaje.append(" adelanto para ");
                        mensaje.append(adelanto.periodo.as_str());
                        mensaje.append(" (deuda #");
                        agregar_natural(&mut mensaje, deuda_id as u64);
                        mensaje.append(")");
                        self.logger.debug(mensaje.as_str());
                        let mut observacion = String::from_str("Adelanto: deuda #");
                        agregar_natural(&mut observacion, deuda_id as u64);
                        observacion.append(" cubierta ");
                        observacion.append(texto_de_monto(adelanto.aplicado).as_str());
                        observacion.append("/");
                        observacion.append(texto_de_monto(adelanto.monto_deuda).as_str());
                        self.registrar_historial(
                            representante_id,
                            TipoHistorial::DeudaCreada,
                            adelanto.monto_deuda,
                            adelanto.periodo.clone(),
                            fecha_pago,
                            observacion,
                        );
                    },
                    None => {},
                }
                j = j + 1;
            }
            proof {
                assert(vista.skip(j as int) =~= Seq::<(Seq<char>, int)>::empty());
                assert(guardo_los_adelantos_de_lo_leido(
                    &*self.repo_ajustes(),
                    &*self.repo_deudas(),
                    representante_id,
                    reparto.1,
                    l,
                ));
            }
        }
        let ghost c = cobrables@;
        assert(empieza_por_el_reparto(resultado@, monto_total as int, c));
        let r = Ok(resultado);
        assert(r matches Ok(v) && empieza_por_el_reparto(v@, monto_total as int, c));
        r
    }

    /// Registra un pago válido y lo reparte con el motor FIFO. Si puede
    /// sobrar dinero, exige la mensualidad antes de guardar nada; si el
    /// reparto falla, el pago guardado se elimina.
    pub fn registrar_pago(&self, datos: DatosPago) -> (r: Result<ResultadoFifo, ErrorAplicacion>)
        ensures
            error_de_pago(datos) matches Some(m) ==> es_validacion(r, m),
            error_de_pago(datos) is None ==> desenlace_de_pago(r),
            r matches Ok(v) ==> reparte_a_lo_sumo(v@, datos.monto_recibido as int),
            error_de_pago(datos) is None && (r is Ok || es_validacion(r, MENSAJE_SIN_MENSUALIDAD@))
                ==> exists|cobrables: Seq<Deuda>|
                #[trigger] resultado_sobre_lo_cobrable(r, datos.monto_recibido as int, cobrables),
            error_de_pago(datos) is None && (r is Ok || es_validacion(r, MENSAJE_SIN_MENSUALIDAD@))
                ==> exists|cobrables: Vec<Deuda>|
                #[trigger] lee_cobrables(&*self.repo_deudas(), datos.representante_id, cobrables)
                    && resultado_sobre_lo_cobrable(r, datos.monto_recibido as int, cobrables@),
            error_de_pago(datos) is None && r is Ok ==> exists|pago_id: usize, cobrables: Vec<Deuda>|
                #[trigger] registro_el_pago(
                    &*self.repo_pagos(),
                    &*self.repo_deudas(),
                    &*self.repo_aplicaciones(),
                    &*self.repo_ajustes(),
                    datos,
                    pago_id,
                    cobrables,
                ) && resultado_sobre_lo_cobrable(r, datos.monto_recibido as int, cobrables@),
            error_de_pago(datos) is None && es_validacion(r, MENSAJE_SIN_MENSUALIDAD@) ==> exists|
                ajuste: Result<Option<String>, ErrorRepositorio>,
            | #[trigger] lee_ajuste_de_mensualidad(&*self.repo_ajustes(), ajuste) && falta_la_mensualidad(ajuste),
            error_de_pago(datos) is None && r is Ok ==> exists|cobrables: Vec<Deuda>|
                #[trigger] lee_cobrables(&*self.repo_deudas(), datos.representante_id, cobrables) && (
                datos.monto_recibido > suma_pendiente(cobrables@) ==> exists|
                    ajuste: Result<Option<String>, ErrorRepositorio>,
                |
                    #[trigger] lee_ajuste_de_mensualidad(&*self.repo_ajustes(), ajuste)
                        && mensualidad_del_ajuste(ajuste) is Some),
    {
        match validar_datos_pago(&datos) {
            Err(e) => return Err(e),
            Ok(()) => {},
        }
        let leidas = self.repo_deudas.fetch_cobrables_por_representante(datos.representante_id);
        let cobrables = match leidas {
            Err(e) => return Err(ErrorAplicacion::Repositorio(e)),
            Ok(v) => v,
        };
        assert(lee_cobrables(&*self.repo_deudas(), datos.representante_id, cobrables));
        if exige_mensualidad(datos.monto_recibido, cobrables.as_slice()) {
            let leida = self.obtener_mensualidad();
            let ghost aj = choose|aj: Result<Option<String>, ErrorRepositorio>|
                #[trigger] lee_ajuste_de_mensualidad(&*self.repo_ajustes(), aj) && es_mensualidad_leida(leida, aj);
            assert(lee_ajuste_de_mensualidad(&*self.repo_ajustes(), aj));
            match leida {
                Err(e) => {
                    assert(pide_mensualidad(datos.monto_recibido as int, cobrables@));
                    assert(resultado_sobre_lo_cobrable(
                        Err::<ResultadoFifo, ErrorAplicacion>(e),
                        datos.monto_recibido as int,
                        cobrables@,
                    ));
                    return Err(e);
                },
                Ok(_) => {
                    assert(mensualidad_del_ajuste(aj) is Some);
                },
            }
        }
        let pago = pago_nuevo(&datos);
        let pago_id = match self.repo_pagos.save(&pago) {
            Err(e) => return Err(ErrorAplicacion::Repositorio(e)),
            Ok(id) => {
                assert(call_ensures(P::save, (&*self.repo_pagos(), &pago), Ok::<usize, ErrorRepositorio>(id)));
                id
            },
        };
        let metodo = match MetodoPago::from_id(datos.metodo_id) {
            Some(m) => m.label(),
            None => "Desconocido",
        };
        let mut mensaje = String::from_str("Pago #");
        agregar_natural(&mut mensaje, pago_id as u64);
        mensaje.append(": ");
        mensaje.append(texto_de_monto(datos.monto_recibido).as_str());
        mensaje.append(" del representante #");
        agregar_natural(&mut mensaje, datos.representante_id as u64);
        mensaje.append(" (método: ");
        mensaje.append(metodo);
        mensaje.append(")");
        self.logger.info(mensaje.as_str());
        let aplicaciones = match self.aplicar_fifo(
            pago_id,
            datos.representante_id,
            cobrables.as_slice(),
            datos.monto_recibido,
            datos.fecha_pago.as_str(),
        ) {
            Ok(a) => a,
            Err(error) => {
                let mut mensaje = String::from_str("Pago #");
                agregar_natural(&mut mensaje, pago_id as u64);
                mensaje.append(": error en FIFO - ");
                mensaje.append(error.descripcion().as_str());
                mensaje.append(". Eliminando pago huérfano.");
                self.logger.error(mensaje.as_str());
                let mut ids: HashSet<usize> = HashSet::new();
                ids.insert(pago_id);
                let _ = self.repo_pagos.delete(ids);
                assert(resultado_sobre_lo_cobrable(
                    Err::<ResultadoFifo, ErrorAplicacion>(error),
                    datos.monto_recibido as int,
                    cobrables@,
                ));
                return Err(error);
            },
        };
        let suma = sumar_resultado(&aplicaciones);
        proof {
            lema_suma_resultado_no_negativa(aplicaciones@);
        }
        let total_aplicado: i64 = suma as i64;
        let mut observacion = String::from_str("Pago de ");
        observacion.append(texto_de_monto(total_aplicado).as_str());
        observacion.append(" aplicado a ");
        agregar_natural(&mut observacion, aplicaciones.len() as u64);
        observacion.append(" deuda(s)");
        let registro = registro_de_historial(
            datos.representante_id,
            TipoHistorial::PagoRegistrado,
            total_aplicado,
            String::new(),
            datos.fecha_pago.as_str(),
            observacion,
        );
        match self.repo_historial.save(&registro) {
            Err(e) => {
                let mut mensaje = String::from_str("Error guardando historial: ");
                mensaje.append(e.descripcion().as_str());
                self.logger.error(mensaje.as_str());
            },
            Ok(()) => {},
        }
        let mut mensaje = String::from_str("Pago #");
        agregar_natural(&mut mensaje, pago_id as u64);
        mensaje.append(": ");
        if aplicaciones.len() == 0 {
            mensaje.append(texto_de_monto(datos.monto_recibido).as_str());
            mensaje.append(" registrado sin deudas pendientes");
        } else {
            mensaje.append(texto_de_monto(total_aplicado).as_str());
            mensaje.append(" aplicado a ");
            agregar_natural(&mut mensaje, aplicaciones.len() as u64);
            mensaje.append(" deuda(s)");
        }
        self.logger.info(mensaje.as_str());
        let ghost monto = datos.monto_recibido as int;
        let ghost c = cobrables@;
        let r = Ok(aplicaciones);
        assert(resultado_sobre_lo_cobrable(r, monto, c));
        assert(registro_el_pago(
            &*self.repo_pagos(),
            &*self.repo_deudas(),
            &*self.repo_aplicaciones(),
                    &*self.repo_ajustes(),
            datos,
            pago_id,
            cobrables,
        ));
        r
    }

    /// Pagos del periodo con sus aplicaciones y datos resueltos, del más
    /// reciente al más antiguo por fecha de pago. Si las aplicaciones o las
    /// deudas de un pago no se pueden leer, se muestra sin ellas.
    pub fn listar_del_periodo(&self, periodo: &str, representantes: &[Representante]) -> (r: Result<
        Vec<PagoVista>,
        ErrorAplicacion,
    >)
        ensures
            delegado(r),
            r matches Ok(v) ==> es_listado_de_pagos(v@, representantes@),
            r matches Ok(v) ==> exists|pagos: Vec<Pago>|
                #[trigger] lee_pagos_del_periodo(&*self.repo_pagos(), periodo, pagos)
                    && lista_los_pagos(v@, pagos@),
    {
        let leidos = self.repo_pagos.fetch_por_periodo(periodo);
        let pagos = match leidos {
            Err(e) => return Err(ErrorAplicacion::Repositorio(e)),
            Ok(v) => v,
        };
        assert(lee_pagos_del_periodo(&*self.repo_pagos(), periodo, pagos));
        let mut vistas: Vec<PagoVista> = Vec::new();
        let mut i: usize = 0;
        let ghost mut orden: Seq<Pago> = Seq::empty();
        let ghost mut idx: Seq<int> = Seq::empty();
        proof {
            assert(pagos@.take(0) =~= Seq::<Pago>::empty());
        }
        while i < pagos.len()
            invariant
                i <= pagos@.len(),
                orden.len() == vistas@.len(),
                forall|k: int| 0 <= k < orden.len() ==> (#[trigger] vistas@[k]).pago == orden[k],
                orden.to_multiset() == pagos@.take(i as int).to_multiset(),
                orden_de_llegada(vistas@, pagos@, idx),
                forall|k: int| 0 <= k < idx.len() ==> #[trigger] idx[k] < i,
                ordenadas_por_fecha_desc(vistas@),
                forall|k: int|
                    0 <= k < vistas@.len() ==> es_vista_de_algun_pago(
                        #[trigger] vistas@[k],
                        representantes@,
                    ),
            decreases pagos@.len() - i,
        {
            let pago = &pagos[i];
            let aplicaciones = match self.repo_aplicaciones.fetch_por_pago(pago.id) {
                Ok(v) => v,
                Err(_) => Vec::new(),
            };
            let deudas = match self.repo_deudas.fetch_all() {
                Ok(v) => v,
                Err(_) => Vec::new(),
            };
            let vista = vista_de_pago(pago, representantes, aplicaciones.as_slice(), deudas.as_slice());
            assert(es_vista_de_algun_pago(vista, representantes@));
            let ghost antes = vistas@;
            let ghost nueva = vista;
            insertar_por_fecha(&mut vistas, vista);
            proof {
                let p = choose|p: int|
                    posicion_por_fecha(antes, nueva, p) && vistas@ == antes.insert(p, nueva);
                let orden_antes = orden;
                orden = orden.insert(p, pagos@[i as int]);
                assert forall|k: int| 0 <= k < orden.len() implies (#[trigger] vistas@[k]).pago == orden[k] by {
                    if k < p {
                        assert(vistas@[k] == antes[k]);
                    } else if k > p {
                        assert(vistas@[k] == antes[k - 1]);
                        assert(orden[k] == orden_antes[k - 1]);
                    }
                }
                let idx_antes = idx;
                idx = idx.insert(p, i as int);
                assert forall|k: int| 0 <= k < vistas@.len() implies 0 <= #[trigger] idx[k] < pagos@.len()
                    && vistas@[k].pago == pagos@[idx[k]] && idx[k] < i + 1 by {
                    if k < p {
                        assert(vistas@[k] == antes[k] && idx[k] == idx_antes[k]);
                    } else if k > p {
                        assert(vistas@[k] == antes[k - 1] && idx[k] == idx_antes[k - 1]);
                    }
                }
                assert forall|a: int, b: int| 0 <= a < b < vistas@.len() implies #[trigger] idx[a]
                    != #[trigger] idx[b] by {
                    let oa = if a < p { a } else { a - 1 };
                    let ob = if b < p { b } else { b - 1 };
                    if a != p {
                        assert(idx[a] == idx_antes[oa] && idx_antes[oa] < i);
                    }
                    if b != p {
                        assert(idx[b] == idx_antes[ob] && idx_antes[ob] < i);
                    }
                }
                assert forall|a: int, b: int|
                    0 <= a < b < vistas@.len() && (#[trigger] vistas@[a]).pago.fecha_pago@ == (
                    #[trigger] vistas@[b]).pago.fecha_pago@ implies idx[a] < idx[b] by {
                    let oa = if a < p { a } else { a - 1 };
                    let ob = if b < p { b } else { b - 1 };
                    if a == p {
                        assert(vistas@[b] == antes[ob]);
                        assert(menor_texto(antes[ob].pago.fecha_pago@, nueva.pago.fecha_pago@));
                        lema_menor_asimetrico(nueva.pago.fecha_pago@, nueva.pago.fecha_pago@);
                    } else if b == p {
                        assert(idx[a] == idx_antes[oa] && idx_antes[oa] < i);
                    } else {
                        assert(vistas@[a] == antes[oa] && vistas@[b] == antes[ob]);
                        assert(idx[a] == idx_antes[oa] && idx[b] == idx_antes[ob]);
                    }
                }
                vstd::seq_lib::to_multiset_insert(orden_antes, p, pagos@[i as int]);
                assert(pagos@.take(i + 1) =~= pagos@.take(i as int).push(pagos@[i as int]));
                vstd::seq_lib::to_multiset_build(pagos@.take(i as int), pagos@[i as int]);
                assert forall|k: int| 0 <= k < vistas@.len() implies es_vista_de_algun_pago(
                    #[trigger] vistas@[k],
                    representantes@,
                ) by {
                    if k < p {
                        assert(vistas@[k] == antes[k]);
                    } else if k > p {
                        assert(vistas@[k] == antes[k - 1]);
                    }
                }
            }
            i = i + 1;
        }
        proof {
            assert(pagos@.take(i as int) =~= pagos@);
            assert(pagos_de_vistas(vistas@) =~= orden);
            assert(son_vistas_de_los_pagos(vistas@, pagos@));
        }
        let ghost leidos = pagos@;
        assert(son_vistas_de_los_pagos(vistas@, leidos) && orden_de_llegada(vistas@, leidos, idx));
        assert(es_listado_de_pagos(vistas@, representantes@));
        assert(lista_los_pagos(vistas@, pagos@));
        Ok(vistas)
    }

    /// Representantes sin pagos completados en el periodo.
    pub fn morosos_del_periodo(&self, periodo: &str, representantes: &[Representante]) -> (r: Result<
        Vec<Representante>,
        ErrorAplicacion,
    >)
        ensures
            delegado(r),
            r matches Ok(v) ==> exists|pagos: Seq<Pago>| #[trigger] morosos(representantes@, pagos) == v@,
            r matches Ok(v) ==> exists|pagos: Vec<Pago>|
                #[trigger] lee_pagos_del_periodo(&*self.repo_pagos(), periodo, pagos)
                    && morosos(representantes@, pagos@) == v@,
    {
        let leidos = self.repo_pagos.fetch_por_periodo(periodo);
        match leidos {
            Err(e) => Err(ErrorAplicacion::Repositorio(e)),
            Ok(pagos) => {
                assert(lee_pagos_del_periodo(&*self.repo_pagos(), periodo, pagos));
                let v = filtrar_morosos(pagos.as_slice(), representantes);
                let r = Ok(v);
                assert(r matches Ok(w) && morosos(representantes@, pagos@) == w@);
                r
            },
        }
    }

    /// Reversa un pago: devuelve a cada deuda afectada lo que se le aplicó,
    /// borra sus aplicaciones y deja el pago como Reversado.
    pub fn reversar_pago(&self, pago_id: usize) -> (r: Result<(), ErrorAplicacion>)
        ensures
            delegado(r),
            r is Ok ==> exists|aplicaciones: Vec<AplicacionPago>|
                #[trigger] lee_aplicaciones_del_pago(&*self.repo_aplicaciones(), pago_id, aplicaciones)
                    && forall|i: int|
                    0 <= i < aplicaciones@.len() ==> restauro_la_aplicacion(
                        &*self.repo_deudas(),
                        #[trigger] aplicaciones@[i],
                    ),
            r is Ok ==> call_ensures(
                A::delete_por_pago,
                (&*self.repo_aplicaciones(), pago_id),
                Ok::<(), ErrorRepositorio>(()),
            ),
            r is Ok ==> call_ensures(
                P::update_estado,
                (&*self.repo_pagos(), pago_id, EstadoPago::Reversado.id_de()),
                Ok::<(), ErrorRepositorio>(()),
            ),
    {
        let leidas = self.repo_aplicaciones.fetch_por_pago(pago_id);
        let aplicaciones = match leidas {
            Err(e) => return Err(ErrorAplicacion::Repositorio(e)),
            Ok(v) => v,
        };
        assert(lee_aplicaciones_del_pago(&*self.repo_aplicaciones(), pago_id, aplicaciones));
        if aplicaciones.len() == 0 {
            let mut mensaje = String::from_str("Pago #");
            agregar_natural(&mut mensaje, pago_id as u64);
            mensaje.append(": sin aplicaciones, solo se cambia estado a Reversado");
            self.logger.info(mensaje.as_str());
        }
        let mut i: usize = 0;
        while i < aplicaciones.len()
            invariant
                i <= aplicaciones@.len(),
                forall|j: int| 0 <= j < i ==> restauro_la_aplicacion(&*self.repo_deudas(), #[trigger] aplicaciones@[j]),
            decreases aplicaciones@.len() - i,
        {
            let aplicacion = &aplicaciones[i];
            let leidas_deudas = self.repo_deudas.fetch_all();
            let todas = match leidas_deudas {
                Err(e) => return Err(ErrorAplicacion::Repositorio(e)),
                Ok(v) => v,
            };
            assert(lee_todas_las_deudas(&*self.repo_deudas(), todas));
            match restauracion_de_aplicacion(aplicacion, todas.as_slice()) {
                Some((deuda_id, nuevo, estado)) => {
                    match self.repo_deudas.update_estado(deuda_id, nuevo, estado) {
                        Err(e) => return Err(ErrorAplicacion::Repositorio(e)),
                        Ok(u) => {
                            assert(actualizo_la_deuda(&*self.repo_deudas(), deuda_id, nuevo, estado));
                        },
                    }
                    let mut mensaje = String::from_str("  → Deuda #");
                    agregar_natural(&mut mensaje, deuda_id as u64);
                    mensaje.append(": saldo restaurado a ");
                    agregar_entero(&mut mensaje, nuevo);
                    self.logger.debug(mensaje.as_str());
                },
                None => {},
            }
            assert(restauro_la_aplicacion(&*self.repo_deudas(), aplicaciones@[i as int]));
            i = i + 1;
        }
        match self.repo_aplicaciones.delete_por_pago(pago_id) {
            Err(e) => return Err(ErrorAplicacion::Repositorio(e)),
            Ok(u) => {
                assert(call_ensures(
                    A::delete_por_pago,
                    (&*self.repo_aplicaciones(), pago_id),
                    Ok::<(), ErrorRepositorio>(()),
                ));
            },
        }
        match self.repo_pagos.update_estado(pago_id, EstadoPago::Reversado.id()) {
            Err(e) => return Err(ErrorAplicacion::Repositorio(e)),
            Ok(u) => {
                assert(call_ensures(
                    P::update_estado,
                    (&*self.repo_pagos(), pago_id, EstadoPago::Reversado.id_de()),
                    Ok::<(), ErrorRepositorio>(()),
                ));
            },
        }
        let mut observacion = String::from_str("Pago #");
        agregar_natural(&mut observacion, pago_id as u64);
        observacion.append(" reversado - ");
        agregar_natural(&mut observacion, aplicaciones.len() as u64);
        observacion.append(" aplicacion(es) restaurada(s)");
        let fecha = hoy_en_texto();
        self.registrar_historial(
            0,
            TipoHistorial::Anulacion,
            0,
            String::new(),
            fecha.as_str(),
            observacion,
        );
        let mut mensaje = String::from_str("Pago #");
        agregar_natural(&mut mensaje, pago_id as u64);
        mensaje.append(" reversado: ");
        agregar_natural(&mut mensaje, aplicaciones.len() as u64);
        mensaje.append(" aplicación(es) revertida(s)");
        self.logger.info(mensaje.as_str());
        Ok(())
    }

    /// Total recaudado (solo pagos completados) en el periodo, en centavos.
    pub fn total_del_periodo(&self, periodo: &str, representantes: &[Representante]) -> (r: Result<
        i128,
        ErrorAplicacion,
    >)
        ensures
            delegado(r),
            r matches Ok(t) ==> exists|v: Seq<PagoVista>|
                #[trigger] total_completados(v) == t && es_listado_de_pagos(v, representantes@),
            r matches Ok(t) ==> exists|pagos: Vec<Pago>|
                #[trigger] lee_pagos_del_periodo(&*self.repo_pagos(), periodo, pagos) && exists|
                    v: Seq<PagoVista>,
                | #[trigger] total_completados(v) == t && lista_los_pagos(v, pagos@),
    {
        match self.listar_del_periodo(periodo, representantes) {
            Err(e) => Err(e),
            Ok(vistas) => {
                let t = sumar_completados(vistas.as_slice());
                let ghost v = vistas@;
                assert(total_completados(v) == t && es_listado_de_pagos(v, representantes@));
                let ghost pagos = choose|pagos: Vec<Pago>|
                    #[trigger] lee_pagos_del_periodo(&*self.repo_pagos(), periodo, pagos) && lista_los_pagos(v, pagos@);
                assert(lee_pagos_del_periodo(&*self.repo_pagos(), periodo, pagos) && lista_los_pagos(v, pagos@));
                Ok(t)
            },
        }
    }

    /// Anula pagos por identificador (borrado lógico); sin identificadores
    /// no hace nada.
    pub fn eliminar(&self, ids: HashSet<usize>) -> (r: Result<(), ErrorAplicacion>)
        ensures
            ids@.is_empty() ==> r is Ok,
            delegado(r),
            r is Ok && !ids@.is_empty() ==> call_ensures(
                P::delete,
                (&*self.repo_pagos(), ids),
                Ok::<(), ErrorRepositorio>(()),
            ),
    {
        if ids.is_empty() {
            return Ok(());
        }
        let ghost pedidos = ids;
        match self.repo_pagos.delete(ids) {
            Err(e) => return Err(ErrorAplicacion::Repositorio(e)),
            Ok(u) => {
                assert(call_ensures(P::delete, (&*self.repo_pagos(), pedidos), Ok::<(), ErrorRepositorio>(())));
            },
        }
        self.logger.debug("Pagos anulados");
        Ok(())
    }
}

} // verus!
