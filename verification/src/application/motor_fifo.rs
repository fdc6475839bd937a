//! Motor de aplicación de pagos (FIFO) como funciones puras.
//!
//! 1. Un pago se aplica a las deudas cobrables del representante de la más
//!    antigua a la más nueva: cada una recibe lo que queda del pago hasta su
//!    saldo pendiente. La que queda en cero pasa a Pagada; si no, a Parcial.
//! 2. Lo que sobra se adelanta a los meses siguientes al actual (a lo sumo
//!    doce, salteando los periodos que ya tienen deuda): cada mes recibe una
//!    deuda por la mensualidad, cubierta hasta donde alcance el sobrante.
//!
//! Reversar una aplicación devuelve el monto al saldo pendiente sin superar
//! el total de la deuda.

use vstd::prelude::*;
use crate::domain::catalogos::EstadoDeuda;
use crate::domain::deuda::Deuda;
use crate::domain::texto::{agregar_natural, decimal_nat};
use crate::domain::fecha::{Fecha, ANIO_MAXIMO};
use crate::domain::monto::{es_digito, lema_decimal_nat};
use crate::domain::pago::{etiqueta_periodo, guion_unico, nombre_de_mes, numero_de_mes};

verus! {

/// Aplicación de parte de un pago a una deuda existente.
#[derive(Debug, Clone, Copy, PartialEq, Eq, Structural)]
pub struct AplicacionFifo {
    pub deuda_id: usize,
    /// Monto aplicado, en centavos.
    pub monto: i64,
    /// Saldo pendiente de la deuda después de aplicar.
    pub nuevo_pendiente: i64,
    /// Estado de la deuda después de aplicar.
    pub nuevo_estado: i32,
}

/// Estado de una deuda tras recibir un pago: Pagada si no queda saldo,
/// Parcial si queda.
pub open spec fn estado_tras_pago(pendiente: int) -> i32 {
    if pendiente <= 0 {
        EstadoDeuda::Pagada.id_de()
    } else {
        EstadoDeuda::Parcial.id_de()
    }
}

/// El menor de dos enteros.
pub open spec fn minimo(a: int, b: int) -> int {
    if a <= b {
        a
    } else {
        b
    }
}

/// Aplicaciones de un monto a una lista de deudas en orden, y lo que sobra.
pub open spec fn fifo(restante: int, deudas: Seq<Deuda>) -> (Seq<AplicacionFifo>, int)
    decreases deudas.len(),
{
    if deudas.len() == 0 || restante <= 0 {
        (Seq::empty(), restante)
    } else {
        let d = deudas[0];
        let aplicar = minimo(restante, d.monto_pendiente as int);
        let siguiente = fifo(restante - aplicar, deudas.drop_first());
        if aplicar <= 0 {
            fifo(restante, deudas.drop_first())
        } else {
            (
                seq![
                    AplicacionFifo {
                        deuda_id: d.id,
                        monto: aplicar as i64,
                        nuevo_pendiente: (d.monto_pendiente - aplicar) as i64,
                        nuevo_estado: estado_tras_pago(d.monto_pendiente - aplicar),
                    },
                ] + siguiente.0,
                siguiente.1,
            )
        }
    }
}

/// Suma de los montos aplicados.
pub open spec fn suma_aplicada(aps: Seq<AplicacionFifo>) -> int
    decreases aps.len(),
{
    if aps.len() == 0 {
        0
    } else {
        aps[0].monto + suma_aplicada(aps.drop_first())
    }
}

/// Suma de los saldos pendientes positivos.
pub open spec fn saldo_cobrable(deudas: Seq<Deuda>) -> int
    decreases deudas.len(),
{
    if deudas.len() == 0 {
        0
    } else {
        (if deudas[0].monto_pendiente > 0 {
            deudas[0].monto_pendiente as int
        } else {
            0
        }) + saldo_cobrable(deudas.drop_first())
    }
}

/// Aplica un monto a las deudas en el orden dado.
pub fn aplicar_a_deudas(monto: i64, deudas: &[Deuda]) -> (r: (Vec<AplicacionFifo>, i64))
    ensures
        r.0@ == fifo(monto as int, deudas@).0,
        r.1 == fifo(monto as int, deudas@).1,
{
    let mut aplicaciones: Vec<AplicacionFifo> = Vec::new();
    let mut restante = monto;
    let mut i: usize = 0;
    proof {
        assert(deudas@.skip(0) =~= deudas@);
        assert(aplicaciones@ + fifo(monto as int, deudas@).0 =~= fifo(monto as int, deudas@).0);
    }
    while i < deudas.len()
        invariant
            i <= deudas@.len(),
            restante <= monto,
            fifo(monto as int, deudas@).0 == aplicaciones@ + fifo(restante as int, deudas@.skip(i as int)).0,
            fifo(monto as int, deudas@).1 == fifo(restante as int, deudas@.skip(i as int)).1,
        ensures
            i <= deudas@.len(),
            i == deudas@.len() || restante <= 0,
            fifo(monto as int, deudas@).0 == aplicaciones@ + fifo(restante as int, deudas@.skip(i as int)).0,
            fifo(monto as int, deudas@).1 == fifo(restante as int, deudas@.skip(i as int)).1,
        decreases deudas@.len() - i,
    {
        let ghost resto = deudas@.skip(i as int);
        assert(resto.drop_first() =~= deudas@.skip(i + 1));
        if restante <= 0 {
            break;
        }
        let d = &deudas[i];
        let aplicar = if restante <= d.monto_pendiente {
            restante
        } else {
            d.monto_pendiente
        };
        if aplicar > 0 {
            let nuevo = d.monto_pendiente - aplicar;
            let estado = if nuevo <= 0 {
                EstadoDeuda::Pagada.id()
            } else {
                EstadoDeuda::Parcial.id()
            };
            let ghost antes = aplicaciones@;
            aplicaciones.push(
                AplicacionFifo {
                    deuda_id: d.id,
                    monto: aplicar,
                    nuevo_pendiente: nuevo,
                    nuevo_estado: estado,
                },
            );
            assert(aplicaciones@ + fifo((restante - aplicar) as int, deudas@.skip(i + 1)).0 =~= antes
                + fifo(restante as int, resto).0);
            restante = restante - aplicar;
        }
        i = i + 1;
    }
    proof {
        if i == deudas.len() {
            assert(deudas@.skip(i as int) =~= Seq::<Deuda>::empty());
        }
        assert(fifo(restante as int, deudas@.skip(i as int)).0 =~= Seq::<AplicacionFifo>::empty());
        assert(aplicaciones@ + Seq::<AplicacionFifo>::empty() =~= aplicaciones@);
    }
    (aplicaciones, restante)
}


proof fn lema_suma_aplicada_primero(x: AplicacionFifo, resto: Seq<AplicacionFifo>)
    ensures
        suma_aplicada(seq![x] + resto) == x.monto + suma_aplicada(resto),
{
    assert((seq![x] + resto).drop_first() =~= resto);
}

proof fn lema_saldo_cobrable_no_negativo(deudas: Seq<Deuda>)
    ensures
        saldo_cobrable(deudas) >= 0,
    decreases deudas.len(),
{
    if deudas.len() > 0 {
        lema_saldo_cobrable_no_negativo(deudas.drop_first());
    }
}

/// La aplicación descuenta de alguna deuda de la lista: una con su
/// identificador cuyo saldo era lo aplicado más lo que quedó pendiente.
pub open spec fn proviene_de(a: AplicacionFifo, deudas: Seq<Deuda>) -> bool {
    exists|j: int|
        0 <= j < deudas.len() && #[trigger] deudas[j].id == a.deuda_id && deudas[j].monto_pendiente
            == a.monto + a.nuevo_pendiente
}

/// Lo que se aplica más lo que sobra es exactamente el monto del pago: el
/// reparto no crea ni pierde dinero.
pub proof fn el_reparto_conserva_el_monto(monto: int, deudas: Seq<Deuda>)
    ensures
        suma_aplicada(fifo(monto, deudas).0) + fifo(monto, deudas).1 == monto,
    decreases deudas.len(),
{
    if deudas.len() == 0 || monto <= 0 {
    } else {
        let d = deudas[0];
        let aplicar = minimo(monto, d.monto_pendiente as int);
        if aplicar <= 0 {
            el_reparto_conserva_el_monto(monto, deudas.drop_first());
        } else {
            el_reparto_conserva_el_monto(monto - aplicar, deudas.drop_first());
            let siguiente = fifo(monto - aplicar, deudas.drop_first());
            let x = AplicacionFifo {
                deuda_id: d.id,
                monto: aplicar as i64,
                nuevo_pendiente: (d.monto_pendiente - aplicar) as i64,
                nuevo_estado: estado_tras_pago(d.monto_pendiente - aplicar),
            };
            lema_suma_aplicada_primero(x, siguiente.0);
        }
    }
}

/// Un pago no negativo cubre el saldo cobrable hasta donde alcanza: se aplica
/// el menor entre el monto y la suma de los saldos pendientes positivos, y
/// sobra el resto.
pub proof fn se_aplica_el_menor_entre_monto_y_saldo(monto: int, deudas: Seq<Deuda>)
    requires
        monto >= 0,
    ensures
        suma_aplicada(fifo(monto, deudas).0) == minimo(monto, saldo_cobrable(deudas)),
        fifo(monto, deudas).1 == monto - minimo(monto, saldo_cobrable(deudas)),
        fifo(monto, deudas).1 >= 0,
    decreases deudas.len(),
{
    lema_saldo_cobrable_no_negativo(deudas);
    el_reparto_conserva_el_monto(monto, deudas);
    if deudas.len() == 0 || monto <= 0 {
    } else {
        let d = deudas[0];
        let aplicar = minimo(monto, d.monto_pendiente as int);
        lema_saldo_cobrable_no_negativo(deudas.drop_first());
        if aplicar <= 0 {
            se_aplica_el_menor_entre_monto_y_saldo(monto, deudas.drop_first());
        } else {
            se_aplica_el_menor_entre_monto_y_saldo(monto - aplicar, deudas.drop_first());
            el_reparto_conserva_el_monto(monto - aplicar, deudas.drop_first());
        }
    }
}

/// Las deudas con saldo pendiente positivo, en el orden de la lista.
pub open spec fn con_saldo(deudas: Seq<Deuda>) -> Seq<Deuda>
    decreases deudas.len(),
{
    if deudas.len() == 0 {
        Seq::empty()
    } else if deudas[0].monto_pendiente > 0 {
        seq![deudas[0]] + con_saldo(deudas.drop_first())
    } else {
        con_saldo(deudas.drop_first())
    }
}

/// El reparto sigue el orden de la lista: la aplicación `k` va a la `k`-ésima
/// deuda con saldo y descuenta de su saldo; toda aplicación salvo la última
/// salda su deuda, así que ninguna deuda recibe dinero mientras una anterior
/// conserve saldo; y una deuda con saldo se queda sin recibir sólo si no
/// sobró nada.
pub proof fn el_reparto_sigue_el_orden_de_las_deudas(monto: int, deudas: Seq<Deuda>)
    ensures
        ({
            let aps = fifo(monto, deudas).0;
            let pos = con_saldo(deudas);
            &&& aps.len() <= pos.len()
            &&& forall|k: int|
                0 <= k < aps.len() ==> (#[trigger] aps[k]).deuda_id == pos[k].id && aps[k].monto
                    + aps[k].nuevo_pendiente == pos[k].monto_pendiente && aps[k].monto > 0
            &&& forall|k: int| 0 <= k < aps.len() - 1 ==> (#[trigger] aps[k]).monto == pos[k].monto_pendiente
            &&& monto > 0 && aps.len() < pos.len() ==> fifo(monto, deudas).1 <= 0
        }),
    decreases deudas.len(),
{
    if deudas.len() == 0 || monto <= 0 {
        if monto <= 0 && deudas.len() > 0 {
            assert(fifo(monto, deudas).0.len() == 0);
        }
    } else {
        let d = deudas[0];
        let cola = deudas.drop_first();
        let aplicar = minimo(monto, d.monto_pendiente as int);
        if aplicar <= 0 {
            el_reparto_sigue_el_orden_de_las_deudas(monto, cola);
            assert(d.monto_pendiente <= 0);
            assert(con_saldo(deudas) == con_saldo(cola));
        } else {
            el_reparto_sigue_el_orden_de_las_deudas(monto - aplicar, cola);
            let siguiente = fifo(monto - aplicar, cola);
            let x = AplicacionFifo {
                deuda_id: d.id,
                monto: aplicar as i64,
                nuevo_pendiente: (d.monto_pendiente - aplicar) as i64,
                nuevo_estado: estado_tras_pago(d.monto_pendiente - aplicar),
            };
            let aps = fifo(monto, deudas).0;
            let pos = con_saldo(deudas);
            assert(aps == seq![x] + siguiente.0);
            assert(pos == seq![d] + con_saldo(cola));
            assert(x.monto == aplicar && x.nuevo_pendiente == d.monto_pendiente - aplicar);
            assert forall|k: int| 0 <= k < aps.len() implies (#[trigger] aps[k]).deuda_id == pos[k].id
                && aps[k].monto + aps[k].nuevo_pendiente == pos[k].monto_pendiente && aps[k].monto > 0 by {
                if k > 0 {
                    assert(aps[k] == siguiente.0[k - 1] && pos[k] == con_saldo(cola)[k - 1]);
                }
            }
            assert forall|k: int| 0 <= k < aps.len() - 1 implies (#[trigger] aps[k]).monto == pos[k].monto_pendiente by {
                if k > 0 {
                    assert(aps[k] == siguiente.0[k - 1] && pos[k] == con_saldo(cola)[k - 1]);
                } else {
                    assert(siguiente.0.len() > 0);
                    assert(monto - aplicar > 0);
                }
            }
            if monto - aplicar <= 0 {
                assert(siguiente.1 == monto - aplicar);
            }
        }
    }
}

/// Cada aplicación toma un monto positivo de una deuda de la lista, sin
/// superar su saldo, y deja el estado que corresponde al nuevo saldo; solo
/// la última deuda tocada puede quedar con saldo, y si sobra dinero todas
/// las deudas tocadas quedaron saldadas (orden FIFO).
pub proof fn solo_la_ultima_deuda_puede_quedar_parcial(monto: int, deudas: Seq<Deuda>)
    ensures
        ({
            let aps = fifo(monto, deudas).0;
            &&& forall|k: int|
                0 <= k < aps.len() ==> #[trigger] aps[k].monto > 0 && aps[k].nuevo_pendiente >= 0
                    && aps[k].nuevo_estado == estado_tras_pago(aps[k].nuevo_pendiente as int)
                    && proviene_de(aps[k], deudas)
            &&& forall|k: int| 0 <= k < aps.len() - 1 ==> #[trigger] aps[k].nuevo_pendiente == 0
            &&& fifo(monto, deudas).1 > 0 ==> forall|k: int|
                0 <= k < aps.len() ==> #[trigger] aps[k].nuevo_pendiente == 0
        }),
    decreases deudas.len(),
{
    if deudas.len() == 0 || monto <= 0 {
    } else {
        let d = deudas[0];
        let cola = deudas.drop_first();
        let aplicar = minimo(monto, d.monto_pendiente as int);
        if aplicar <= 0 {
            solo_la_ultima_deuda_puede_quedar_parcial(monto, cola);
            let aps = fifo(monto, deudas).0;
            assert forall|k: int| 0 <= k < aps.len() implies proviene_de(#[trigger] aps[k], deudas) by {
                let j = choose|j: int|
                    0 <= j < cola.len() && cola[j].id == aps[k].deuda_id
                        && cola[j].monto_pendiente == aps[k].monto + aps[k].nuevo_pendiente;
                assert(deudas[j + 1] == cola[j]);
            }
        } else {
            solo_la_ultima_deuda_puede_quedar_parcial(monto - aplicar, cola);
            let siguiente = fifo(monto - aplicar, cola);
            let x = AplicacionFifo {
                deuda_id: d.id,
                monto: aplicar as i64,
                nuevo_pendiente: (d.monto_pendiente - aplicar) as i64,
                nuevo_estado: estado_tras_pago(d.monto_pendiente - aplicar),
            };
            let aps = fifo(monto, deudas).0;
            assert(aps == seq![x] + siguiente.0);
            if siguiente.0.len() > 0 {
                assert(monto - aplicar > 0);
            }
            assert forall|k: int| 0 <= k < aps.len() implies #[trigger] aps[k].monto > 0
                && aps[k].nuevo_pendiente >= 0 && aps[k].nuevo_estado == estado_tras_pago(
                aps[k].nuevo_pendiente as int,
            ) && proviene_de(aps[k], deudas) by {
                if k == 0 {
                    assert(aps[0] == x);
                    assert(deudas[0].id == aps[0].deuda_id);
                } else {
                    assert(aps[k] == siguiente.0[k - 1]);
                    let j = choose|j: int|
                        0 <= j < cola.len() && cola[j].id == siguiente.0[k - 1].deuda_id
                            && cola[j].monto_pendiente == siguiente.0[k - 1].monto
                            + siguiente.0[k - 1].nuevo_pendiente;
                    assert(deudas[j + 1] == cola[j]);
                }
            }
            assert forall|k: int| 0 <= k < aps.len() - 1 implies #[trigger] aps[k].nuevo_pendiente
                == 0 by {
                if k == 0 {
                    assert(aps[0] == x);
                } else {
                    assert(aps[k] == siguiente.0[k - 1]);
                }
            }
            if fifo(monto, deudas).1 > 0 {
                assert(monto - aplicar > 0);
                assert forall|k: int| 0 <= k < aps.len() implies #[trigger] aps[k].nuevo_pendiente
                    == 0 by {
                    if k == 0 {
                        assert(aps[0] == x);
                    } else {
                        assert(aps[k] == siguiente.0[k - 1]);
                    }
                }
            }
        }
    }
}


/// Mes que sigue a (anio, mes).
pub open spec fn mes_siguiente(anio: int, mes: int) -> (int, int) {
    if mes + 1 > 12 {
        (anio + 1, 1)
    } else {
        (anio, mes + 1)
    }
}

/// `n` ceros (ninguno si `n` no es positivo).
pub open spec fn ceros(n: int) -> Seq<char> {
    Seq::new(if n > 0 { n as nat } else { 0 }, |_i: int| '0')
}

/// Dígitos de `n` con ceros a la izquierda hasta `ancho` caracteres.
pub open spec fn con_ceros(n: nat, ancho: int) -> Seq<char> {
    ceros(ancho - decimal_nat(n).len()) + decimal_nat(n)
}

/// Año con cuatro caracteres como mínimo, el signo incluido.
pub open spec fn anio_con_ceros(anio: int) -> Seq<char> {
    if anio < 0 {
        seq!['-'] + con_ceros((-anio) as nat, 3)
    } else {
        con_ceros(anio as nat, 4)
    }
}

/// Texto "AAAA-MM" del periodo (anio, mes).
pub open spec fn texto_periodo(anio: int, mes: int) -> Seq<char> {
    anio_con_ceros(anio) + seq!['-'] + con_ceros(mes as nat, 2)
}

/// Cantidad de dígitos decimales de `n`.
fn cifras(n: u64) -> (r: u64)
    ensures
        r == decimal_nat(n as nat).len(),
        r <= n + 1,
    decreases n,
{
    if n < 10 {
        1
    } else {
        let c = cifras(n / 10);
        assert(decimal_nat(n as nat) == decimal_nat((n / 10) as nat).push(
            crate::domain::texto::digito((n % 10) as int),
        ));
        c + 1
    }
}

/// Agrega a `s` los dígitos de `n` con ceros a la izquierda hasta `ancho`.
fn agregar_con_ceros(s: &mut String, n: u64, ancho: u64)
    ensures
        final(s)@ == old(s)@ + con_ceros(n as nat, ancho as int),
{
    let c = cifras(n);
    let ghost inicio = s@;
    let mut k = c;
    proof {
        assert(inicio + ceros(0) =~= inicio);
    }
    while k < ancho
        invariant
            c == decimal_nat(n as nat).len(),
            c <= k,
            k <= ancho || k == c,
            s@ == inicio + ceros(k - c),
        decreases ancho - k,
    {
        s.append("0");
        proof {
            reveal_strlit("0");
            assert(inicio + ceros(k + 1 - c) =~= inicio + ceros(k - c) + "0"@);
        }
        k = k + 1;
    }
    proof {
        assert(ceros(k - c) =~= ceros(ancho - c));
    }
    agregar_natural(s, n);
    assert(s@ =~= inicio + con_ceros(n as nat, ancho as int));
}

/// Texto "AAAA-MM" de un periodo, con el año y el mes rellenos de ceros.
pub fn periodo_en_texto(anio: i32, mes: u32) -> (r: String)
    ensures
        r@ == texto_periodo(anio as int, mes as int),
{
    let mut s = String::new();
    if anio < 0 {
        s.append("-");
        let positivo: u64 = (-(anio as i64)) as u64;
        agregar_con_ceros(&mut s, positivo, 3);
    } else {
        agregar_con_ceros(&mut s, anio as u64, 4);
    }
    s.append("-");
    agregar_con_ceros(&mut s, mes as u64, 2);
    proof {
        reveal_strlit("-");
    }
    assert(s@ =~= texto_periodo(anio as int, mes as int));
    s
}

/// Deuda adelantada para un mes futuro.
pub struct Adelanto {
    /// Periodo "AAAA-MM" del mes adelantado.
    pub periodo: String,
    /// Monto de la deuda: la mensualidad.
    pub monto_deuda: i64,
    /// Parte del sobrante del pago que la cubre.
    pub aplicado: i64,
}

/// Periodo y monto aplicado de cada adelanto.
pub open spec fn vista_adelantos(v: Seq<Adelanto>) -> Seq<(Seq<char>, int)> {
    v.map_values(|a: Adelanto| (a.periodo@, a.aplicado as int))
}

/// Textos de una lista de cadenas.
pub open spec fn textos(v: Seq<String>) -> Seq<Seq<char>> {
    v.map_values(|t: String| t@)
}

/// Adelantos para `meses` meses a partir de (anio, mes): cada mes sin deuda
/// recibe una deuda por la mensualidad cubierta con lo que quede del
/// sobrante; los meses que ya tienen deuda se saltan.
pub open spec fn plan_adelantos(
    anio: int,
    mes: int,
    restante: int,
    mensualidad: int,
    existentes: Seq<Seq<char>>,
    meses: nat,
) -> (Seq<(Seq<char>, int)>, int)
    decreases meses,
{
    if meses == 0 || restante <= 0 {
        (Seq::empty(), restante)
    } else {
        let periodo = texto_periodo(anio, mes);
        let siguiente = mes_siguiente(anio, mes);
        if existentes.contains(periodo) {
            plan_adelantos(siguiente.0, siguiente.1, restante, mensualidad, existentes, (meses - 1) as nat)
        } else {
            let aplicar = minimo(restante, mensualidad);
            let resto = plan_adelantos(
                siguiente.0,
                siguiente.1,
                restante - aplicar,
                mensualidad,
                existentes,
                (meses - 1) as nat,
            );
            (seq![(periodo, aplicar)] + resto.0, resto.1)
        }
    }
}

/// Meses como máximo que se adelantan con el sobrante de un pago.
pub const MESES_DE_ADELANTO: u32 = 12;

/// Plan de adelantos de un sobrante a partir del mes siguiente a `hoy`.
pub open spec fn adelantos_desde(
    hoy: Fecha,
    restante: int,
    mensualidad: int,
    existentes: Seq<Seq<char>>,
) -> (Seq<(Seq<char>, int)>, int) {
    let inicio = mes_siguiente(hoy.anio as int, hoy.mes as int);
    plan_adelantos(inicio.0, inicio.1, restante, mensualidad, existentes, MESES_DE_ADELANTO as nat)
}

/// ¿Está `periodo` entre los textos de `existentes`?
fn contiene_periodo(existentes: &[String], periodo: &String) -> (r: bool)
    ensures
        r == textos(existentes@).contains(periodo@),
{
    let mut j: usize = 0;
    while j < existentes.len()
        invariant
            j <= existentes@.len(),
            forall|k: int| 0 <= k < j ==> existentes@[k]@ != periodo@,
        decreases existentes@.len() - j,
    {
        if existentes[j] == *periodo {
            assert(textos(existentes@)[j as int] == periodo@);
            return true;
        }
        j = j + 1;
    }
    proof {
        if textos(existentes@).contains(periodo@) {
            let k = choose|k: int| 0 <= k < textos(existentes@).len() && textos(existentes@)[k] == periodo@;
            assert(existentes@[k]@ == periodo@);
        }
    }
    false
}

/// Planifica los adelantos del sobrante de un pago: hasta doce meses a
/// partir del siguiente a `hoy`, salteando los periodos que ya tienen deuda.
pub fn planificar_adelantos(
    hoy: Fecha,
    restante: i64,
    mensualidad: i64,
    existentes: &[String],
) -> (r: (Vec<Adelanto>, i64))
    requires
        hoy.valida(),
        mensualidad > 0,
    ensures
        vista_adelantos(r.0@) == adelantos_desde(hoy, restante as int, mensualidad as int, textos(existentes@)).0,
        r.1 == adelantos_desde(hoy, restante as int, mensualidad as int, textos(existentes@)).1,
        forall|k: int| 0 <= k < r.0@.len() ==> #[trigger] r.0@[k].monto_deuda == mensualidad,
{
    let ghost vistos = textos(existentes@);
    let ghost objetivo = adelantos_desde(hoy, restante as int, mensualidad as int, vistos);
    let mut anio: i32 = hoy.anio;
    let mut mes: u32 = hoy.mes + 1;
    if mes > 12 {
        mes = 1;
        anio = anio + 1;
    }
    let mut resto = restante;
    let mut plan: Vec<Adelanto> = Vec::new();
    let mut i: u32 = 0;
    proof {
        assert(vista_adelantos(plan@) + objetivo.0 =~= objetivo.0);
    }
    while i < MESES_DE_ADELANTO
        invariant
            i <= MESES_DE_ADELANTO,
            1 <= mes <= 12,
            anio <= ANIO_MAXIMO + 1 + i,
            anio >= hoy.anio,
            mensualidad > 0,
            resto <= restante,
            vistos == textos(existentes@),
            objetivo == adelantos_desde(hoy, restante as int, mensualidad as int, vistos),
            objetivo.0 == vista_adelantos(plan@) + plan_adelantos(
                anio as int,
                mes as int,
                resto as int,
                mensualidad as int,
                vistos,
                (MESES_DE_ADELANTO - i) as nat,
            ).0,
            objetivo.1 == plan_adelantos(
                anio as int,
                mes as int,
                resto as int,
                mensualidad as int,
                vistos,
                (MESES_DE_ADELANTO - i) as nat,
            ).1,
            forall|k: int| 0 <= k < plan@.len() ==> #[trigger] plan@[k].monto_deuda == mensualidad,
        ensures
            resto <= 0 || i == MESES_DE_ADELANTO,
            objetivo.0 == vista_adelantos(plan@) + plan_adelantos(
                anio as int,
                mes as int,
                resto as int,
                mensualidad as int,
                vistos,
                (MESES_DE_ADELANTO - i) as nat,
            ).0,
            objetivo.1 == plan_adelantos(
                anio as int,
                mes as int,
                resto as int,
                mensualidad as int,
                vistos,
                (MESES_DE_ADELANTO - i) as nat,
            ).1,
            forall|k: int| 0 <= k < plan@.len() ==> #[trigger] plan@[k].monto_deuda == mensualidad,
        decreases MESES_DE_ADELANTO - i,
    {
        if resto <= 0 {
            break;
        }
        let ghost meses = (MESES_DE_ADELANTO - i) as nat;
        let periodo = periodo_en_texto(anio, mes);
        let ghost siguiente = mes_siguiente(anio as int, mes as int);
        let mut anio_sig = anio;
        let mut mes_sig = mes + 1;
        if mes_sig > 12 {
            mes_sig = 1;
            anio_sig = anio + 1;
        }
        if !contiene_periodo(existentes, &periodo) {
            let aplicar = if resto <= mensualidad {
                resto
            } else {
                mensualidad
            };
            let ghost antes = plan@;
            plan.push(Adelanto { periodo, monto_deuda: mensualidad, aplicado: aplicar });
            proof {
                assert(vista_adelantos(plan@) =~= vista_adelantos(antes).push((periodo@, aplicar as int)));
                let cola = plan_adelantos(
                    siguiente.0,
                    siguiente.1,
                    resto - aplicar,
                    mensualidad as int,
                    vistos,
                    (meses - 1) as nat,
                );
                assert(vista_adelantos(antes) + (seq![(periodo@, aplicar as int)] + cola.0)
                    =~= vista_adelantos(plan@) + cola.0);
            }
            resto = resto - aplicar;
        }
        anio = anio_sig;
        mes = mes_sig;
        i = i + 1;
    }
    proof {
        assert(plan_adelantos(
            anio as int,
            mes as int,
            resto as int,
            mensualidad as int,
            vistos,
            (MESES_DE_ADELANTO - i) as nat,
        ).0 =~= Seq::<(Seq<char>, int)>::empty());
        assert(vista_adelantos(plan@) + Seq::<(Seq<char>, int)>::empty() =~= vista_adelantos(plan@));
    }
    (plan, resto)
}


/// Suma de los montos aplicados de un plan de adelantos.
pub open spec fn suma_plan(plan: Seq<(Seq<char>, int)>) -> int
    decreases plan.len(),
{
    if plan.len() == 0 {
        0
    } else {
        plan[0].1 + suma_plan(plan.drop_first())
    }
}

/// Los adelantos reparten el sobrante sin crear ni perder dinero, cubren a
/// lo sumo una mensualidad cada uno, nunca repiten un periodo que ya tenía
/// deuda y son a lo sumo `meses`; si el sobrante no es negativo, lo que
/// queda tampoco lo es.
pub proof fn los_adelantos_conservan_el_sobrante(
    anio: int,
    mes: int,
    restante: int,
    mensualidad: int,
    existentes: Seq<Seq<char>>,
    meses: nat,
)
    requires
        mensualidad > 0,
    ensures
        ({
            let p = plan_adelantos(anio, mes, restante, mensualidad, existentes, meses);
            &&& suma_plan(p.0) + p.1 == restante
            &&& p.0.len() <= meses
            &&& restante >= 0 ==> p.1 >= 0
            &&& forall|k: int|
                0 <= k < p.0.len() ==> 0 < #[trigger] p.0[k].1 <= mensualidad && !existentes.contains(
                    p.0[k].0,
                )
        }),
    decreases meses,
{
    if meses == 0 || restante <= 0 {
    } else {
        let periodo = texto_periodo(anio, mes);
        let siguiente = mes_siguiente(anio, mes);
        if existentes.contains(periodo) {
            los_adelantos_conservan_el_sobrante(
                siguiente.0,
                siguiente.1,
                restante,
                mensualidad,
                existentes,
                (meses - 1) as nat,
            );
        } else {
            let aplicar = minimo(restante, mensualidad);
            los_adelantos_conservan_el_sobrante(
                siguiente.0,
                siguiente.1,
                restante - aplicar,
                mensualidad,
                existentes,
                (meses - 1) as nat,
            );
            let resto = plan_adelantos(
                siguiente.0,
                siguiente.1,
                restante - aplicar,
                mensualidad,
                existentes,
                (meses - 1) as nat,
            );
            let todo = seq![(periodo, aplicar)] + resto.0;
            assert(todo.drop_first() =~= resto.0);
            assert forall|k: int| 0 <= k < todo.len() implies 0 < #[trigger] todo[k].1 <= mensualidad
                && !existentes.contains(todo[k].0) by {
                if k > 0 {
                    assert(todo[k] == resto.0[k - 1]);
                }
            }
        }
    }
}

/// Estado de una deuda adelantada según lo que queda pendiente: Pagada si
/// la cubre del todo, Anticipada si no.
pub open spec fn estado_de_adelanto(pendiente: int) -> i32 {
    if pendiente <= 0 {
        EstadoDeuda::Pagada.id_de()
    } else {
        EstadoDeuda::Anticipada.id_de()
    }
}

/// Deuda que se persiste para un adelanto del representante: vence el
/// primer día del periodo y no es de un alumno en particular.
pub fn deuda_de_adelanto(representante_id: usize, a: &Adelanto) -> (r: Deuda)
    requires
        0 <= a.aplicado <= a.monto_deuda,
    ensures
        r.id == 0,
        r.representante_id == representante_id,
        r.monto_total == a.monto_deuda,
        r.monto_pendiente == a.monto_deuda - a.aplicado,
        r.periodo@ == a.periodo@,
        r.fecha_vencimiento@ == a.periodo@ + "-01"@,
        r.estado_id == estado_de_adelanto(a.monto_deuda - a.aplicado),
        r.alumno_id is None,
{
    let pendiente = a.monto_deuda - a.aplicado;
    let mut vencimiento = a.periodo.clone();
    vencimiento.append("-01");
    Deuda {
        id: 0,
        representante_id,
        monto_total: a.monto_deuda,
        monto_pendiente: pendiente,
        periodo: a.periodo.clone(),
        fecha_vencimiento: vencimiento,
        estado_id: if pendiente <= 0 {
            EstadoDeuda::Pagada.id()
        } else {
            EstadoDeuda::Anticipada.id()
        },
        alumno_id: None,
    }
}

/// Saldo y estado de una deuda al devolverle un monto aplicado: el saldo
/// vuelve a subir sin superar el total; Pendiente si quedó entera, Parcial
/// si queda algo y Pagada si no.
pub open spec fn saldo_restaurado(pendiente: int, aplicado: int, total: int) -> (int, i32) {
    let nuevo = minimo(pendiente + aplicado, total);
    (
        nuevo,
        if nuevo >= total {
            EstadoDeuda::Pendiente.id_de()
        } else if nuevo > 0 {
            EstadoDeuda::Parcial.id_de()
        } else {
            EstadoDeuda::Pagada.id_de()
        },
    )
}

/// Devuelve a una deuda el monto que se le había aplicado.
pub fn restaurar_saldo(pendiente: i64, aplicado: i64, total: i64) -> (r: (i64, i32))
    requires
        pendiente + aplicado >= i64::MIN,
    ensures
        r.0 == saldo_restaurado(pendiente as int, aplicado as int, total as int).0,
        r.1 == saldo_restaurado(pendiente as int, aplicado as int, total as int).1,
{
    let suma: i128 = pendiente as i128 + aplicado as i128;
    let nuevo: i64 = if suma <= total as i128 {
        suma as i64
    } else {
        total
    };
    let estado = if nuevo >= total {
        EstadoDeuda::Pendiente.id()
    } else if nuevo > 0 {
        EstadoDeuda::Parcial.id()
    } else {
        EstadoDeuda::Pagada.id()
    };
    (nuevo, estado)
}

/// Reversar una aplicación deshace el pago: una deuda cuyo saldo no supera
/// su total, tras recibir un monto positivo que no excede ese saldo, vuelve
/// al mismo saldo al restaurarlo, Pendiente si estaba entera y Parcial si no.
pub proof fn reversar_restaura_el_saldo(total: int, pendiente: int, aplicado: int)
    requires
        0 < aplicado <= pendiente <= total,
    ensures
        saldo_restaurado(pendiente - aplicado, aplicado, total) == (
            pendiente,
            if pendiente == total {
                EstadoDeuda::Pendiente.id_de()
            } else {
                EstadoDeuda::Parcial.id_de()
            },
        ),
{
}


/// Reversar un pago repartido por FIFO devuelve cada deuda tocada (cuyo
/// saldo no superaba su total) exactamente al saldo que tenía antes del pago.
pub proof fn reversar_un_pago_restaura_cada_deuda(monto: int, deudas: Seq<Deuda>)
    ensures
        forall|k: int, j: int|
            0 <= k < fifo(monto, deudas).0.len() && 0 <= j < deudas.len()
                && deudas[j].id == #[trigger] fifo(monto, deudas).0[k].deuda_id
                && #[trigger] deudas[j].monto_pendiente == fifo(monto, deudas).0[k].monto + fifo(
                monto,
                deudas,
            ).0[k].nuevo_pendiente && deudas[j].monto_pendiente <= deudas[j].monto_total
                ==> saldo_restaurado(
                fifo(monto, deudas).0[k].nuevo_pendiente as int,
                fifo(monto, deudas).0[k].monto as int,
                deudas[j].monto_total as int,
            ).0 == deudas[j].monto_pendiente,
{
    solo_la_ultima_deuda_puede_quedar_parcial(monto, deudas);
    let aps = fifo(monto, deudas).0;
    assert forall|k: int, j: int|
        0 <= k < aps.len() && 0 <= j < deudas.len() && deudas[j].id == #[trigger] aps[k].deuda_id
            && #[trigger] deudas[j].monto_pendiente == aps[k].monto + aps[k].nuevo_pendiente
            && deudas[j].monto_pendiente <= deudas[j].monto_total implies saldo_restaurado(
        aps[k].nuevo_pendiente as int,
        aps[k].monto as int,
        deudas[j].monto_total as int,
    ).0 == deudas[j].monto_pendiente by {
        assert(aps[k].monto > 0 && aps[k].nuevo_pendiente >= 0);
        reversar_restaura_el_saldo(
            deudas[j].monto_total as int,
            deudas[j].monto_pendiente as int,
            aps[k].monto as int,
        );
    }
}


proof fn lema_con_ceros_son_digitos(n: nat, ancho: int)
    ensures
        forall|i: int| 0 <= i < con_ceros(n, ancho).len() ==> es_digito(#[trigger] con_ceros(n, ancho)[i]),
{
    lema_decimal_nat(n);
    let c = ceros(ancho - decimal_nat(n).len());
    assert forall|i: int| 0 <= i < con_ceros(n, ancho).len() implies es_digito(
        #[trigger] con_ceros(n, ancho)[i],
    ) by {
        if i >= c.len() {
            assert(con_ceros(n, ancho)[i] == decimal_nat(n)[i - c.len()]);
        }
    }
}

/// La etiqueta de un periodo que escribe el motor (año no negativo, mes del
/// calendario) se lee como el nombre del mes y el año: "2026-08" es
/// "Agosto 2026".
pub proof fn la_etiqueta_de_un_periodo_generado_es_legible(anio: int, mes: int)
    requires
        0 <= anio,
        1 <= mes <= 12,
    ensures
        etiqueta_periodo(texto_periodo(anio, mes)) == nombre_de_mes(mes) + " "@ + con_ceros(
            anio as nat,
            4,
        ),
{
    let a = con_ceros(anio as nat, 4);
    let m = con_ceros(mes as nat, 2);
    let s = texto_periodo(anio, mes);
    let k = a.len() as int;
    assert(s == a + seq!['-'] + m);
    lema_con_ceros_son_digitos(anio as nat, 4);
    lema_con_ceros_son_digitos(mes as nat, 2);
    assert(s[k] == '-');
    assert forall|j: int| 0 <= j < s.len() && j != k implies s[j] != '-' by {
        if j < k {
            assert(s[j] == a[j]);
            assert(es_digito(a[j]));
        } else {
            assert(s[j] == m[j - k - 1]);
            assert(es_digito(m[j - k - 1]));
        }
    }
    assert(guion_unico(s, k));
    let kk = choose|kk: int| guion_unico(s, kk);
    if kk != k {
        assert(s[k] == '-');
    }
    assert(s.skip(k + 1) =~= m);
    assert(s.take(k) =~= a);
    if mes < 10 {
        assert(decimal_nat(mes as nat) == seq![crate::domain::texto::digito(mes)]);
        assert(m =~= seq!['0', crate::domain::texto::digito(mes)]);
    } else {
        let d = decimal_nat(mes as nat);
        assert(decimal_nat((mes / 10) as nat) == seq![crate::domain::texto::digito(1)]);
        assert(d == seq![crate::domain::texto::digito(1)].push(crate::domain::texto::digito(mes % 10)));
        assert(m =~= seq![crate::domain::texto::digito(1), crate::domain::texto::digito(mes - 10)]);
    }
    assert(numero_de_mes(m) == mes);
}

} // verus!
