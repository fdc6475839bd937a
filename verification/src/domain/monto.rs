//! Montos de dinero en centavos y su forma de texto ("1500", "1500.5",
//! "1500.05"), tal como se guardan en los ajustes.

use vstd::prelude::*;
use super::texto::{decimal_nat, digito, agregar_natural, literal_digito};

verus! {

/// Dígito decimal.
pub open spec fn es_digito(c: char) -> bool {
    '0' <= c <= '9'
}

/// Todos los caracteres son dígitos decimales.
pub open spec fn solo_digitos(s: Seq<char>) -> bool {
    forall|i: int| 0 <= i < s.len() ==> es_digito(#[trigger] s[i])
}

/// Valor de una secuencia de dígitos decimales.
pub open spec fn valor_digitos(s: Seq<char>) -> int
    decreases s.len(),
{
    if s.len() == 0 {
        0
    } else {
        valor_digitos(s.drop_last()) * 10 + (s.last() as int - 48)
    }
}

/// `k` cierra el tramo inicial de dígitos de `t`.
pub open spec fn fin_digitos(t: Seq<char>, k: int) -> bool {
    &&& 0 <= k <= t.len()
    &&& forall|i: int| 0 <= i < k ==> es_digito(#[trigger] t[i])
    &&& (k == t.len() || !es_digito(t[k]))
}

/// El texto sin un `+` inicial.
pub open spec fn sin_signo(s: Seq<char>) -> Seq<char> {
    if s.len() > 0 && s[0] == '+' {
        s.drop_first()
    } else {
        s
    }
}

/// Centavos que expresan a lo sumo dos dígitos decimales tras el punto.
pub open spec fn centavos_de_fraccion(f: Seq<char>) -> int {
    if f.len() == 0 {
        0
    } else if f.len() == 1 {
        valor_digitos(f) * 10
    } else {
        valor_digitos(f)
    }
}

/// Centavos que expresa `t` (ya sin signo) cuyo tramo inicial de dígitos
/// termina en `k`: `entero[.fraccion]` con a lo sumo dos dígitos de fracción
/// y al menos un dígito en total, si el monto cabe en `i64`.
pub open spec fn monto_con_fin(t: Seq<char>, k: int) -> Option<int> {
    let entero = valor_digitos(t.take(k));
    let fraccion = t.skip(k + 1);
    let v = if k == t.len() {
        if k >= 1 {
            Some(entero * 100)
        } else {
            None
        }
    } else if t[k] == '.' && solo_digitos(fraccion) && fraccion.len() <= 2 && k + fraccion.len() >= 1 {
        Some(entero * 100 + centavos_de_fraccion(fraccion))
    } else {
        None
    };
    match v {
        Some(x) => if x <= i64::MAX {
            Some(x)
        } else {
            None
        },
        None => None,
    }
}

/// Centavos que expresa un texto de la forma `[+]entero[.fraccion]`, con a lo
/// sumo dos dígitos de fracción y al menos un dígito en total; `None` para
/// cualquier otro texto o si el monto no cabe en `i64`.
///
/// Un monto se guarda en centavos enteros, así que se rechazan a propósito
/// las formas que sólo tienen sentido para números en coma flotante: la
/// notación con exponente ("1e3", "1.5E2"), "inf", "infinity" y "NaN", el
/// signo negativo y más de dos dígitos decimales ("10.005").
pub open spec fn monto_de_texto(s: Seq<char>) -> Option<int> {
    let t = sin_signo(s);
    monto_con_fin(t, choose|k: int| fin_digitos(t, k))
}

/// Espacio en blanco según la propiedad Unicode White_Space.
pub open spec fn es_espacio(c: char) -> bool {
    let n = c as int;
    ||| 9 <= n <= 13
    ||| n == 32
    ||| n == 0x85
    ||| n == 0xA0
    ||| n == 0x1680
    ||| 0x2000 <= n <= 0x200A
    ||| n == 0x2028
    ||| n == 0x2029
    ||| n == 0x202F
    ||| n == 0x205F
    ||| n == 0x3000
}

/// `[a, b)` es lo que queda de `s` al quitar los espacios de ambos extremos.
pub open spec fn recorte(s: Seq<char>, a: int, b: int) -> bool {
    &&& 0 <= a <= b <= s.len()
    &&& forall|i: int| 0 <= i < a ==> es_espacio(#[trigger] s[i])
    &&& forall|i: int| b <= i < s.len() ==> es_espacio(#[trigger] s[i])
    &&& a < b ==> !es_espacio(s[a]) && !es_espacio(s[b - 1])
}

/// El texto sin los espacios de ambos extremos.
pub open spec fn recortado(s: Seq<char>) -> Seq<char> {
    let (a, b) = choose|a: int, b: int| recorte(s, a, b);
    s.subrange(a, b)
}

/// El texto con cada coma reemplazada por un punto.
pub open spec fn comas_a_puntos(s: Seq<char>) -> Seq<char> {
    s.map_values(|c: char| if c == ',' { '.' } else { c })
}

/// Texto de un monto no negativo: la parte entera y, si hay centavos, un
/// punto y uno o dos dígitos sin ceros finales.
pub open spec fn texto_monto(c: nat) -> Seq<char> {
    let e = c / 100;
    let f = c % 100;
    decimal_nat(e) + if f == 0 {
        Seq::<char>::empty()
    } else if f % 10 == 0 {
        seq!['.', digito((f / 10) as int)]
    } else {
        seq!['.', digito((f / 10) as int), digito((f % 10) as int)]
    }
}

proof fn lema_saturacion(v: int, d: int, tope: int)
    requires
        v >= 0,
        0 <= d <= 9,
        tope > 0,
    ensures
        (if (if v < tope { v } else { tope }) * 10 + d < tope {
            (if v < tope { v } else { tope }) * 10 + d
        } else {
            tope
        }) == (if v * 10 + d < tope {
            v * 10 + d
        } else {
            tope
        }),
{
    if v >= tope {
        assert(v * 10 + d >= tope) by (nonlinear_arith)
            requires
                v >= tope,
                tope > 0,
                d >= 0,
        ;
        assert(tope * 10 + d >= tope) by (nonlinear_arith)
            requires
                tope > 0,
                d >= 0,
        ;
    }
}

proof fn lema_fin_digitos_unico(t: Seq<char>, k1: int, k2: int)
    requires
        fin_digitos(t, k1),
        fin_digitos(t, k2),
    ensures
        k1 == k2,
{
    if k1 < k2 {
        assert(es_digito(t[k1]));
    } else if k2 < k1 {
        assert(es_digito(t[k2]));
    }
}

proof fn lema_recorte_unico(s: Seq<char>, a1: int, b1: int, a2: int, b2: int)
    requires
        recorte(s, a1, b1),
        recorte(s, a2, b2),
    ensures
        s.subrange(a1, b1) == s.subrange(a2, b2),
{
    if a1 < b1 {
        if a2 < b2 {
            if a2 > a1 {
                assert(es_espacio(s[a1]));
            }
            if a1 > a2 {
                assert(es_espacio(s[a2]));
            }
            if b2 < b1 {
                assert(es_espacio(s[b1 - 1]));
            }
            if b1 < b2 {
                assert(es_espacio(s[b2 - 1]));
            }
        } else {
            if a1 < a2 {
                assert(es_espacio(s[a1]));
            } else {
                assert(es_espacio(s[a1]));
            }
        }
    } else if a2 < b2 {
        if a2 < a1 {
            assert(es_espacio(s[a2]));
        } else {
            assert(es_espacio(s[a2]));
        }
    } else {
        assert(s.subrange(a1, b1) =~= s.subrange(a2, b2));
    }
}

/// Espacio en blanco según la propiedad Unicode White_Space.
pub fn es_espacio_en_blanco(c: char) -> (r: bool)
    ensures
        r == es_espacio(c),
{
    let n = c as u32;
    (9 <= n && n <= 13) || n == 32 || n == 0x85 || n == 0xA0 || n == 0x1680 || (0x2000 <= n
        && n <= 0x200A) || n == 0x2028 || n == 0x2029 || n == 0x202F || n == 0x205F || n
        == 0x3000
}

/// Posiciones `[a, b)` del texto sin los espacios de ambos extremos.
pub fn limites_sin_espacios(s: &str) -> (r: (usize, usize))
    ensures
        recorte(s@, r.0 as int, r.1 as int),
        s@.subrange(r.0 as int, r.1 as int) == recortado(s@),
{
    let n = s.unicode_len();
    let mut a: usize = 0;
    while a < n && es_espacio_en_blanco(s.get_char(a))
        invariant
            n == s@.len(),
            a <= n,
            forall|i: int| 0 <= i < a ==> es_espacio(#[trigger] s@[i]),
        decreases n - a,
    {
        a = a + 1;
    }
    let mut b: usize = n;
    while b > a && es_espacio_en_blanco(s.get_char(b - 1))
        invariant
            n == s@.len(),
            a <= b <= n,
            forall|i: int| 0 <= i < a ==> es_espacio(#[trigger] s@[i]),
            a < n ==> !es_espacio(s@[a as int]),
            forall|i: int| b <= i < n ==> es_espacio(#[trigger] s@[i]),
        decreases b - a,
    {
        b = b - 1;
    }
    proof {
        assert(recorte(s@, a as int, b as int));
        let (a2, b2) = choose|a2: int, b2: int| recorte(s@, a2, b2);
        lema_recorte_unico(s@, a as int, b as int, a2, b2);
    }
    (a, b)
}

/// Dígito decimal.
fn es_caracter_digito(c: char) -> (r: bool)
    ensures
        r == es_digito(c),
{
    '0' <= c && c <= '9'
}

/// Los caracteres `[a, b)` de `s`; con `coma_es_punto`, cada coma como punto.
pub open spec fn tramo(s: Seq<char>, a: int, b: int, coma_es_punto: bool) -> Seq<char> {
    if coma_es_punto {
        comas_a_puntos(s.subrange(a, b))
    } else {
        s.subrange(a, b)
    }
}

/// Valor de una secuencia de dígitos, saturado en `tope`.
pub open spec fn saturado(v: int, tope: int) -> int {
    if v < tope {
        v
    } else {
        tope
    }
}

/// Un monto sobre 2^63 centavos no cabe en `i64`.
pub open spec fn tope_de_monto() -> int {
    9223372036854775808
}

fn caracter_de_tramo(s: &str, a: usize, b: usize, i: usize, coma_es_punto: bool) -> (c: char)
    requires
        a <= i < b <= s@.len(),
    ensures
        c == tramo(s@, a as int, b as int, coma_es_punto)[i - a],
{
    let c = s.get_char(i);
    if coma_es_punto && c == ',' {
        '.'
    } else {
        c
    }
}

/// Recorre el tramo inicial de dígitos desde `inicio` y devuelve dónde
/// termina y su valor saturado.
fn leer_digitos(s: &str, a: usize, b: usize, coma_es_punto: bool, inicio: usize) -> (r: (
    usize,
    u128,
))
    requires
        a <= inicio <= b <= s@.len(),
    ensures
        inicio <= r.0 <= b,
        fin_digitos(
            tramo(s@, a as int, b as int, coma_es_punto).subrange(inicio - a, b - a),
            r.0 - inicio,
        ),
        r.1 == saturado(
            valor_digitos(
                tramo(s@, a as int, b as int, coma_es_punto).subrange(inicio - a, b - a).take(
                    r.0 - inicio,
                ),
            ),
            tope_de_monto(),
        ),
{
    let ghost u = tramo(s@, a as int, b as int, coma_es_punto);
    let ghost t = u.subrange(inicio - a, b - a);
    let tope: u128 = 9223372036854775808;
    let mut entero: u128 = 0;
    let mut i: usize = inicio;
    assert(t.take(0) =~= Seq::<char>::empty());
    while i < b && es_caracter_digito(caracter_de_tramo(s, a, b, i, coma_es_punto))
        invariant
            a <= inicio <= i <= b <= s@.len(),
            u == tramo(s@, a as int, b as int, coma_es_punto),
            t == u.subrange(inicio - a, b - a),
            u.len() == b - a,
            forall|j: int| 0 <= j < i - inicio ==> es_digito(#[trigger] t[j]),
            entero == saturado(valor_digitos(t.take(i - inicio)), tope as int),
            valor_digitos(t.take(i - inicio)) >= 0,
            entero <= tope,
            tope == 9223372036854775808,
        decreases b - i,
    {
        let c = caracter_de_tramo(s, a, b, i, coma_es_punto);
        let d = (c as u32 - 48) as u128;
        proof {
            let k = i - inicio;
            assert(t[k] == c);
            assert(t.take(k + 1).drop_last() =~= t.take(k));
            assert(t.take(k + 1).last() == c);
            lema_saturacion(valor_digitos(t.take(k)), d as int, tope as int);
        }
        assert(entero * 10 + d <= 92233720368547758089);
        entero = if entero * 10 + d < tope {
            entero * 10 + d
        } else {
            tope
        };
        i = i + 1;
    }
    proof {
        if i < b {
            assert(t[i - inicio] == u[i - a]);
        }
    }
    (i, entero)
}

/// Centavos de la fracción `[desde, b)` del tramo: a lo sumo dos dígitos.
fn leer_fraccion(s: &str, a: usize, b: usize, coma_es_punto: bool, desde: usize) -> (r: Option<
    u128,
>)
    requires
        a <= desde <= b <= s@.len(),
    ensures
        (r is Some) == (solo_digitos(tramo(s@, a as int, b as int, coma_es_punto).subrange(desde - a, b - a))
            && b - desde <= 2),
        r matches Some(c) ==> c as int == centavos_de_fraccion(
            tramo(s@, a as int, b as int, coma_es_punto).subrange(desde - a, b - a),
        ),
        r matches Some(c) ==> c <= 99,
{
    let ghost u = tramo(s@, a as int, b as int, coma_es_punto);
    let ghost f = u.subrange(desde - a, b - a);
    let resto = b - desde;
    if resto > 2 {
        return None;
    }
    if resto == 0 {
        return Some(0);
    }
    let c1 = caracter_de_tramo(s, a, b, desde, coma_es_punto);
    assert(f[0] == c1);
    if !es_caracter_digito(c1) {
        return None;
    }
    if resto == 1 {
        assert(f.drop_last() =~= Seq::<char>::empty());
        assert(valor_digitos(f) == c1 as int - 48) by {
            reveal_with_fuel(valor_digitos, 2);
        }
        return Some((c1 as u32 - 48) as u128 * 10);
    }
    let c2 = caracter_de_tramo(s, a, b, desde + 1, coma_es_punto);
    assert(f[1] == c2);
    if !es_caracter_digito(c2) {
        return None;
    }
    proof {
        assert(f.drop_last() =~= seq![c1]);
        assert(seq![c1].drop_last() =~= Seq::<char>::empty());
        assert(valor_digitos(seq![c1]) == c1 as int - 48) by {
            reveal_with_fuel(valor_digitos, 2);
        }
        assert(solo_digitos(f));
    }
    Some((c1 as u32 - 48) as u128 * 10 + (c2 as u32 - 48) as u128)
}

/// Lee un monto en centavos de los caracteres `[a, b)` de `s`; con
/// `coma_es_punto` cada coma cuenta como punto decimal.
fn leer_monto(s: &str, a: usize, b: usize, coma_es_punto: bool) -> (r: Option<i64>)
    requires
        a <= b <= s@.len(),
    ensures
        r == (match monto_de_texto(tramo(s@, a as int, b as int, coma_es_punto)) {
            Some(v) => Some(v as i64),
            None => None,
        }),
{
    let ghost u = tramo(s@, a as int, b as int, coma_es_punto);
    let mut inicio = a;
    if a < b && caracter_de_tramo(s, a, b, a, coma_es_punto) == '+' {
        inicio = a + 1;
    }
    let ghost t = sin_signo(u);
    assert(t =~= u.subrange(inicio - a, b - a));
    let (i, entero) = leer_digitos(s, a, b, coma_es_punto, inicio);
    let k = i - inicio;
    proof {
        let kk = choose|kk: int| fin_digitos(t, kk);
        lema_fin_digitos_unico(t, k as int, kk);
    }
    let r = leer_resto(s, a, b, coma_es_punto, inicio, i, entero);
    r
}

/// Completa la lectura de un monto cuyo tramo de dígitos `[inicio, i)` vale
/// `entero` (saturado).
#[verifier::rlimit(30)]
fn leer_resto(s: &str, a: usize, b: usize, coma_es_punto: bool, inicio: usize, i: usize, entero: u128) -> (r: Option<i64>)
    requires
        a <= inicio <= i <= b <= s@.len(),
        fin_digitos(tramo(s@, a as int, b as int, coma_es_punto).subrange(inicio - a, b - a), i - inicio),
        entero == saturado(
            valor_digitos(tramo(s@, a as int, b as int, coma_es_punto).subrange(inicio - a, b - a).take(i - inicio)),
            tope_de_monto(),
        ),
    ensures
        r == (match monto_con_fin(tramo(s@, a as int, b as int, coma_es_punto).subrange(inicio - a, b - a), i - inicio) {
            Some(v) => Some(v as i64),
            None => None,
        }),
{
    let ghost u = tramo(s@, a as int, b as int, coma_es_punto);
    let ghost t = u.subrange(inicio - a, b - a);
    let ghost ent = valor_digitos(t.take(i - inicio));
    let k = i - inicio;
    let tope: u128 = 9223372036854775808;
    assert(ent >= 0) by {
        lema_valor_no_negativo(t.take(i - inicio));
    }
    if i == b {
        if k >= 1 && entero < tope && entero * 100 <= 9223372036854775807 {
            return Some((entero * 100) as i64);
        } else {
            assert(ent >= tope ==> ent * 100 > i64::MAX);
            return None;
        }
    }
    let c = caracter_de_tramo(s, a, b, i, coma_es_punto);
    assert(t[k as int] == c);
    if c != '.' {
        return None;
    }
    assert(t.skip(k + 1) =~= u.subrange(i + 1 - a, b - a));
    let ghost f = t.skip(k + 1);
    assert(f.len() == b - (i + 1));
    assert(t[k as int] == '.');
    match leer_fraccion(s, a, b, coma_es_punto, i + 1) {
        None => {
            assert(!(solo_digitos(f) && f.len() <= 2));
            assert(monto_con_fin(t, k as int) is None);
            None
        },
        Some(centavos) => {
            assert(solo_digitos(f) && f.len() <= 2);
            assert(centavos == centavos_de_fraccion(f));
            if k + (b - (i + 1)) < 1 {
                return None;
            }
            if entero < tope && entero * 100 + centavos <= 9223372036854775807 {
                assert(entero == ent);
                assert(monto_con_fin(t, k as int) == Some(ent * 100 + centavos_de_fraccion(f)));
                Some((entero * 100 + centavos) as i64)
            } else {
                assert(ent >= tope ==> ent * 100 + centavos > i64::MAX);
                None
            }
        },
    }
}

proof fn lema_valor_no_negativo(s: Seq<char>)
    ensures
        valor_digitos(s) >= 0 || !solo_digitos(s),
    decreases s.len(),
{
    if s.len() > 0 {
        lema_valor_no_negativo(s.drop_last());
    }
}

/// Monto en centavos que expresa el texto, sin normalizarlo
/// (`monto_de_texto`: sin exponente, sin "inf" ni "NaN" y con a lo sumo dos
/// decimales).
pub fn monto_desde_texto(s: &str) -> (r: Option<i64>)
    ensures
        r == (match monto_de_texto(s@) {
            Some(v) => Some(v as i64),
            None => None,
        }),
{
    let n = s.unicode_len();
    assert(tramo(s@, 0, n as int, false) =~= s@);
    leer_monto(s, 0, n, false)
}

/// Monto en centavos que expresa el texto escrito por una persona: sin los
/// espacios de los extremos y con la coma como punto decimal.
pub fn monto_desde_texto_normalizado(s: &str) -> (r: Option<i64>)
    ensures
        r == (match monto_de_texto(comas_a_puntos(recortado(s@))) {
            Some(v) => Some(v as i64),
            None => None,
        }),
{
    let (a, b) = limites_sin_espacios(s);
    leer_monto(s, a, b, true)
}

/// Los dígitos de un natural son dígitos, al menos uno, y valen el natural.
pub proof fn lema_decimal_nat(n: nat)
    ensures
        solo_digitos(decimal_nat(n)),
        decimal_nat(n).len() >= 1,
        valor_digitos(decimal_nat(n)) == n,
    decreases n,
{
    if n >= 10 {
        lema_decimal_nat(n / 10);
        let s = decimal_nat(n);
        assert(s.drop_last() =~= decimal_nat(n / 10));
        assert(s.last() == digito((n % 10) as int));
        assert(digito((n % 10) as int) as int == (n % 10) + 48);
        assert(n == (n / 10) * 10 + n % 10);
    } else {
        let s = decimal_nat(n);
        assert(s.drop_last() =~= Seq::<char>::empty());
        assert(digito(n as int) as int == n + 48);
        reveal_with_fuel(valor_digitos, 2);
    }
}

/// Texto de un monto no negativo en centavos.
pub fn texto_de_monto(c: i64) -> (r: String)
    requires
        c >= 0,
    ensures
        r@ == texto_monto(c as nat),
{
    let e = (c / 100) as u64;
    let f = (c % 100) as u64;
    let mut s = String::new();
    agregar_natural(&mut s, e);
    if f != 0 {
        s.append(".");
        s.append(literal_digito(f / 10));
        if f % 10 != 0 {
            s.append(literal_digito(f % 10));
        }
    }
    proof {
        reveal_strlit(".");
    }
    assert(s@ =~= texto_monto(c as nat));
    s
}

/// Leer el texto de un monto devuelve ese mismo monto: lo que se guarda en
/// los ajustes se recupera sin cambios.
pub proof fn leer_el_texto_de_un_monto_lo_recupera(c: int)
    requires
        0 <= c <= i64::MAX,
    ensures
        monto_de_texto(texto_monto(c as nat)) == Some(c),
{
    let e = (c / 100) as nat;
    let f = c % 100;
    let d = decimal_nat(e);
    lema_decimal_nat(e);
    let s = texto_monto(c as nat);
    let k = d.len() as int;
    assert(s.take(k) =~= d);
    assert(sin_signo(s) == s) by {
        assert(es_digito(d[0]));
        assert(s[0] == d[0]);
    }
    assert(fin_digitos(s, k)) by {
        assert forall|i: int| 0 <= i < k implies es_digito(#[trigger] s[i]) by {
            assert(s[i] == d[i]);
        }
        if k < s.len() {
            assert(s[k] == '.');
        }
    }
    let kk = choose|kk: int| fin_digitos(s, kk);
    lema_fin_digitos_unico(s, k, kk);
    let fr = s.skip(k + 1);
    if f == 0 {
        assert(s =~= d);
    } else if f % 10 == 0 {
        assert(fr =~= seq![digito(f / 10)]);
        assert(fr.drop_last() =~= Seq::<char>::empty());
        assert(valor_digitos(fr) == f / 10) by {
            reveal_with_fuel(valor_digitos, 2);
        }
    } else {
        assert(fr =~= seq![digito(f / 10), digito(f % 10)]);
        assert(fr.drop_last() =~= seq![digito(f / 10)]);
        assert(seq![digito(f / 10)].drop_last() =~= Seq::<char>::empty());
        assert(valor_digitos(fr) == (f / 10) * 10 + f % 10) by {
            reveal_with_fuel(valor_digitos, 3);
        }
    }
}

/// Todo texto tiene un tramo inicial de dígitos (quizá vacío).
pub proof fn lema_existe_fin_digitos(t: Seq<char>)
    ensures
        exists|k: int| fin_digitos(t, k),
    decreases t.len(),
{
    if t.len() == 0 {
        assert(fin_digitos(t, 0));
    } else {
        let p = t.drop_last();
        lema_existe_fin_digitos(p);
        let k0 = choose|k: int| fin_digitos(p, k);
        assert forall|i: int| 0 <= i < k0 implies es_digito(#[trigger] t[i]) by {
            assert(t[i] == p[i]);
        }
        if k0 < p.len() {
            assert(t[k0] == p[k0]);
            assert(fin_digitos(t, k0));
        } else if es_digito(t.last()) {
            assert(fin_digitos(t, t.len() as int));
        } else {
            assert(fin_digitos(t, p.len() as int));
        }
    }
}

/// Todo monto que expresa un texto es no negativo.
pub proof fn lema_monto_no_negativo(s: Seq<char>)
    ensures
        monto_de_texto(s) matches Some(v) ==> 0 <= v <= i64::MAX,
{
    let t = sin_signo(s);
    lema_existe_fin_digitos(t);
    if exists|k: int| fin_digitos(t, k) {
        let k = choose|k: int| fin_digitos(t, k);
        let e = t.take(k);
        assert(solo_digitos(e));
        lema_valor_no_negativo(e);
        let f = t.skip(k + 1);
        if solo_digitos(f) {
            lema_valor_no_negativo(f);
        }
    }
}

} // verus!
