//! Representación decimal de enteros y utilidades de texto compartidas.

use vstd::prelude::*;

verus! {

/// Carácter del dígito decimal `d` (0..=9).
pub open spec fn digito(d: int) -> char {
    (d + 48) as char
}

/// Dígitos decimales de un natural, sin ceros a la izquierda.
pub open spec fn decimal_nat(n: nat) -> Seq<char>
    decreases n,
{
    if n < 10 {
        seq![digito(n as int)]
    } else {
        decimal_nat(n / 10).push(digito((n % 10) as int))
    }
}

/// Representación decimal de un entero, con `-` delante si es negativo.
pub open spec fn decimal(n: int) -> Seq<char> {
    if n < 0 {
        seq!['-'] + decimal_nat((-n) as nat)
    } else {
        decimal_nat(n as nat)
    }
}

/// Texto de un único dígito decimal.
pub fn literal_digito(d: u64) -> (r: &'static str)
    requires
        d < 10,
    ensures
        r@ == seq![digito(d as int)],
{
    proof {
        reveal_strlit("0");
        reveal_strlit("1");
        reveal_strlit("2");
        reveal_strlit("3");
        reveal_strlit("4");
        reveal_strlit("5");
        reveal_strlit("6");
        reveal_strlit("7");
        reveal_strlit("8");
        reveal_strlit("9");
    }
    let r = if d == 0 {
        "0"
    } else if d == 1 {
        "1"
    } else if d == 2 {
        "2"
    } else if d == 3 {
        "3"
    } else if d == 4 {
        "4"
    } else if d == 5 {
        "5"
    } else if d == 6 {
        "6"
    } else if d == 7 {
        "7"
    } else if d == 8 {
        "8"
    } else {
        "9"
    };
    assert(r@ =~= seq![digito(d as int)]);
    r
}

/// Agrega al final de `s` los dígitos decimales de `n`.
pub fn agregar_natural(s: &mut String, n: u64)
    ensures
        final(s)@ == old(s)@ + decimal_nat(n as nat),
    decreases n,
{
    if n >= 10 {
        agregar_natural(s, n / 10);
    }
    let d = literal_digito(n % 10);
    s.append(d);
    proof {
        if n >= 10 {
            assert(decimal_nat(n as nat) == decimal_nat((n / 10) as nat).push(digito((n % 10) as int)));
        }
    }
    assert(final(s)@ =~= old(s)@ + decimal_nat(n as nat)) by {
        if n >= 10 {
            assert(decimal_nat(n as nat) == decimal_nat((n / 10) as nat).push(digito((n % 10) as int)));
        }
    }
}

/// Agrega al final de `s` la representación decimal de `n`.
pub fn agregar_entero(s: &mut String, n: i64)
    ensures
        final(s)@ == old(s)@ + decimal(n as int),
{
    if n < 0 {
        s.append("-");
        let m: u64 = ((-(n + 1)) as u64) + 1;
        agregar_natural(s, m);
        proof {
            reveal_strlit("-");
        }
        assert(final(s)@ =~= old(s)@ + decimal(n as int));
    } else {
        agregar_natural(s, n as u64);
    }
}

/// Representación decimal de `n`.
pub fn texto_entero(n: i64) -> (r: String)
    ensures
        r@ == decimal(n as int),
{
    let mut s = String::new();
    agregar_entero(&mut s, n);
    assert(s@ =~= decimal(n as int));
    s
}


/// `a` precede a `b` en el orden lexicográfico por punto de código, y `k`
/// es la posición en la que se decide: hasta ahí coinciden, y en `k` o bien
/// `a` tiene un carácter menor o bien `a` terminó y `b` no.
pub open spec fn menor_en(a: Seq<char>, b: Seq<char>, k: int) -> bool {
    &&& 0 <= k <= a.len()
    &&& k <= b.len()
    &&& forall|i: int| 0 <= i < k ==> #[trigger] a[i] == b[i]
    &&& (k < a.len() && k < b.len() && (a[k] as int) < (b[k] as int)) || (k == a.len() && k
        < b.len())
}

/// `a` precede estrictamente a `b` en el orden lexicográfico por punto de
/// código (el mismo que el de los bytes UTF-8).
pub open spec fn menor_texto(a: Seq<char>, b: Seq<char>) -> bool {
    exists|k: int| menor_en(a, b, k)
}

/// Ningún texto precede a otro que lo precede.
pub proof fn lema_menor_asimetrico(a: Seq<char>, b: Seq<char>)
    ensures
        !(menor_texto(a, b) && menor_texto(b, a)),
{
    if menor_texto(a, b) && menor_texto(b, a) {
        let k1 = choose|k: int| menor_en(a, b, k);
        let k2 = choose|k: int| menor_en(b, a, k);
        if k1 < k2 {
            assert(b[k1] == a[k1]);
        } else if k2 < k1 {
            assert(a[k2] == b[k2]);
        }
    }
}

/// El orden de textos es transitivo.
pub proof fn lema_menor_transitivo(a: Seq<char>, b: Seq<char>, c: Seq<char>)
    requires
        menor_texto(a, b),
        menor_texto(b, c),
    ensures
        menor_texto(a, c),
{
    let k1 = choose|k: int| menor_en(a, b, k);
    let k2 = choose|k: int| menor_en(b, c, k);
    if k1 <= k2 {
        if k1 < k2 {
            assert(b[k1] == c[k1]);
        }
        assert(menor_en(a, c, k1));
    } else {
        assert(a[k2] == b[k2]);
        assert(menor_en(a, c, k2));
    }
}

proof fn lema_menor_total_desde(a: Seq<char>, b: Seq<char>, k: int)
    requires
        0 <= k <= a.len(),
        k <= b.len(),
        forall|i: int| 0 <= i < k ==> #[trigger] a[i] == b[i],
        a != b,
    ensures
        menor_texto(a, b) || menor_texto(b, a),
    decreases a.len() - k,
{
    if k == a.len() && k == b.len() {
        assert(a =~= b);
    } else if k == a.len() {
        assert(menor_en(a, b, k));
    } else if k == b.len() {
        assert(menor_en(b, a, k));
    } else if a[k] != b[k] {
        if (a[k] as int) < (b[k] as int) {
            assert(menor_en(a, b, k));
        } else {
            assert(menor_en(b, a, k));
        }
    } else {
        lema_menor_total_desde(a, b, k + 1);
    }
}

/// Dos textos distintos siempre están ordenados uno antes que el otro.
pub proof fn lema_menor_total(a: Seq<char>, b: Seq<char>)
    ensures
        a == b || menor_texto(a, b) || menor_texto(b, a),
{
    if a != b {
        lema_menor_total_desde(a, b, 0);
    }
}

/// ¿Precede `a` estrictamente a `b`?
pub fn es_menor(a: &str, b: &str) -> (r: bool)
    ensures
        r == menor_texto(a@, b@),
{
    let la = a.unicode_len();
    let lb = b.unicode_len();
    let mut i: usize = 0;
    while i < la && i < lb
        invariant
            la == a@.len(),
            lb == b@.len(),
            i <= la,
            i <= lb,
            forall|j: int| 0 <= j < i ==> #[trigger] a@[j] == b@[j],
        decreases la - i,
    {
        let ca = a.get_char(i);
        let cb = b.get_char(i);
        if ca != cb {
            let r = ca < cb;
            proof {
                if r {
                    assert(menor_en(a@, b@, i as int));
                } else if menor_texto(a@, b@) {
                    let k = choose|k: int| menor_en(a@, b@, k);
                    if k > i {
                        assert(a@[i as int] == b@[i as int]);
                    }
                }
            }
            return r;
        }
        i = i + 1;
    }
    let r = la < lb;
    proof {
        if r {
            assert(menor_en(a@, b@, i as int));
        } else if menor_texto(a@, b@) {
            let k = choose|k: int| menor_en(a@, b@, k);
        }
    }
    r
}

} // verus!
