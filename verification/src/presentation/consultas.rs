//! Búsqueda, filtrado y cifras del panel sobre los datos ya cargados.

use vstd::prelude::*;
use crate::application::dto::{AlumnoVista, DeudaVista, PagoVista};
use crate::application::error::ErrorAplicacion;
use crate::domain::alumno::{Alumno, texto_edad};
use crate::domain::catalogos::EstadoDeuda;
use crate::domain::cintas::Cintas;
use crate::domain::deuda::abonado;
use crate::domain::fecha::{Fecha, hoy};
use crate::domain::representante::Representante;
use crate::domain::monto::{
    comas_a_puntos, es_digito, limites_sin_espacios, monto_de_texto,
    monto_desde_texto_normalizado, recortado, sin_signo, solo_digitos, valor_digitos,
};

verus! {

/// Columnas por las que se busca o filtra la tabla de alumnos.
#[derive(Debug, Clone, Copy, PartialEq, Eq, Structural)]
pub enum Columnas {
    Id,
    Nombre,
    Edad,
    FechaNacimiento,
    Representante,
    Telefono,
    Cinta,
}

/// Lo que devuelve `str::to_lowercase` para el texto (minúsculas Unicode).
pub uninterp spec fn minusculas(texto: Seq<char>) -> Seq<char>;

/// Llama a `str::to_lowercase`. Su resultado depende solo del texto; se le
/// da el nombre `minusculas` sin afirmar nada más de él.
#[verifier::external_body]
pub(crate) fn a_minusculas(texto: &str) -> (r: String)
    ensures
        r@ == minusculas(texto@),
{
    texto.to_lowercase()
}

/// `aguja` aparece en `pajar` a partir de la posición `i`.
pub open spec fn aparece_en(pajar: Seq<char>, aguja: Seq<char>, i: int) -> bool {
    0 <= i && i + aguja.len() <= pajar.len() && pajar.subrange(i, i + aguja.len()) == aguja
}

/// `aguja` aparece en algún lugar de `pajar` (el texto vacío aparece siempre).
pub open spec fn contiene(pajar: Seq<char>, aguja: Seq<char>) -> bool {
    exists|i: int| aparece_en(pajar, aguja, i)
}

/// ¿Aparece `aguja` dentro de `pajar`?
pub fn contiene_texto(pajar: &str, aguja: &str) -> (r: bool)
    ensures
        r == contiene(pajar@, aguja@),
{
    let lp = pajar.unicode_len();
    let la = aguja.unicode_len();
    if la > lp {
        return false;
    }
    let mut i: usize = 0;
    while i <= lp - la
        invariant
            lp == pajar@.len(),
            la == aguja@.len(),
            la <= lp,
            i <= lp - la + 1,
            forall|k: int| 0 <= k < i ==> !aparece_en(pajar@, aguja@, k),
        decreases lp - la + 1 - i,
    {
        let mut j: usize = 0;
        let mut iguales = true;
        while j < la
            invariant
                lp == pajar@.len(),
                la == aguja@.len(),
                i + la <= lp,
                j <= la,
                iguales == (forall|t: int| 0 <= t < j ==> pajar@[i + t] == aguja@[t]),
            decreases la - j,
        {
            if pajar.get_char(i + j) != aguja.get_char(j) {
                iguales = false;
            }
            j = j + 1;
        }
        if iguales {
            assert(pajar@.subrange(i as int, i + la) =~= aguja@);
            assert(aparece_en(pajar@, aguja@, i as int));
            return true;
        }
        proof {
            if aparece_en(pajar@, aguja@, i as int) {
                assert forall|t: int| 0 <= t < la implies pajar@[i + t] == aguja@[t] by {
                    assert(pajar@.subrange(i as int, i + la)[t] == pajar@[i + t]);
                }
            }
        }
        i = i + 1;
    }
    proof {
        if contiene(pajar@, aguja@) {
            let k = choose|k: int| aparece_en(pajar@, aguja@, k);
            assert(!aparece_en(pajar@, aguja@, k));
        }
    }
    false
}

/// Identificador que expresa el texto: un `+` opcional y al menos un dígito,
/// con valor representable en `usize`.
pub open spec fn id_de_texto(t: Seq<char>) -> Option<int> {
    let d = sin_signo(t);
    if d.len() > 0 && solo_digitos(d) && valor_digitos(d) <= usize::MAX {
        Some(valor_digitos(d))
    } else {
        None
    }
}

proof fn lema_valor_prefijo(s: Seq<char>, i: int)
    requires
        solo_digitos(s),
        0 <= i <= s.len(),
    ensures
        0 <= valor_digitos(s.take(i)) <= valor_digitos(s),
    decreases s.len(),
{
    if s.len() > 0 {
        if i == s.len() {
            assert(s.take(i) =~= s);
        }
        assert(solo_digitos(s.drop_last()));
        lema_valor_prefijo(s.drop_last(), 0);
        if i < s.len() {
            lema_valor_prefijo(s.drop_last(), i);
            assert(s.drop_last().take(i) =~= s.take(i));
        }
        assert(es_digito(s[s.len() - 1]));
    } else {
        assert(s.take(i) =~= s);
    }
}

/// Lee el identificador de un texto sin espacios en los extremos.
pub fn interpretar_id(texto: &str) -> (r: Option<usize>)
    ensures
        r == (match id_de_texto(recortado(texto@)) {
            Some(v) => Some(v as usize),
            None => None,
        }),
{
    let (a, b) = limites_sin_espacios(texto);
    let ghost t = recortado(texto@);
    let mut i = a;
    if i < b && texto.get_char(i) == '+' {
        i = i + 1;
    }
    let inicio = i;
    let ghost d = sin_signo(t);
    assert(d =~= texto@.subrange(inicio as int, b as int));
    if inicio == b {
        return None;
    }
    let mut valor: u128 = 0;
    while i < b
        invariant
            inicio <= i <= b <= texto@.len(),
            d == texto@.subrange(inicio as int, b as int),
            d == sin_signo(recortado(texto@)),
            solo_digitos(d.take(i - inicio)),
            valor == valor_digitos(d.take(i - inicio)),
            valor <= usize::MAX,
        decreases b - i,
    {
        let c = texto.get_char(i);
        assert(c == d[i - inicio]);
        if c < '0' || c > '9' {
            assert(!solo_digitos(d));
            return None;
        }
        assert(d.take(i + 1 - inicio).drop_last() =~= d.take(i - inicio));
        assert(d.take(i + 1 - inicio).last() == c);
        assert(solo_digitos(d.take(i + 1 - inicio)));
        let nuevo = valor * 10 + (c as u128 - 48);
        if nuevo > usize::MAX as u128 {
            proof {
                if solo_digitos(d) {
                    lema_valor_prefijo(d, i + 1 - inicio);
                }
            }
            return None;
        }
        valor = nuevo;
        i = i + 1;
    }
    assert(d.take(i - inicio) =~= d);
    Some(valor as usize)
}


/// ¿Coincide la fila con la consulta (ya en minúsculas) en la columna? Las
/// columnas sin búsqueda por texto coinciden siempre.
pub open spec fn coincide(v: AlumnoVista, col: Columnas, q: Seq<char>) -> bool {
    match col {
        Columnas::Nombre => contiene(minusculas(v.alumno.nombre@), q),
        Columnas::Representante => contiene(minusculas(v.nombre_representante@), q),
        Columnas::Telefono => contiene(v.telefono_representante@, q),
        _ => true,
    }
}

/// Filas que devuelve una búsqueda: todas con la consulta vacía; por
/// identificador exacto en la columna Id (ninguna si la consulta no es un
/// número); si no, las que contienen la consulta sin distinguir mayúsculas.
pub open spec fn resultado_busqueda(alumnos: Seq<AlumnoVista>, col: Columnas, query: Seq<char>) -> Seq<
    AlumnoVista,
> {
    let q = minusculas(query);
    if q.len() == 0 {
        alumnos
    } else if col == Columnas::Id {
        match id_de_texto(recortado(q)) {
            Some(id) => alumnos.filter(|v: AlumnoVista| v.alumno.id == id),
            None => Seq::empty(),
        }
    } else {
        alumnos.filter(|v: AlumnoVista| coincide(v, col, q))
    }
}

fn alumnos_con_id(alumnos: &[AlumnoVista], id: usize) -> (r: Vec<AlumnoVista>)
    ensures
        r@ == alumnos@.filter(|v: AlumnoVista| v.alumno.id == id),
{
    let ghost pred = |v: AlumnoVista| v.alumno.id == id;
    let mut r: Vec<AlumnoVista> = Vec::new();
    let mut i: usize = 0;
    proof {
        reveal(Seq::filter);
        assert(alumnos@.take(0) =~= Seq::<AlumnoVista>::empty());
    }
    while i < alumnos.len()
        invariant
            i <= alumnos@.len(),
            pred == (|v: AlumnoVista| v.alumno.id == id),
            r@ == alumnos@.take(i as int).filter(pred),
        decreases alumnos@.len() - i,
    {
        proof {
            reveal(Seq::filter);
            assert(alumnos@.take(i + 1).drop_last() =~= alumnos@.take(i as int));
            assert(alumnos@.take(i + 1).last() == alumnos@[i as int]);
        }
        if alumnos[i].alumno.id == id {
            r.push(alumnos[i].clone());
        }
        i = i + 1;
    }
    assert(alumnos@.take(i as int) =~= alumnos@);
    r
}

fn coincide_fila(v: &AlumnoVista, col: Columnas, q: &str) -> (r: bool)
    ensures
        r == coincide(*v, col, q@),
{
    match col {
        Columnas::Nombre => contiene_texto(a_minusculas(v.alumno.nombre.as_str()).as_str(), q),
        Columnas::Representante => contiene_texto(
            a_minusculas(v.nombre_representante.as_str()).as_str(),
            q,
        ),
        Columnas::Telefono => contiene_texto(v.telefono_representante.as_str(), q),
        _ => true,
    }
}

fn alumnos_que_coinciden(alumnos: &[AlumnoVista], col: Columnas, q: &str) -> (r: Vec<AlumnoVista>)
    ensures
        r@ == alumnos@.filter(|v: AlumnoVista| coincide(v, col, q@)),
{
    let ghost pred = |v: AlumnoVista| coincide(v, col, q@);
    let mut r: Vec<AlumnoVista> = Vec::new();
    let mut i: usize = 0;
    proof {
        reveal(Seq::filter);
        assert(alumnos@.take(0) =~= Seq::<AlumnoVista>::empty());
    }
    while i < alumnos.len()
        invariant
            i <= alumnos@.len(),
            pred == (|v: AlumnoVista| coincide(v, col, q@)),
            r@ == alumnos@.take(i as int).filter(pred),
        decreases alumnos@.len() - i,
    {
        proof {
            reveal(Seq::filter);
            assert(alumnos@.take(i + 1).drop_last() =~= alumnos@.take(i as int));
            assert(alumnos@.take(i + 1).last() == alumnos@[i as int]);
        }
        if coincide_fila(&alumnos[i], col, q) {
            r.push(alumnos[i].clone());
        }
        i = i + 1;
    }
    assert(alumnos@.take(i as int) =~= alumnos@);
    r
}

/// Busca alumnos por columna.
pub fn buscar_alumnos(alumnos: &[AlumnoVista], col: Columnas, query: &str) -> (r: Vec<AlumnoVista>)
    ensures
        r@ == resultado_busqueda(alumnos@, col, query@),
{
    let q = a_minusculas(query);
    if q.unicode_len() == 0 {
        let mut todos: Vec<AlumnoVista> = Vec::new();
        let mut i: usize = 0;
        while i < alumnos.len()
            invariant
                i <= alumnos@.len(),
                todos@ == alumnos@.take(i as int),
            decreases alumnos@.len() - i,
        {
            todos.push(alumnos[i].clone());
            assert(todos@ =~= alumnos@.take(i + 1));
            i = i + 1;
        }
        assert(alumnos@.take(i as int) =~= alumnos@);
        return todos;
    }
    if col == Columnas::Id {
        match interpretar_id(q.as_str()) {
            Some(id) => {
                let r = alumnos_con_id(alumnos, id);
                proof {
                    let s = id_de_texto(recortado(q@)).unwrap();
                    let d = sin_signo(recortado(q@));
                    lema_valor_prefijo(d, d.len() as int);
                    assert(d.take(d.len() as int) =~= d);
                    assert(s == id as int);
                    assert((|v: AlumnoVista| v.alumno.id == id) =~= (|v: AlumnoVista|
                        v.alumno.id == s));
                }
                r
            },
            None => Vec::new(),
        }
    } else {
        let r = alumnos_que_coinciden(alumnos, col, q.as_str());
        proof {
            assert((|v: AlumnoVista| coincide(v, col, q@)) =~= (|v: AlumnoVista|
                coincide(v, col, minusculas(query@))));
        }
        r
    }
}

/// Filas de la cinta que nombra el filtro: "Azul (todos)" y "Marrón (todos)"
/// agrupan los grados de ese color; cualquier otro valor es una etiqueta.
pub open spec fn cinta_coincide(rango: int, valor: Seq<char>) -> bool {
    let c = Cintas::cinta_de_rango(rango);
    if valor == "Azul (todos)"@ {
        c == Cintas::Azul1 || c == Cintas::Azul2
    } else if valor == "Marrón (todos)"@ {
        c == Cintas::Marron1 || c == Cintas::Marron2 || c == Cintas::Marron3
    } else {
        c.texto_label() == valor
    }
}

/// ¿Pasa la fila el filtro de la columna en `hoy`? La edad se compara con
/// su texto ("N años"); la cinta, además, exige la misma rallita.
pub open spec fn pasa_filtro(v: AlumnoVista, col: Columnas, valor: Seq<char>, solo_rallita: bool, hoy: Fecha) -> bool {
    match col {
        Columnas::Edad => texto_edad(v.alumno.fecha_de_nacimiento@, hoy) == valor,
        Columnas::Cinta => cinta_coincide(v.alumno.rango as int, valor) && v.alumno.rallita == solo_rallita,
        _ => true,
    }
}

/// Filas que deja el filtro: todas si el valor está vacío.
pub open spec fn resultado_filtro(
    base: Seq<AlumnoVista>,
    col: Columnas,
    valor: Seq<char>,
    solo_rallita: bool,
    hoy: Fecha,
) -> Seq<AlumnoVista> {
    if valor.len() == 0 {
        base
    } else {
        base.filter(|v: AlumnoVista| pasa_filtro(v, col, valor, solo_rallita, hoy))
    }
}

pub(crate) fn es_texto(a: &str, b: &str) -> (r: bool)
    ensures
        r == (a@ == b@),
{
    let r = a.unicode_len() == b.unicode_len() && contiene_texto(a, b);
    proof {
        if r {
            let i = choose|i: int| aparece_en(a@, b@, i);
            assert(i == 0);
            assert(a@.subrange(0, a@.len() as int) =~= a@);
        }
        if a@ == b@ {
            assert(a@.subrange(0, b@.len() as int) =~= b@);
            assert(aparece_en(a@, b@, 0));
        }
    }
    r
}

fn pasa_filtro_fila(v: &AlumnoVista, col: Columnas, valor: &str, solo_rallita: bool, hoy: Fecha) -> (r: bool)
    requires
        hoy.valida(),
    ensures
        r == pasa_filtro(*v, col, valor@, solo_rallita, hoy),
{
    match col {
        Columnas::Edad => es_texto(v.alumno.edad(hoy).as_str(), valor),
        Columnas::Cinta => {
            let c = Cintas::from_rango(v.alumno.rango);
            let cinta = if es_texto(valor, "Azul (todos)") {
                c == Cintas::Azul1 || c == Cintas::Azul2
            } else if es_texto(valor, "Marrón (todos)") {
                c == Cintas::Marron1 || c == Cintas::Marron2 || c == Cintas::Marron3
            } else {
                es_texto(c.label(), valor)
            };
            cinta && v.alumno.rallita == solo_rallita
        },
        _ => true,
    }
}

/// Filtra una lista ya buscada por cinta o edad en la fecha `hoy`.
pub fn filtrar_lista_en(
    base: Vec<AlumnoVista>,
    col: Columnas,
    valor: String,
    solo_rallita: bool,
    hoy: Fecha,
) -> (r: Vec<AlumnoVista>)
    requires
        hoy.valida(),
    ensures
        r@ == resultado_filtro(base@, col, valor@, solo_rallita, hoy),
{
    if valor.as_str().unicode_len() == 0 {
        return base;
    }
    let ghost pred = |v: AlumnoVista| pasa_filtro(v, col, valor@, solo_rallita, hoy);
    let mut r: Vec<AlumnoVista> = Vec::new();
    let mut i: usize = 0;
    proof {
        reveal(Seq::filter);
        assert(base@.take(0) =~= Seq::<AlumnoVista>::empty());
    }
    while i < base.len()
        invariant
            i <= base@.len(),
            hoy.valida(),
            pred == (|v: AlumnoVista| pasa_filtro(v, col, valor@, solo_rallita, hoy)),
            r@ == base@.take(i as int).filter(pred),
        decreases base@.len() - i,
    {
        proof {
            reveal(Seq::filter);
            assert(base@.take(i + 1).drop_last() =~= base@.take(i as int));
            assert(base@.take(i + 1).last() == base@[i as int]);
        }
        if pasa_filtro_fila(&base[i], col, valor.as_str(), solo_rallita, hoy) {
            r.push(base[i].clone());
        }
        i = i + 1;
    }
    assert(base@.take(i as int) =~= base@);
    r
}

/// Filtra una lista ya buscada por cinta o edad a la fecha local de hoy, que
/// da el reloj.
pub fn filtrar_lista(base: Vec<AlumnoVista>, col: Columnas, valor: String, solo_rallita: bool) -> (r: Vec<
    AlumnoVista,
>)
    ensures
        exists|f: Fecha| f.valida() && r@ == resultado_filtro(base@, col, valor@, solo_rallita, f),
{
    let f = hoy();
    filtrar_lista_en(base, col, valor, solo_rallita, f)
}

/// Alumno de la primera fila con el identificador.
pub fn get_alumno_by_id(alumnos: &[AlumnoVista], id: usize) -> (r: Alumno)
    requires
        exists|k: int| 0 <= k < alumnos@.len() && alumnos@[k].alumno.id == id,
    ensures
        exists|k: int|
            0 <= k < alumnos@.len() && alumnos@[k].alumno.id == id && r == alumnos@[k].alumno
                && forall|j: int| 0 <= j < k ==> alumnos@[j].alumno.id != id,
{
    let mut i: usize = 0;
    while i < alumnos.len()
        invariant
            i <= alumnos@.len(),
            forall|j: int| 0 <= j < i ==> alumnos@[j].alumno.id != id,
            exists|k: int| 0 <= k < alumnos@.len() && alumnos@[k].alumno.id == id,
        decreases alumnos@.len() - i,
    {
        if alumnos[i].alumno.id == id {
            return alumnos[i].alumno.clone();
        }
        i = i + 1;
    }
    proof {
        let k = choose|k: int| 0 <= k < alumnos@.len() && alumnos@[k].alumno.id == id;
        assert(alumnos@[k].alumno.id != id);
    }
    alumnos[0].alumno.clone()
}

/// Monto de mensualidad escrito en el formulario: sin espacios en los
/// extremos y con la coma como punto decimal.
pub fn monto_de_formulario(texto: &str) -> (r: Result<i64, ErrorAplicacion>)
    ensures
        match monto_de_texto(comas_a_puntos(recortado(texto@))) {
            Some(m) => r == Ok::<i64, ErrorAplicacion>(m as i64),
            None => crate::application::error::es_validacion(r, "El monto no es un número válido."@),
        },
{
    match monto_desde_texto_normalizado(texto) {
        Some(m) => Ok(m),
        None => Err(ErrorAplicacion::Validacion(String::from_str("El monto no es un número válido."))),
    }
}

/// Cantidad de deudas en el estado.
pub open spec fn cantidad_en_estado(deudas: Seq<DeudaVista>, estado: EstadoDeuda) -> int
    decreases deudas.len(),
{
    if deudas.len() == 0 {
        0
    } else {
        cantidad_en_estado(deudas.drop_last(), estado) + if deudas.last().estado == estado {
            1int
        } else {
            0
        }
    }
}

fn contar_en_estado(deudas: &[DeudaVista], estado: EstadoDeuda) -> (r: usize)
    ensures
        r == cantidad_en_estado(deudas@, estado),
{
    let mut n: usize = 0;
    let mut i: usize = 0;
    while i < deudas.len()
        invariant
            i <= deudas@.len(),
            n == cantidad_en_estado(deudas@.take(i as int), estado),
            n <= i,
        decreases deudas@.len() - i,
    {
        assert(deudas@.take(i + 1).drop_last() =~= deudas@.take(i as int));
        if deudas[i].estado == estado {
            n = n + 1;
        }
        i = i + 1;
    }
    assert(deudas@.take(i as int) =~= deudas@);
    n
}

/// Representantes con la deuda del periodo Pagada.
pub fn reps_pagados(deudas: &[DeudaVista]) -> (r: usize)
    ensures
        r == cantidad_en_estado(deudas@, EstadoDeuda::Pagada),
{
    contar_en_estado(deudas, EstadoDeuda::Pagada)
}

/// Representantes con abono parcial.
pub fn reps_parciales(deudas: &[DeudaVista]) -> (r: usize)
    ensures
        r == cantidad_en_estado(deudas@, EstadoDeuda::Parcial),
{
    contar_en_estado(deudas, EstadoDeuda::Parcial)
}

/// Representantes sin abono alguno.
pub fn reps_pendientes(deudas: &[DeudaVista]) -> (r: usize)
    ensures
        r == cantidad_en_estado(deudas@, EstadoDeuda::Pendiente),
{
    contar_en_estado(deudas, EstadoDeuda::Pendiente)
}

/// Suma de los montos totales de las deudas.
pub open spec fn suma_totales(deudas: Seq<DeudaVista>) -> int
    decreases deudas.len(),
{
    if deudas.len() == 0 {
        0
    } else {
        suma_totales(deudas.drop_last()) + deudas.last().deuda.monto_total
    }
}

/// Monto total de las deudas del periodo, en centavos.
pub fn total_deudas_periodo(deudas: &[DeudaVista]) -> (r: i128)
    ensures
        r == suma_totales(deudas@),
{
    let mut total: i128 = 0;
    let mut i: usize = 0;
    while i < deudas.len()
        invariant
            i <= deudas@.len(),
            total == suma_totales(deudas@.take(i as int)),
            -(i as int) * 0x8000_0000_0000_0000 <= total <= (i as int) * 0x8000_0000_0000_0000,
        decreases deudas@.len() - i,
    {
        assert(deudas@.take(i + 1).drop_last() =~= deudas@.take(i as int));
        total = total + deudas[i].deuda.monto_total as i128;
        i = i + 1;
    }
    assert(deudas@.take(i as int) =~= deudas@);
    total
}

/// Suma de lo abonado de cada deuda.
pub open spec fn suma_abonada(deudas: Seq<DeudaVista>) -> int
    decreases deudas.len(),
{
    if deudas.len() == 0 {
        0
    } else {
        suma_abonada(deudas.drop_last()) + abonado(
            deudas.last().deuda.monto_total as int,
            deudas.last().deuda.monto_pendiente as int,
        )
    }
}

/// Monto total abonado en el periodo, en centavos.
pub fn total_abonado_periodo(deudas: &[DeudaVista]) -> (r: u128)
    ensures
        r == suma_abonada(deudas@),
{
    let mut total: u128 = 0;
    let mut i: usize = 0;
    while i < deudas.len()
        invariant
            i <= deudas@.len(),
            total == suma_abonada(deudas@.take(i as int)),
            total <= (i as int) * 0xFFFF_FFFF_FFFF_FFFF,
        decreases deudas@.len() - i,
    {
        assert(deudas@.take(i + 1).drop_last() =~= deudas@.take(i as int));
        let d = &deudas[i].deuda;
        let diferencia: i128 = d.monto_total as i128 - d.monto_pendiente as i128;
        if diferencia > 0 {
            total = total + diferencia as u128;
        }
        i = i + 1;
    }
    assert(deudas@.take(i as int) =~= deudas@);
    total
}

/// Suma de lo recibido en los pagos.
pub open spec fn suma_recibida(pagos: Seq<PagoVista>) -> int
    decreases pagos.len(),
{
    if pagos.len() == 0 {
        0
    } else {
        suma_recibida(pagos.drop_last()) + pagos.last().pago.monto_recibido
    }
}

/// Total recibido en los pagos del periodo, en centavos.
pub fn total_del_mes(pagos: &[PagoVista]) -> (r: i128)
    ensures
        r == suma_recibida(pagos@),
{
    let mut total: i128 = 0;
    let mut i: usize = 0;
    while i < pagos.len()
        invariant
            i <= pagos@.len(),
            total == suma_recibida(pagos@.take(i as int)),
            -(i as int) * 0x8000_0000_0000_0000 <= total <= (i as int) * 0x8000_0000_0000_0000,
        decreases pagos@.len() - i,
    {
        assert(pagos@.take(i + 1).drop_last() =~= pagos@.take(i as int));
        total = total + pagos[i].pago.monto_recibido as i128;
        i = i + 1;
    }
    assert(pagos@.take(i as int) =~= pagos@);
    total
}


/// ¿Tiene el representante algún alumno activo entre las filas?
pub open spec fn tiene_alumno_activo(alumnos: Seq<AlumnoVista>, representante_id: usize) -> bool {
    exists|k: int|
        0 <= k < alumnos.len() && (#[trigger] alumnos[k]).alumno.representante_id == representante_id
            && alumnos[k].alumno.estado_id == 1
}

/// Representantes activos que se quedaron sin alumnos activos: los que hay
/// que desactivar en cascada.
pub open spec fn sin_alumnos_activos(reps: Seq<Representante>, alumnos: Seq<AlumnoVista>) -> Seq<usize> {
    reps.filter(|r: Representante| r.estado_id == 1 && !tiene_alumno_activo(alumnos, r.id)).map_values(
        |r: Representante| r.id,
    )
}

fn con_alumno_activo(alumnos: &[AlumnoVista], representante_id: usize) -> (r: bool)
    ensures
        r == tiene_alumno_activo(alumnos@, representante_id),
{
    let mut k: usize = 0;
    while k < alumnos.len()
        invariant
            k <= alumnos@.len(),
            forall|j: int|
                0 <= j < k ==> !((#[trigger] alumnos@[j]).alumno.representante_id == representante_id
                    && alumnos@[j].alumno.estado_id == 1),
        decreases alumnos@.len() - k,
    {
        if alumnos[k].alumno.representante_id == representante_id && alumnos[k].alumno.estado_id == 1 {
            assert(alumnos@[k as int].alumno.estado_id == 1);
            return true;
        }
        k = k + 1;
    }
    false
}

/// Identificadores de los representantes activos sin alumnos activos, en el
/// orden de la lista.
pub fn representantes_sin_alumnos_activos(
    representantes: &[Representante],
    alumnos: &[AlumnoVista],
) -> (r: Vec<usize>)
    ensures
        r@ == sin_alumnos_activos(representantes@, alumnos@),
{
    let ghost pred = |r: Representante| r.estado_id == 1 && !tiene_alumno_activo(alumnos@, r.id);
    let mut r: Vec<usize> = Vec::new();
    let mut i: usize = 0;
    proof {
        reveal(Seq::filter);
        assert(representantes@.take(0) =~= Seq::<Representante>::empty());
        assert(representantes@.take(0).filter(pred).map_values(|x: Representante| x.id) =~= r@);
    }
    while i < representantes.len()
        invariant
            i <= representantes@.len(),
            pred == (|r: Representante| r.estado_id == 1 && !tiene_alumno_activo(alumnos@, r.id)),
            r@ == representantes@.take(i as int).filter(pred).map_values(|x: Representante| x.id),
        decreases representantes@.len() - i,
    {
        let rep = &representantes[i];
        let ghost antes = representantes@.take(i as int).filter(pred);
        proof {
            reveal(Seq::filter);
            assert(representantes@.take(i + 1).drop_last() =~= representantes@.take(i as int));
            assert(representantes@.take(i + 1).last() == representantes@[i as int]);
        }
        if rep.estado_id == 1 && !con_alumno_activo(alumnos, rep.id) {
            r.push(rep.id);
            assert(antes.push(*rep).map_values(|x: Representante| x.id) =~= antes.map_values(
                |x: Representante| x.id,
            ).push(rep.id));
        }
        i = i + 1;
    }
    assert(representantes@.take(i as int) =~= representantes@);
    r
}

/// Alumnos activos del representante.
pub open spec fn activos_del_representante(alumnos: Seq<AlumnoVista>, representante_id: usize) -> Seq<usize> {
    alumnos.filter(
        |v: AlumnoVista| v.alumno.representante_id == representante_id && v.alumno.estado_id == 1,
    ).map_values(|v: AlumnoVista| v.alumno.id)
}

/// Identificadores de los alumnos activos del representante, en el orden de
/// la lista: los que se desactivan junto con él.
pub fn alumnos_activos_de(alumnos: &[AlumnoVista], representante_id: usize) -> (r: Vec<usize>)
    ensures
        r@ == activos_del_representante(alumnos@, representante_id),
{
    let ghost pred = |v: AlumnoVista| v.alumno.representante_id == representante_id && v.alumno.estado_id == 1;
    let mut r: Vec<usize> = Vec::new();
    let mut i: usize = 0;
    proof {
        reveal(Seq::filter);
        assert(alumnos@.take(0) =~= Seq::<AlumnoVista>::empty());
        assert(alumnos@.take(0).filter(pred).map_values(|v: AlumnoVista| v.alumno.id) =~= r@);
    }
    while i < alumnos.len()
        invariant
            i <= alumnos@.len(),
            pred == (|v: AlumnoVista| v.alumno.representante_id == representante_id && v.alumno.estado_id == 1),
            r@ == alumnos@.take(i as int).filter(pred).map_values(|v: AlumnoVista| v.alumno.id),
        decreases alumnos@.len() - i,
    {
        let v = &alumnos[i];
        let ghost antes = alumnos@.take(i as int).filter(pred);
        proof {
            reveal(Seq::filter);
            assert(alumnos@.take(i + 1).drop_last() =~= alumnos@.take(i as int));
            assert(alumnos@.take(i + 1).last() == alumnos@[i as int]);
        }
        if v.alumno.representante_id == representante_id && v.alumno.estado_id == 1 {
            r.push(v.alumno.id);
            assert(antes.push(*v).map_values(|x: AlumnoVista| x.alumno.id) =~= antes.map_values(
                |x: AlumnoVista| x.alumno.id,
            ).push(v.alumno.id));
        }
        i = i + 1;
    }
    assert(alumnos@.take(i as int) =~= alumnos@);
    r
}

} // verus!
