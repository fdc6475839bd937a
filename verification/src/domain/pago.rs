//! Entidad de negocio `Pago`: dinero recibido de un representante, y la
//! etiqueta legible de un periodo "YYYY-MM".

use vstd::prelude::*;
use super::catalogos::{EstadoPago, MetodoPago};

verus! {

/// Pago recibido de un representante. Montos en centavos.
#[derive(PartialEq, Debug)]
pub struct Pago {
    pub id: usize,
    pub representante_id: usize,
    /// Monto total recibido en esta transacción, en centavos.
    pub monto_recibido: i64,
    /// Estado en `cat_estados_pago`.
    pub estado_id: i32,
    /// Método en `cat_metodos_pago`.
    pub metodo_id: i32,
    /// Fecha de registro del pago, formato "YYYY-MM-DD".
    pub fecha_pago: String,
}

/// Estado tipado de un identificador persistido: uno desconocido se lee como
/// pendiente de confirmar.
pub open spec fn estado_de_pago(estado_id: i32) -> EstadoPago {
    match EstadoPago::desde_id(estado_id) {
        Some(e) => e,
        None => EstadoPago::PendienteConfirmar,
    }
}

/// Método tipado de un identificador persistido: uno desconocido se lee como
/// efectivo.
pub open spec fn metodo_de_pago(metodo_id: i32) -> MetodoPago {
    match MetodoPago::desde_id(metodo_id) {
        Some(m) => m,
        None => MetodoPago::Efectivo,
    }
}

impl Pago {
    /// Estado del pago como enum tipado.
    pub fn estado(&self) -> (r: EstadoPago)
        ensures
            r == estado_de_pago(self.estado_id),
    {
        match EstadoPago::from_id(self.estado_id) {
            Some(e) => e,
            None => EstadoPago::PendienteConfirmar,
        }
    }

    /// Método de pago como enum tipado.
    pub fn metodo(&self) -> (r: MetodoPago)
        ensures
            r == metodo_de_pago(self.metodo_id),
    {
        match MetodoPago::from_id(self.metodo_id) {
            Some(m) => m,
            None => MetodoPago::Efectivo,
        }
    }
}

/// `k` es la posición del único guion de `s`.
pub open spec fn guion_unico(s: Seq<char>, k: int) -> bool {
    &&& 0 <= k < s.len()
    &&& s[k] == '-'
    &&& forall|j: int| 0 <= j < s.len() && j != k ==> s[j] != '-'
}

/// Número de mes que representan dos dígitos ("01" es 1); 0 si el texto no
/// son exactamente dos dígitos.
pub open spec fn numero_de_mes(m: Seq<char>) -> int {
    if m.len() == 2 && '0' <= m[0] <= '9' && '0' <= m[1] <= '9' {
        (m[0] as int - 48) * 10 + (m[1] as int - 48)
    } else {
        0
    }
}

/// Nombre del mes `n` (1..=12).
pub open spec fn nombre_de_mes(n: int) -> Seq<char> {
    if n == 1 {
        "Enero"@
    } else if n == 2 {
        "Febrero"@
    } else if n == 3 {
        "Marzo"@
    } else if n == 4 {
        "Abril"@
    } else if n == 5 {
        "Mayo"@
    } else if n == 6 {
        "Junio"@
    } else if n == 7 {
        "Julio"@
    } else if n == 8 {
        "Agosto"@
    } else if n == 9 {
        "Septiembre"@
    } else if n == 10 {
        "Octubre"@
    } else if n == 11 {
        "Noviembre"@
    } else {
        "Diciembre"@
    }
}

/// Etiqueta de un periodo: con un único guion y un mes "01".."12" detrás,
/// el nombre del mes, un espacio y lo que precede al guion; en otro caso el
/// mismo texto.
pub open spec fn etiqueta_periodo(s: Seq<char>) -> Seq<char> {
    if exists|k: int| guion_unico(s, k) {
        let k = choose|k: int| guion_unico(s, k);
        let n = numero_de_mes(s.skip(k + 1));
        if 1 <= n <= 12 {
            nombre_de_mes(n) + " "@ + s.take(k)
        } else {
            s
        }
    } else {
        s
    }
}

/// Nombre del mes de dos dígitos `m`, si es un mes.
fn nombre_mes(m: &str) -> (r: Option<&'static str>)
    ensures
        1 <= numero_de_mes(m@) <= 12 ==> (r matches Some(t) && t@ == nombre_de_mes(numero_de_mes(m@))),
        !(1 <= numero_de_mes(m@) <= 12) ==> r is None,
{
    if m.unicode_len() != 2 {
        return None;
    }
    let a = m.get_char(0);
    let b = m.get_char(1);
    if !('0' <= a && a <= '9' && '0' <= b && b <= '9') {
        return None;
    }
    let n: u32 = ((a as u32) - 48) * 10 + ((b as u32) - 48);
    assert(n == numero_de_mes(m@));
    match n {
        1 => Some("Enero"),
        2 => Some("Febrero"),
        3 => Some("Marzo"),
        4 => Some("Abril"),
        5 => Some("Mayo"),
        6 => Some("Junio"),
        7 => Some("Julio"),
        8 => Some("Agosto"),
        9 => Some("Septiembre"),
        10 => Some("Octubre"),
        11 => Some("Noviembre"),
        12 => Some("Diciembre"),
        _ => None,
    }
}

/// Etiqueta legible del periodo: "2026-08" es "Agosto 2026".
pub fn etiqueta_de_periodo(periodo: &str) -> (r: String)
    ensures
        r@ == etiqueta_periodo(periodo@),
{
    let s = Ghost(periodo@);
    let n = periodo.unicode_len();
    let mut primero: Option<usize> = None;
    let mut otro = false;
    let mut i: usize = 0;
    while i < n
        invariant
            n == s@.len(),
            s@ == periodo@,
            0 <= i <= n,
            primero is None ==> forall|j: int| 0 <= j < i ==> s@[j] != '-',
            primero matches Some(k) ==> k < i && s@[k as int] == '-' && (forall|j: int|
                0 <= j < k ==> s@[j] != '-'),
            (primero matches Some(k) && !otro) ==> forall|j: int| primero->0 < j < i ==> s@[j] != '-',
            otro ==> (primero is Some && exists|j: int| primero->0 < j < i && s@[j] == '-'),
        decreases n - i,
    {
        let c = periodo.get_char(i);
        if c == '-' {
            match primero {
                None => {
                    primero = Some(i);
                },
                Some(k) => {
                    otro = true;
                },
            }
        }
        i = i + 1;
    }
    match primero {
        Some(k) if !otro => {
            assert(guion_unico(s@, k as int));
            let mes = periodo.substring_char(k + 1, n);
            assert(mes@ =~= s@.skip(k + 1));
            match nombre_mes(mes) {
                Some(nombre) => {
                    let anio = periodo.substring_char(0, k);
                    let mut r = String::from_str(nombre);
                    r.append(" ");
                    r.append(anio);
                    proof {
                        let kk = choose|kk: int| guion_unico(s@, kk);
                        assert(kk == k as int);
                    }
                    assert(r@ =~= etiqueta_periodo(periodo@));
                    r
                },
                None => {
                    proof {
                        let kk = choose|kk: int| guion_unico(s@, kk);
                        assert(kk == k as int);
                    }
                    String::from_str(periodo)
                },
            }
        },
        _ => {
            assert(!exists|kk: int| guion_unico(s@, kk)) by {
                if otro {
                    let k = primero->0;
                    let j = choose|j: int| k < j < n && s@[j] == '-';
                    assert forall|kk: int| !guion_unico(s@, kk) by {
                        if kk == k as int {
                            assert(s@[j] == '-');
                        } else {
                            assert(s@[k as int] == '-');
                        }
                    }
                }
            }
            String::from_str(periodo)
        },
    }
}

impl Clone for Pago {
    fn clone(&self) -> (r: Self)
        ensures
            r == *self,
    {
        Pago {
            id: self.id,
            representante_id: self.representante_id,
            monto_recibido: self.monto_recibido,
            estado_id: self.estado_id,
            metodo_id: self.metodo_id,
            fecha_pago: self.fecha_pago.clone(),
        }
    }
}

} // verus!
