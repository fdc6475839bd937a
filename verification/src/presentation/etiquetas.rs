//! Textos y clases de estilo con los que la interfaz muestra estados y tipos.

use vstd::prelude::*;
use crate::application::dto::HistorialPagoVista;
use crate::domain::catalogos::{EstadoDeuda, MetodoPago};

verus! {

/// Etiqueta y clases de la insignia del estado de una deuda.
pub fn badge_estado_deuda(estado: &EstadoDeuda) -> (r: (&'static str, &'static str))
    ensures
        r.0@ == match *estado {
            EstadoDeuda::Pagada => "Pagado"@,
            EstadoDeuda::Parcial => "Parcial"@,
            EstadoDeuda::Pendiente => "Pendiente"@,
            EstadoDeuda::Anticipada => "Anticipada"@,
            EstadoDeuda::Anulada => "Anulada"@,
        },
        r.1@ == match *estado {
            EstadoDeuda::Pagada => "bg-emerald-900 text-emerald-300"@,
            EstadoDeuda::Parcial => "bg-amber-900 text-amber-300"@,
            EstadoDeuda::Pendiente => "bg-red-900 text-red-300"@,
            EstadoDeuda::Anticipada => "bg-blue-900 text-blue-300"@,
            EstadoDeuda::Anulada => "bg-gray-800 text-gray-400"@,
        },
{
    match estado {
        EstadoDeuda::Pagada => ("Pagado", "bg-emerald-900 text-emerald-300"),
        EstadoDeuda::Parcial => ("Parcial", "bg-amber-900 text-amber-300"),
        EstadoDeuda::Pendiente => ("Pendiente", "bg-red-900 text-red-300"),
        EstadoDeuda::Anticipada => ("Anticipada", "bg-blue-900 text-blue-300"),
        EstadoDeuda::Anulada => ("Anulada", "bg-gray-800 text-gray-400"),
    }
}

/// Clase de color de la barra de progreso según el estado.
pub fn clase_barra(estado: &EstadoDeuda) -> (r: &'static str)
    ensures
        r@ == match *estado {
            EstadoDeuda::Pagada => "bg-emerald-500"@,
            EstadoDeuda::Parcial => "bg-amber-500"@,
            EstadoDeuda::Pendiente => "bg-red-500"@,
            EstadoDeuda::Anticipada => "bg-blue-500"@,
            EstadoDeuda::Anulada => "bg-gray-500"@,
        },
{
    match estado {
        EstadoDeuda::Pagada => "bg-emerald-500",
        EstadoDeuda::Parcial => "bg-amber-500",
        EstadoDeuda::Pendiente => "bg-red-500",
        EstadoDeuda::Anticipada => "bg-blue-500",
        EstadoDeuda::Anulada => "bg-gray-500",
    }
}

/// Etiqueta de un método de pago en los selectores.
pub fn metodo_label(m: &MetodoPago) -> (r: &'static str)
    ensures
        r@ == m.texto_label(),
{
    m.label()
}

/// Texto de un tipo de historial; "Otro" si el identificador no es del
/// catálogo.
pub open spec fn texto_tipo_historial(tipo_id: i32) -> Seq<char> {
    if tipo_id == 1 {
        "Deuda Creada"@
    } else if tipo_id == 2 {
        "Pago Registrado"@
    } else if tipo_id == 3 {
        "Abono Aplicado"@
    } else if tipo_id == 4 {
        "Ajuste Manual"@
    } else if tipo_id == 5 {
        "Anulación"@
    } else {
        "Otro"@
    }
}

/// Etiqueta de un tipo de historial.
pub fn tipo_historial_label(tipo_id: i32) -> (r: &'static str)
    ensures
        r@ == texto_tipo_historial(tipo_id),
{
    match tipo_id {
        1 => "Deuda Creada",
        2 => "Pago Registrado",
        3 => "Abono Aplicado",
        4 => "Ajuste Manual",
        5 => "Anulación",
        _ => "Otro",
    }
}

/// Clases de la insignia de un tipo de historial.
pub open spec fn clase_tipo_historial(tipo_id: i32) -> Seq<char> {
    if tipo_id == 1 {
        "bg-blue-900 text-blue-300"@
    } else if tipo_id == 2 {
        "bg-emerald-900 text-emerald-300"@
    } else if tipo_id == 3 {
        "bg-amber-900 text-amber-300"@
    } else if tipo_id == 4 {
        "bg-purple-900 text-purple-300"@
    } else if tipo_id == 5 {
        "bg-red-900 text-red-300"@
    } else {
        "bg-gray-800 text-gray-400"@
    }
}

/// Clases de la insignia de un tipo de historial.
pub fn tipo_historial_clase(tipo_id: i32) -> (r: &'static str)
    ensures
        r@ == clase_tipo_historial(tipo_id),
{
    match tipo_id {
        1 => "bg-blue-900 text-blue-300",
        2 => "bg-emerald-900 text-emerald-300",
        3 => "bg-amber-900 text-amber-300",
        4 => "bg-purple-900 text-purple-300",
        5 => "bg-red-900 text-red-300",
        _ => "bg-gray-800 text-gray-400",
    }
}

/// El registro es la creación de una deuda adelantada: tipo DeudaCreada y
/// una observación que empieza por "Adelanto".
pub open spec fn es_registro_de_adelanto(v: HistorialPagoVista) -> bool {
    &&& v.historial.tipo_id == 1
    &&& v.historial.observacion@.len() >= 8
    &&& v.historial.observacion@.take(8) == "Adelanto"@
}

/// ¿Es el registro la creación de una deuda adelantada?
pub fn es_adelanto(vista: &HistorialPagoVista) -> (r: bool)
    ensures
        r == es_registro_de_adelanto(*vista),
{
    if vista.historial.tipo_id != 1 {
        return false;
    }
    let obs = vista.historial.observacion.as_str();
    let prefijo = "Adelanto";
    proof {
        reveal_strlit("Adelanto");
    }
    if obs.unicode_len() < 8 {
        return false;
    }
    let mut i: usize = 0;
    while i < 8
        invariant
            i <= 8,
            obs@.len() >= 8,
            obs@ == vista.historial.observacion@,
            vista.historial.tipo_id == 1,
            prefijo@ == "Adelanto"@,
            prefijo@.len() == 8,
            forall|k: int| 0 <= k < i ==> obs@[k] == prefijo@[k],
        decreases 8 - i,
    {
        if obs.get_char(i) != prefijo.get_char(i) {
            assert(obs@.take(8)[i as int] != "Adelanto"@[i as int]);
            return false;
        }
        i = i + 1;
    }
    assert(obs@.take(8) =~= "Adelanto"@);
    true
}

/// Etiqueta y clases del estado de un representante: Activo si su estado es
/// el 1, Inactivo si no.
pub fn badge_estado_representante(estado_id: i32) -> (r: (&'static str, &'static str))
    ensures
        estado_id == 1 ==> r.0@ == "Activo"@ && r.1@ == "bg-emerald-900 text-emerald-300"@,
        estado_id != 1 ==> r.0@ == "Inactivo"@ && r.1@ == "bg-gray-700 text-gray-400"@,
{
    if estado_id == 1 {
        ("Activo", "bg-emerald-900 text-emerald-300")
    } else {
        ("Inactivo", "bg-gray-700 text-gray-400")
    }
}


/// Clases del borde de un campo de formulario: en rojo solo si ya se intentó
/// enviar y el campo no es válido.
pub fn get_border_class(es_valido: bool, intentando: bool) -> (r: &'static str)
    ensures
        (!intentando || es_valido) ==> r@ == "border border-gray-700 focus:ring-2 focus:ring-blue-500/50"@,
        (intentando && !es_valido) ==> r@
            == "border border-red-500 ring-2 ring-red-500/30 focus:ring-red-500/50"@,
{
    if !intentando || es_valido {
        "border border-gray-700 focus:ring-2 focus:ring-blue-500/50"
    } else {
        "border border-red-500 ring-2 ring-red-500/30 focus:ring-red-500/50"
    }
}

} // verus!
