//! Catálogos de estados, métodos y tipos del sistema. Cada enum corresponde
//! a una tabla `cat_*` y cada variante a su identificador numérico.

use vstd::prelude::*;

verus! {

/// Estado persistido de una deuda; cada variante es una fila de `cat_estados_deuda`.
#[derive(PartialEq, Eq, Clone, Debug, Copy, Structural)]
pub enum EstadoDeuda {
    Pendiente,
    Parcial,
    Pagada,
    Anticipada,
    Anulada,
}

impl EstadoDeuda {
    /// Identificador numérico en el catálogo.
    pub open spec fn id_de(self) -> i32 {
        match self {
            EstadoDeuda::Pendiente => 1,
            EstadoDeuda::Parcial => 2,
            EstadoDeuda::Pagada => 3,
            EstadoDeuda::Anticipada => 4,
            EstadoDeuda::Anulada => 5,
        }
    }

    /// Variante que corresponde a un identificador, si existe.
    pub open spec fn desde_id(id: i32) -> Option<EstadoDeuda> {
        if id == 1 {
            Some(EstadoDeuda::Pendiente)
        } else if id == 2 {
            Some(EstadoDeuda::Parcial)
        } else if id == 3 {
            Some(EstadoDeuda::Pagada)
        } else if id == 4 {
            Some(EstadoDeuda::Anticipada)
        } else if id == 5 {
            Some(EstadoDeuda::Anulada)
        } else {
            None
        }
    }

    /// Texto legible de la variante.
    pub open spec fn texto_label(self) -> Seq<char> {
        match self {
            EstadoDeuda::Pendiente => "Pendiente"@,
            EstadoDeuda::Parcial => "Parcial"@,
            EstadoDeuda::Pagada => "Pagada"@,
            EstadoDeuda::Anticipada => "Anticipada"@,
            EstadoDeuda::Anulada => "Anulada"@,
        }
    }

    pub fn from_id(id: i32) -> (r: Option<EstadoDeuda>)
        ensures
            r == EstadoDeuda::desde_id(id),
    {
        match id {
            1 => Some(EstadoDeuda::Pendiente),
            2 => Some(EstadoDeuda::Parcial),
            3 => Some(EstadoDeuda::Pagada),
            4 => Some(EstadoDeuda::Anticipada),
            5 => Some(EstadoDeuda::Anulada),
            _ => None,
        }
    }

    pub fn id(&self) -> (r: i32)
        ensures
            r == self.id_de(),
    {
        match self {
            EstadoDeuda::Pendiente => 1,
            EstadoDeuda::Parcial => 2,
            EstadoDeuda::Pagada => 3,
            EstadoDeuda::Anticipada => 4,
            EstadoDeuda::Anulada => 5,
        }
    }

    pub fn label(&self) -> (r: &'static str)
        ensures
            r@ == self.texto_label(),
    {
        match self {
            EstadoDeuda::Pendiente => "Pendiente",
            EstadoDeuda::Parcial => "Parcial",
            EstadoDeuda::Pagada => "Pagada",
            EstadoDeuda::Anticipada => "Anticipada",
            EstadoDeuda::Anulada => "Anulada",
        }
    }

    /// Pagada y Anulada cierran la deuda.
    pub open spec fn terminal(self) -> bool {
        self == EstadoDeuda::Pagada || self == EstadoDeuda::Anulada
    }

    /// Solo Pendiente y Parcial admiten pagos.
    pub open spec fn cobrable(self) -> bool {
        self == EstadoDeuda::Pendiente || self == EstadoDeuda::Parcial
    }

    pub fn es_terminal(&self) -> (r: bool)
        ensures
            r == self.terminal(),
    {
        match self {
            EstadoDeuda::Pagada | EstadoDeuda::Anulada => true,
            _ => false,
        }
    }

    pub fn es_cobrable(&self) -> (r: bool)
        ensures
            r == self.cobrable(),
    {
        match self {
            EstadoDeuda::Pendiente | EstadoDeuda::Parcial => true,
            _ => false,
        }
    }
}

/// El identificador de cada variante de `EstadoDeuda` la recupera, y todo
/// identificador reconocido es el de la variante que devuelve.
pub proof fn ida_y_vuelta_estado_deuda(e: EstadoDeuda, id: i32)
    ensures
        EstadoDeuda::desde_id(e.id_de()) == Some(e),
        EstadoDeuda::desde_id(id) matches Some(v) ==> v.id_de() == id,
{
}

/// Estado de un registro de pago; cada variante es una fila de `cat_estados_pago`.
#[derive(PartialEq, Eq, Clone, Debug, Copy, Structural)]
pub enum EstadoPago {
    Completado,
    Reversado,
    PendienteConfirmar,
}

impl EstadoPago {
    /// Identificador numérico en el catálogo.
    pub open spec fn id_de(self) -> i32 {
        match self {
            EstadoPago::Completado => 1,
            EstadoPago::Reversado => 2,
            EstadoPago::PendienteConfirmar => 3,
        }
    }

    /// Variante que corresponde a un identificador, si existe.
    pub open spec fn desde_id(id: i32) -> Option<EstadoPago> {
        if id == 1 {
            Some(EstadoPago::Completado)
        } else if id == 2 {
            Some(EstadoPago::Reversado)
        } else if id == 3 {
            Some(EstadoPago::PendienteConfirmar)
        } else {
            None
        }
    }

    /// Texto legible de la variante.
    pub open spec fn texto_label(self) -> Seq<char> {
        match self {
            EstadoPago::Completado => "Completado"@,
            EstadoPago::Reversado => "Reversado"@,
            EstadoPago::PendienteConfirmar => "Pendiente"@,
        }
    }

    pub fn from_id(id: i32) -> (r: Option<EstadoPago>)
        ensures
            r == EstadoPago::desde_id(id),
    {
        match id {
            1 => Some(EstadoPago::Completado),
            2 => Some(EstadoPago::Reversado),
            3 => Some(EstadoPago::PendienteConfirmar),
            _ => None,
        }
    }

    pub fn id(&self) -> (r: i32)
        ensures
            r == self.id_de(),
    {
        match self {
            EstadoPago::Completado => 1,
            EstadoPago::Reversado => 2,
            EstadoPago::PendienteConfirmar => 3,
        }
    }

    pub fn label(&self) -> (r: &'static str)
        ensures
            r@ == self.texto_label(),
    {
        match self {
            EstadoPago::Completado => "Completado",
            EstadoPago::Reversado => "Reversado",
            EstadoPago::PendienteConfirmar => "Pendiente",
        }
    }
}

/// El identificador de cada variante de `EstadoPago` la recupera, y todo
/// identificador reconocido es el de la variante que devuelve.
pub proof fn ida_y_vuelta_estado_pago(e: EstadoPago, id: i32)
    ensures
        EstadoPago::desde_id(e.id_de()) == Some(e),
        EstadoPago::desde_id(id) matches Some(v) ==> v.id_de() == id,
{
}

/// Método por el que se realizó un pago; filas de `cat_metodos_pago`.
#[derive(PartialEq, Eq, Clone, Debug, Copy, Structural)]
pub enum MetodoPago {
    Efectivo,
    Transferencia,
    Tarjeta,
    Cheque,
}

impl MetodoPago {
    /// Identificador numérico en el catálogo.
    pub open spec fn id_de(self) -> i32 {
        match self {
            MetodoPago::Efectivo => 1,
            MetodoPago::Transferencia => 2,
            MetodoPago::Tarjeta => 3,
            MetodoPago::Cheque => 4,
        }
    }

    /// Variante que corresponde a un identificador, si existe.
    pub open spec fn desde_id(id: i32) -> Option<MetodoPago> {
        if id == 1 {
            Some(MetodoPago::Efectivo)
        } else if id == 2 {
            Some(MetodoPago::Transferencia)
        } else if id == 3 {
            Some(MetodoPago::Tarjeta)
        } else if id == 4 {
            Some(MetodoPago::Cheque)
        } else {
            None
        }
    }

    /// Texto legible de la variante.
    pub open spec fn texto_label(self) -> Seq<char> {
        match self {
            MetodoPago::Efectivo => "Efectivo"@,
            MetodoPago::Transferencia => "Transferencia"@,
            MetodoPago::Tarjeta => "Tarjeta"@,
            MetodoPago::Cheque => "Cheque"@,
        }
    }

    pub fn from_id(id: i32) -> (r: Option<MetodoPago>)
        ensures
            r == MetodoPago::desde_id(id),
    {
        match id {
            1 => Some(MetodoPago::Efectivo),
            2 => Some(MetodoPago::Transferencia),
            3 => Some(MetodoPago::Tarjeta),
            4 => Some(MetodoPago::Cheque),
            _ => None,
        }
    }

    pub fn id(&self) -> (r: i32)
        ensures
            r == self.id_de(),
    {
        match self {
            MetodoPago::Efectivo => 1,
            MetodoPago::Transferencia => 2,
            MetodoPago::Tarjeta => 3,
            MetodoPago::Cheque => 4,
        }
    }

    pub fn label(&self) -> (r: &'static str)
        ensures
            r@ == self.texto_label(),
    {
        match self {
            MetodoPago::Efectivo => "Efectivo",
            MetodoPago::Transferencia => "Transferencia",
            MetodoPago::Tarjeta => "Tarjeta",
            MetodoPago::Cheque => "Cheque",
        }
    }

    pub fn todos() -> (r: &'static [MetodoPago])
        ensures
            r@ == seq![
                MetodoPago::Efectivo,
                MetodoPago::Transferencia,
                MetodoPago::Tarjeta,
                MetodoPago::Cheque,
            ],
    {
        let r: &'static [MetodoPago] = &[
            MetodoPago::Efectivo,
            MetodoPago::Transferencia,
            MetodoPago::Tarjeta,
            MetodoPago::Cheque,
        ];
        r
    }
}

/// El identificador de cada variante de `MetodoPago` la recupera, y todo
/// identificador reconocido es el de la variante que devuelve.
pub proof fn ida_y_vuelta_metodo_pago(e: MetodoPago, id: i32)
    ensures
        MetodoPago::desde_id(e.id_de()) == Some(e),
        MetodoPago::desde_id(id) matches Some(v) ==> v.id_de() == id,
{
}

/// Estado de actividad de un alumno; filas de `cat_estados_alumno`.
#[derive(PartialEq, Eq, Clone, Debug, Copy, Structural)]
pub enum EstadoAlumno {
    Activo,
    Inactivo,
    Suspendido,
    Retirado,
}

impl EstadoAlumno {
    /// Identificador numérico en el catálogo.
    pub open spec fn id_de(self) -> i32 {
        match self {
            EstadoAlumno::Activo => 1,
            EstadoAlumno::Inactivo => 2,
            EstadoAlumno::Suspendido => 3,
            EstadoAlumno::Retirado => 4,
        }
    }

    /// Variante que corresponde a un identificador, si existe.
    pub open spec fn desde_id(id: i32) -> Option<EstadoAlumno> {
        if id == 1 {
            Some(EstadoAlumno::Activo)
        } else if id == 2 {
            Some(EstadoAlumno::Inactivo)
        } else if id == 3 {
            Some(EstadoAlumno::Suspendido)
        } else if id == 4 {
            Some(EstadoAlumno::Retirado)
        } else {
            None
        }
    }

    /// Texto legible de la variante.
    pub open spec fn texto_label(self) -> Seq<char> {
        match self {
            EstadoAlumno::Activo => "Activo"@,
            EstadoAlumno::Inactivo => "Inactivo"@,
            EstadoAlumno::Suspendido => "Suspendido"@,
            EstadoAlumno::Retirado => "Retirado"@,
        }
    }

    pub fn from_id(id: i32) -> (r: Option<EstadoAlumno>)
        ensures
            r == EstadoAlumno::desde_id(id),
    {
        match id {
            1 => Some(EstadoAlumno::Activo),
            2 => Some(EstadoAlumno::Inactivo),
            3 => Some(EstadoAlumno::Suspendido),
            4 => Some(EstadoAlumno::Retirado),
            _ => None,
        }
    }

    pub fn id(&self) -> (r: i32)
        ensures
            r == self.id_de(),
    {
        match self {
            EstadoAlumno::Activo => 1,
            EstadoAlumno::Inactivo => 2,
            EstadoAlumno::Suspendido => 3,
            EstadoAlumno::Retirado => 4,
        }
    }

    pub fn label(&self) -> (r: &'static str)
        ensures
            r@ == self.texto_label(),
    {
        match self {
            EstadoAlumno::Activo => "Activo",
            EstadoAlumno::Inactivo => "Inactivo",
            EstadoAlumno::Suspendido => "Suspendido",
            EstadoAlumno::Retirado => "Retirado",
        }
    }

    /// Solo los alumnos activos generan deudas.
    pub fn genera_deudas(&self) -> (r: bool)
        ensures
            r == (*self == EstadoAlumno::Activo),
    {
        match self {
            EstadoAlumno::Activo => true,
            _ => false,
        }
    }
}

/// El identificador de cada variante de `EstadoAlumno` la recupera, y todo
/// identificador reconocido es el de la variante que devuelve.
pub proof fn ida_y_vuelta_estado_alumno(e: EstadoAlumno, id: i32)
    ensures
        EstadoAlumno::desde_id(e.id_de()) == Some(e),
        EstadoAlumno::desde_id(id) matches Some(v) ==> v.id_de() == id,
{
}

/// Estado de actividad de un representante; filas de `cat_estados_representante`.
#[derive(PartialEq, Eq, Clone, Debug, Copy, Structural)]
pub enum EstadoRepresentante {
    Activo,
    Inactivo,
}

impl EstadoRepresentante {
    /// Identificador numérico en el catálogo.
    pub open spec fn id_de(self) -> i32 {
        match self {
            EstadoRepresentante::Activo => 1,
            EstadoRepresentante::Inactivo => 2,
        }
    }

    /// Variante que corresponde a un identificador, si existe.
    pub open spec fn desde_id(id: i32) -> Option<EstadoRepresentante> {
        if id == 1 {
            Some(EstadoRepresentante::Activo)
        } else if id == 2 {
            Some(EstadoRepresentante::Inactivo)
        } else {
            None
        }
    }

    /// Texto legible de la variante.
    pub open spec fn texto_label(self) -> Seq<char> {
        match self {
            EstadoRepresentante::Activo => "Activo"@,
            EstadoRepresentante::Inactivo => "Inactivo"@,
        }
    }

    pub fn from_id(id: i32) -> (r: Option<EstadoRepresentante>)
        ensures
            r == EstadoRepresentante::desde_id(id),
    {
        match id {
            1 => Some(EstadoRepresentante::Activo),
            2 => Some(EstadoRepresentante::Inactivo),
            _ => None,
        }
    }

    pub fn id(&self) -> (r: i32)
        ensures
            r == self.id_de(),
    {
        match self {
            EstadoRepresentante::Activo => 1,
            EstadoRepresentante::Inactivo => 2,
        }
    }

    pub fn label(&self) -> (r: &'static str)
        ensures
            r@ == self.texto_label(),
    {
        match self {
            EstadoRepresentante::Activo => "Activo",
            EstadoRepresentante::Inactivo => "Inactivo",
        }
    }
}

/// El identificador de cada variante de `EstadoRepresentante` la recupera, y todo
/// identificador reconocido es el de la variante que devuelve.
pub proof fn ida_y_vuelta_estado_representante(e: EstadoRepresentante, id: i32)
    ensures
        EstadoRepresentante::desde_id(e.id_de()) == Some(e),
        EstadoRepresentante::desde_id(id) matches Some(v) ==> v.id_de() == id,
{
}

/// Tipo de movimiento del historial de pagos; filas de `cat_tipos_historial`.
#[derive(PartialEq, Eq, Clone, Debug, Copy, Structural)]
pub enum TipoHistorial {
    DeudaCreada,
    PagoRegistrado,
    AbonoAplicado,
    AjusteManual,
    Anulacion,
}

impl TipoHistorial {
    /// Identificador numérico en el catálogo.
    pub open spec fn id_de(self) -> i32 {
        match self {
            TipoHistorial::DeudaCreada => 1,
            TipoHistorial::PagoRegistrado => 2,
            TipoHistorial::AbonoAplicado => 3,
            TipoHistorial::AjusteManual => 4,
            TipoHistorial::Anulacion => 5,
        }
    }

    /// Variante que corresponde a un identificador, si existe.
    pub open spec fn desde_id(id: i32) -> Option<TipoHistorial> {
        if id == 1 {
            Some(TipoHistorial::DeudaCreada)
        } else if id == 2 {
            Some(TipoHistorial::PagoRegistrado)
        } else if id == 3 {
            Some(TipoHistorial::AbonoAplicado)
        } else if id == 4 {
            Some(TipoHistorial::AjusteManual)
        } else if id == 5 {
            Some(TipoHistorial::Anulacion)
        } else {
            None
        }
    }

    /// Texto legible de la variante.
    pub open spec fn texto_label(self) -> Seq<char> {
        match self {
            TipoHistorial::DeudaCreada => "Deuda Creada"@,
            TipoHistorial::PagoRegistrado => "Pago Registrado"@,
            TipoHistorial::AbonoAplicado => "Abono Aplicado"@,
            TipoHistorial::AjusteManual => "Ajuste Manual"@,
            TipoHistorial::Anulacion => "Anulación"@,
        }
    }

    pub fn from_id(id: i32) -> (r: Option<TipoHistorial>)
        ensures
            r == TipoHistorial::desde_id(id),
    {
        match id {
            1 => Some(TipoHistorial::DeudaCreada),
            2 => Some(TipoHistorial::PagoRegistrado),
            3 => Some(TipoHistorial::AbonoAplicado),
            4 => Some(TipoHistorial::AjusteManual),
            5 => Some(TipoHistorial::Anulacion),
            _ => None,
        }
    }

    pub fn id(&self) -> (r: i32)
        ensures
            r == self.id_de(),
    {
        match self {
            TipoHistorial::DeudaCreada => 1,
            TipoHistorial::PagoRegistrado => 2,
            TipoHistorial::AbonoAplicado => 3,
            TipoHistorial::AjusteManual => 4,
            TipoHistorial::Anulacion => 5,
        }
    }

    pub fn label(&self) -> (r: &'static str)
        ensures
            r@ == self.texto_label(),
    {
        match self {
            TipoHistorial::DeudaCreada => "Deuda Creada",
            TipoHistorial::PagoRegistrado => "Pago Registrado",
            TipoHistorial::AbonoAplicado => "Abono Aplicado",
            TipoHistorial::AjusteManual => "Ajuste Manual",
            TipoHistorial::Anulacion => "Anulación",
        }
    }
}

/// El identificador de cada variante de `TipoHistorial` la recupera, y todo
/// identificador reconocido es el de la variante que devuelve.
pub proof fn ida_y_vuelta_tipo_historial(e: TipoHistorial, id: i32)
    ensures
        TipoHistorial::desde_id(e.id_de()) == Some(e),
        TipoHistorial::desde_id(id) matches Some(v) ==> v.id_de() == id,
{
}

/// Tipo de evento deportivo; filas de `cat_tipos_evento`.
#[derive(PartialEq, Eq, Clone, Debug, Copy, Structural)]
pub enum TipoEvento {
    Competencia,
    Examen,
    Graduacion,
    ClaseEspecial,
}

impl TipoEvento {
    /// Identificador numérico en el catálogo.
    pub open spec fn id_de(self) -> i32 {
        match self {
            TipoEvento::Competencia => 1,
            TipoEvento::Examen => 2,
            TipoEvento::Graduacion => 3,
            TipoEvento::ClaseEspecial => 4,
        }
    }

    /// Variante que corresponde a un identificador, si existe.
    pub open spec fn desde_id(id: i32) -> Option<TipoEvento> {
        if id == 1 {
            Some(TipoEvento::Competencia)
        } else if id == 2 {
            Some(TipoEvento::Examen)
        } else if id == 3 {
            Some(TipoEvento::Graduacion)
        } else if id == 4 {
            Some(TipoEvento::ClaseEspecial)
        } else {
            None
        }
    }

    /// Texto legible de la variante.
    pub open spec fn texto_label(self) -> Seq<char> {
        match self {
            TipoEvento::Competencia => "Competencia"@,
            TipoEvento::Examen => "Examen"@,
            TipoEvento::Graduacion => "Graduación"@,
            TipoEvento::ClaseEspecial => "Clase Especial"@,
        }
    }

    pub fn from_id(id: i32) -> (r: Option<TipoEvento>)
        ensures
            r == TipoEvento::desde_id(id),
    {
        match id {
            1 => Some(TipoEvento::Competencia),
            2 => Some(TipoEvento::Examen),
            3 => Some(TipoEvento::Graduacion),
            4 => Some(TipoEvento::ClaseEspecial),
            _ => None,
        }
    }

    pub fn id(&self) -> (r: i32)
        ensures
            r == self.id_de(),
    {
        match self {
            TipoEvento::Competencia => 1,
            TipoEvento::Examen => 2,
            TipoEvento::Graduacion => 3,
            TipoEvento::ClaseEspecial => 4,
        }
    }

    pub fn label(&self) -> (r: &'static str)
        ensures
            r@ == self.texto_label(),
    {
        match self {
            TipoEvento::Competencia => "Competencia",
            TipoEvento::Examen => "Examen",
            TipoEvento::Graduacion => "Graduación",
            TipoEvento::ClaseEspecial => "Clase Especial",
        }
    }

    pub fn todos() -> (r: &'static [TipoEvento])
        ensures
            r@ == seq![
                TipoEvento::Competencia,
                TipoEvento::Examen,
                TipoEvento::Graduacion,
                TipoEvento::ClaseEspecial,
            ],
    {
        let r: &'static [TipoEvento] = &[
            TipoEvento::Competencia,
            TipoEvento::Examen,
            TipoEvento::Graduacion,
            TipoEvento::ClaseEspecial,
        ];
        r
    }
}

/// El identificador de cada variante de `TipoEvento` la recupera, y todo
/// identificador reconocido es el de la variante que devuelve.
pub proof fn ida_y_vuelta_tipo_evento(e: TipoEvento, id: i32)
    ensures
        TipoEvento::desde_id(e.id_de()) == Some(e),
        TipoEvento::desde_id(id) matches Some(v) ==> v.id_de() == id,
{
}

} // verus!

verus! {

/// Un estado terminal de deuda nunca es cobrable.
pub proof fn terminal_no_es_cobrable(e: EstadoDeuda)
    ensures
        e.terminal() ==> !e.cobrable(),
{
}

} // verus!
