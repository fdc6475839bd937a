//! Catálogo de cintas y reglas de conversión entre grados (kyu/Dan).

use vstd::prelude::*;

verus! {

/// Cintas del sistema, de la inicial (Blanca) a la de grados Dan (Negra).
#[derive(Debug, Clone, Copy, PartialEq, Eq, Structural)]
pub enum Cintas {
    Blanca,
    Celeste,
    Amarilla,
    Naranja,
    Verde,
    Azul1,
    Azul2,
    Marron1,
    Marron2,
    Marron3,
    Negra,
}

/// Las once cintas, en orden de progresión.
pub open spec fn todas_las_cintas() -> Seq<Cintas> {
    seq![
        Cintas::Blanca,
        Cintas::Celeste,
        Cintas::Amarilla,
        Cintas::Naranja,
        Cintas::Verde,
        Cintas::Azul1,
        Cintas::Azul2,
        Cintas::Marron1,
        Cintas::Marron2,
        Cintas::Marron3,
        Cintas::Negra,
    ]
}

impl Cintas {
    /// Cinta que corresponde a un rango: 10..=1 son los grados kyu; cualquier
    /// otro valor (Dan o desconocido) es Negra.
    pub open spec fn cinta_de_rango(rango: int) -> Cintas {
        if rango == 10 {
            Cintas::Blanca
        } else if rango == 9 {
            Cintas::Celeste
        } else if rango == 8 {
            Cintas::Amarilla
        } else if rango == 7 {
            Cintas::Naranja
        } else if rango == 6 {
            Cintas::Verde
        } else if rango == 5 {
            Cintas::Azul1
        } else if rango == 4 {
            Cintas::Azul2
        } else if rango == 3 {
            Cintas::Marron1
        } else if rango == 2 {
            Cintas::Marron2
        } else if rango == 1 {
            Cintas::Marron3
        } else {
            Cintas::Negra
        }
    }

    /// Etiqueta detallada que ve el usuario.
    pub open spec fn texto_label(self) -> Seq<char> {
        match self {
            Cintas::Blanca => "Blanca"@,
            Cintas::Celeste => "Celeste"@,
            Cintas::Amarilla => "Amarilla"@,
            Cintas::Naranja => "Naranja"@,
            Cintas::Verde => "Verde"@,
            Cintas::Azul1 => "Azul 1"@,
            Cintas::Azul2 => "Azul 2"@,
            Cintas::Marron1 => "Marrón 1"@,
            Cintas::Marron2 => "Marrón 2"@,
            Cintas::Marron3 => "Marrón 3"@,
            Cintas::Negra => "Negra"@,
        }
    }

    /// Nombre del color, que agrupa azules y marrones.
    pub open spec fn texto_nombre(self) -> Seq<char> {
        match self {
            Cintas::Blanca => "Blanca"@,
            Cintas::Celeste => "Celeste"@,
            Cintas::Amarilla => "Amarilla"@,
            Cintas::Naranja => "Naranja"@,
            Cintas::Verde => "Verde"@,
            Cintas::Azul1 | Cintas::Azul2 => "Azul"@,
            Cintas::Marron1 | Cintas::Marron2 | Cintas::Marron3 => "Marrón"@,
            Cintas::Negra => "Negra"@,
        }
    }

    /// Valor numérico de rango de la cinta (Negra = 0).
    pub open spec fn valor_de(self) -> u32 {
        match self {
            Cintas::Blanca => 10,
            Cintas::Celeste => 9,
            Cintas::Amarilla => 8,
            Cintas::Naranja => 7,
            Cintas::Verde => 6,
            Cintas::Azul1 => 5,
            Cintas::Azul2 => 4,
            Cintas::Marron1 => 3,
            Cintas::Marron2 => 2,
            Cintas::Marron3 => 1,
            Cintas::Negra => 0,
        }
    }

    pub fn all_variants() -> (r: &'static [Cintas])
        ensures
            r@ == todas_las_cintas(),
    {
        let r: &'static [Cintas] = &[
            Cintas::Blanca,
            Cintas::Celeste,
            Cintas::Amarilla,
            Cintas::Naranja,
            Cintas::Verde,
            Cintas::Azul1,
            Cintas::Azul2,
            Cintas::Marron1,
            Cintas::Marron2,
            Cintas::Marron3,
            Cintas::Negra,
        ];
        r
    }

    pub fn from_rango(rango: i32) -> (r: Cintas)
        ensures
            r == Cintas::cinta_de_rango(rango as int),
    {
        match rango {
            10 => Cintas::Blanca,
            9 => Cintas::Celeste,
            8 => Cintas::Amarilla,
            7 => Cintas::Naranja,
            6 => Cintas::Verde,
            5 => Cintas::Azul1,
            4 => Cintas::Azul2,
            3 => Cintas::Marron1,
            2 => Cintas::Marron2,
            1 => Cintas::Marron3,
            _ => Cintas::Negra,
        }
    }

    pub fn label(&self) -> (r: &'static str)
        ensures
            r@ == self.texto_label(),
    {
        match self {
            Cintas::Blanca => "Blanca",
            Cintas::Celeste => "Celeste",
            Cintas::Amarilla => "Amarilla",
            Cintas::Naranja => "Naranja",
            Cintas::Verde => "Verde",
            Cintas::Azul1 => "Azul 1",
            Cintas::Azul2 => "Azul 2",
            Cintas::Marron1 => "Marrón 1",
            Cintas::Marron2 => "Marrón 2",
            Cintas::Marron3 => "Marrón 3",
            Cintas::Negra => "Negra",
        }
    }

    pub fn nombre(&self) -> (r: &'static str)
        ensures
            r@ == self.texto_nombre(),
    {
        match self {
            Cintas::Blanca => "Blanca",
            Cintas::Celeste => "Celeste",
            Cintas::Amarilla => "Amarilla",
            Cintas::Naranja => "Naranja",
            Cintas::Verde => "Verde",
            Cintas::Azul1 | Cintas::Azul2 => "Azul",
            Cintas::Marron1 | Cintas::Marron2 | Cintas::Marron3 => "Marrón",
            Cintas::Negra => "Negra",
        }
    }

    pub fn valor(&self) -> (r: u32)
        ensures
            r == self.valor_de(),
    {
        match self {
            Cintas::Blanca => 10,
            Cintas::Celeste => 9,
            Cintas::Amarilla => 8,
            Cintas::Naranja => 7,
            Cintas::Verde => 6,
            Cintas::Azul1 => 5,
            Cintas::Azul2 => 4,
            Cintas::Marron1 => 3,
            Cintas::Marron2 => 2,
            Cintas::Marron3 => 1,
            Cintas::Negra => 0,
        }
    }

    /// Convierte el número de Dan elegido en la interfaz al valor interno de
    /// rango: Dan 1 es el rango 0, Dan 10 el rango -9.
    pub fn rango_desde_dan(dan: i32) -> (r: i32)
        requires
            dan >= -2147483646,
        ensures
            r == 1 - dan,
    {
        -dan + 1
    }
}

/// Salvo la Negra, que comparte el caso general con los grados Dan, el valor
/// de una cinta devuelve esa misma cinta.
pub proof fn valor_y_from_rango_son_inversos(c: Cintas)
    requires
        c != Cintas::Negra,
    ensures
        Cintas::cinta_de_rango(c.valor_de() as int) == c,
{
}

/// Todo grado Dan (1 o más) cae en la cinta Negra.
pub proof fn los_dan_son_negra(dan: int)
    requires
        dan >= 1,
    ensures
        Cintas::cinta_de_rango(1 - dan) == Cintas::Negra,
{
}

/// Cada cinta aparece exactamente una vez en el catálogo.
pub proof fn catalogo_de_cintas_completo(c: Cintas)
    ensures
        todas_las_cintas().contains(c),
        todas_las_cintas().len() == 11,
        forall|i: int, j: int|
            0 <= i < j < 11 ==> todas_las_cintas()[i] != todas_las_cintas()[j],
{
    let s = todas_las_cintas();
    match c {
        Cintas::Blanca => assert(s[0] == c),
        Cintas::Celeste => assert(s[1] == c),
        Cintas::Amarilla => assert(s[2] == c),
        Cintas::Naranja => assert(s[3] == c),
        Cintas::Verde => assert(s[4] == c),
        Cintas::Azul1 => assert(s[5] == c),
        Cintas::Azul2 => assert(s[6] == c),
        Cintas::Marron1 => assert(s[7] == c),
        Cintas::Marron2 => assert(s[8] == c),
        Cintas::Marron3 => assert(s[9] == c),
        Cintas::Negra => assert(s[10] == c),
    }
    assert forall|i: int, j: int| 0 <= i < j < 11 implies s[i] != s[j] by {
        assert(s[i].valor_de() != s[j].valor_de());
    }
}

} // verus!
