//! Creators: baristas, each of which makes one kind of drink.

use vstd::prelude::*;

use crate::bebida::{Bebida, Cafe, Te, DESCRIPCION_CAFE, DESCRIPCION_TE};

verus! {

/// The creator capability: a barista whose factory method makes a drink.
///
/// Which drink comes out is fixed by the barista's type, through `Producto`;
/// the caller only needs the `Bebida` capability to use it.
pub trait Barista {
    type Producto: Bebida;

    /// The drink that this barista makes.
    spec fn producto(&self) -> Self::Producto;

    fn preparar_bebida(&self) -> (r: Self::Producto)
        ensures
            r == self.producto(),
    ;
}

/// The barista that makes coffee.
#[derive(Clone, Copy, Debug)]
pub struct BaristaCafe;

impl Barista for BaristaCafe {
    type Producto = Cafe;

    open spec fn producto(&self) -> Cafe {
        Cafe
    }

    fn preparar_bebida(&self) -> Cafe {
        Cafe
    }
}

/// The barista that makes tea.
#[derive(Clone, Copy, Debug)]
pub struct BaristaTe;

impl Barista for BaristaTe {
    type Producto = Te;

    open spec fn producto(&self) -> Te {
        Te
    }

    fn preparar_bebida(&self) -> Te {
        Te
    }
}

/// A barista on duty, chosen at run time among the known ones.
#[derive(Clone, Copy, Debug)]
pub enum Turno {
    Cafe(BaristaCafe),
    Te(BaristaTe),
}

impl Turno {
    /// The description of the drink that this barista makes.
    pub open spec fn texto(self) -> Seq<char> {
        match self {
            Turno::Cafe(_) => DESCRIPCION_CAFE@,
            Turno::Te(_) => DESCRIPCION_TE@,
        }
    }

    /// Has the barista make a drink and returns the drink's description.
    ///
    /// The text depends on which barista this is and on nothing else, and it
    /// is never empty.
    pub fn describir(&self) -> (r: String)
        ensures
            r@ == self.texto(),
            r@.len() > 0,
    {
        match self {
            Turno::Cafe(b) => b.preparar_bebida().descripcion(),
            Turno::Te(b) => b.preparar_bebida().descripcion(),
        }
    }
}

} // verus!
