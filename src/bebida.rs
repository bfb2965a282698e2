//! Products: drinks that can describe themselves.

use vstd::prelude::*;

verus! {

/// What a cup of coffee says of itself.
pub const DESCRIPCION_CAFE: &'static str = "Cafe: bebida que se obtiene mediante el percolado de agua caliente a través de los granos tostados y molidos de los frutos de la planta del café (cafeto); es altamente estimulante por su contenido de cafeína, una sustancia psicoactiva.";

/// What a cup of tea says of itself.
pub const DESCRIPCION_TE: &'static str = "Te:  infusión de las hojas y brotes de la planta del té (Camellia sinensis).";

/// The product capability: a drink that can describe itself.
///
/// Every drink, whichever it is, gives its own fixed, non-empty description
/// and cannot fail.
pub trait Bebida {
    /// The description of this drink.
    spec fn texto(&self) -> Seq<char>;

    fn descripcion(&self) -> (r: String)
        ensures
            r@ == self.texto(),
            r@.len() > 0,
    ;
}

/// Coffee, made by a `BaristaCafe`.
#[derive(Clone, Copy, Debug)]
pub struct Cafe;

impl Bebida for Cafe {
    open spec fn texto(&self) -> Seq<char> {
        DESCRIPCION_CAFE@
    }

    fn descripcion(&self) -> (r: String) {
        proof {
            reveal_strlit("Cafe: bebida que se obtiene mediante el percolado de agua caliente a través de los granos tostados y molidos de los frutos de la planta del café (cafeto); es altamente estimulante por su contenido de cafeína, una sustancia psicoactiva.");
        }
        DESCRIPCION_CAFE.to_string()
    }
}

/// Tea, made by a `BaristaTe`.
#[derive(Clone, Copy, Debug)]
pub struct Te;

impl Bebida for Te {
    open spec fn texto(&self) -> Seq<char> {
        DESCRIPCION_TE@
    }

    fn descripcion(&self) -> (r: String) {
        proof {
            reveal_strlit("Te:  infusión de las hojas y brotes de la planta del té (Camellia sinensis).");
        }
        DESCRIPCION_TE.to_string()
    }
}

} // verus!
