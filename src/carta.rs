//! The bar's menu: the baristas on duty, in order, and what each one serves.

use vstd::prelude::*;

use crate::barista::{Barista, BaristaCafe, BaristaTe, Turno};
use crate::bebida::{Bebida, DESCRIPCION_CAFE, DESCRIPCION_TE};

verus! {

/// Serves a drink through the two capabilities alone: whatever the barista,
/// its factory method makes a drink, and the drink's description comes back.
pub fn atender<B: Barista>(barista: &B) -> (r: String)
    ensures
        r@ == barista.producto().texto(),
        r@.len() > 0,
{
    let bebida = barista.preparar_bebida();
    bebida.descripcion()
}

/// The baristas on duty, in order: first coffee, then tea.
pub fn plantilla() -> (r: Vec<Turno>)
    ensures
        r@ == seq![Turno::Cafe(BaristaCafe), Turno::Te(BaristaTe)],
{
    let r = vec![Turno::Cafe(BaristaCafe), Turno::Te(BaristaTe)];
    assert(r@ =~= seq![Turno::Cafe(BaristaCafe), Turno::Te(BaristaTe)]);
    r
}

/// Has each barista, in order, make a drink, and returns one line per drink:
/// its description.
pub fn servir(turnos: &Vec<Turno>) -> (r: Vec<String>)
    ensures
        r@.len() == turnos@.len(),
        forall|i: int| 0 <= i < r@.len() ==> #[trigger] r@[i]@ == turnos@[i].texto(),
{
    let mut r: Vec<String> = Vec::new();
    let mut i: usize = 0;
    while i < turnos.len()
        invariant
            i <= turnos@.len(),
            r@.len() == i,
            forall|k: int| 0 <= k < i ==> #[trigger] r@[k]@ == turnos@[k].texto(),
        decreases turnos@.len() - i,
    {
        let linea = turnos[i].describir();
        r.push(linea);
        i = i + 1;
    }
    r
}

/// The whole menu: the coffee description, then the tea description.
pub fn carta() -> (r: Vec<String>)
    ensures
        r@.len() == 2,
        r@[0]@ == DESCRIPCION_CAFE@,
        r@[1]@ == DESCRIPCION_TE@,
{
    let turnos = plantilla();
    servir(&turnos)
}

} // verus!
