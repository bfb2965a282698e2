//! The factory-method pattern on a coffee bar: a barista (the creator) makes a
//! drink (the product), and client code describes the drink without knowing
//! which concrete barista or drink it holds.

pub mod barista;
pub mod bebida;
pub mod carta;

pub use bebida::{Bebida, Cafe, Te, DESCRIPCION_CAFE, DESCRIPCION_TE};
pub use barista::{Barista, BaristaCafe, BaristaTe, Turno};
pub use carta::{atender, carta, plantilla, servir};
