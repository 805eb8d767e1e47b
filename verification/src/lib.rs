//! Identification of atomic nuclides from partial numeric or symbolic
//! input, and the integer-valued parts of the semi-empirical
//! (Weizsäcker) binding-energy model.

pub mod lookup;
pub mod resolver;
pub mod weizsacker;
