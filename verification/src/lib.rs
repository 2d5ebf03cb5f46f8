//! Platform window support for Linux (X11): the pure decision logic of the
//! backend, with contracts checked by Verus.

pub mod input;
pub mod os;
pub mod toast;
pub mod geometry;
pub mod text;
pub mod maps;
pub mod laws;
pub mod input_laws;
