//! Protocol, codec and executive logic of a small NT-compatible kernel, with
//! the behaviour of each operation stated in its contract.

pub mod net;
pub mod multimedia;
pub mod nt;
mod text;
