//! Congestion control of the transport.
use vstd::prelude::*;

verus! {

/// The congestion control algorithms that can be asked for.
#[derive(Clone, Copy, Debug, PartialEq, Eq, Structural)]
pub enum Congestion {
    Bbr,
    Cubic,
    NewReno,
}

} // verus!
