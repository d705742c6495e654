//! Values that may be set in several places, the later ones first.
use vstd::prelude::*;

verus! {

/// The value that `over` sets, or else the one that `base` sets.
pub open spec fn layered<T>(base: Option<T>, over: Option<T>) -> Option<T> {
    match over {
        Some(v) => Some(v),
        None => base,
    }
}

/// The value that `over` sets, or else the one that `base` sets.
pub fn layer<T>(base: Option<T>, over: Option<T>) -> (r: Option<T>)
    ensures
        r == layered(base, over),
{
    match over {
        Some(v) => Some(v),
        None => base,
    }
}

/// What is set above wins, and what is not set above is what is set below.
pub proof fn law_upper_layer_wins<T>(base: Option<T>, over: Option<T>, r: Option<T>)
    requires
        call_ensures(layer::<T>, (base, over), r),
    ensures
        over is Some ==> r == over,
        over is None ==> r == base,
{
}

} // verus!
