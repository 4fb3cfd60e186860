pub mod route_rule;
pub mod stats;
pub mod token;
pub mod upstream;

use vstd::prelude::*;

verus! {

/// The value held by `o`, or `d` when there is none.
pub open spec fn value_or<T>(o: Option<T>, d: T) -> T {
    match o {
        Some(v) => v,
        None => d,
    }
}

} // verus!
