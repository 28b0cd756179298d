use vstd::prelude::*;

pub mod transform;

verus! {

} // verus!
