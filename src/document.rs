use vstd::prelude::*;

pub mod djvulibre_sys;
pub mod mupdf_sys;

verus! {

} // verus!
