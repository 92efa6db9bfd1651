use vstd::prelude::*;

pub mod laws;
pub mod supervisor;

verus! {

} // verus!
