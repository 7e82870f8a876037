use vstd::prelude::*;

pub mod apps;
pub mod order;
pub mod search;

verus! {

} // verus!
