//! A queue-driven image-classification worker: the decisions it takes for
//! each job, the fields it writes back, and the tensor layout it feeds the
//! model with.
use vstd::prelude::*;

pub mod layout;
pub mod text;
pub mod worker;

verus! {

} // verus!
