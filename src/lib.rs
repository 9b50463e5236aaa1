use vstd::prelude::*;

pub mod client;
pub mod credential;
pub mod routes;
pub mod workflow;

verus! {

} // verus!
