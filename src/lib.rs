use vstd::prelude::*;

pub mod cmd;
pub mod config;
pub mod frame;
pub mod lemmas;
pub mod proto;
pub mod task;

verus! {

} // verus!
