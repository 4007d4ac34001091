use vstd::prelude::*;

pub mod bridge;
pub mod error;
pub mod event;
pub mod util;
pub mod window;

verus! {

} // verus!
