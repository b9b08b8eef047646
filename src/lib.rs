use vstd::prelude::*;

pub mod frame;
pub mod guarantees;
pub mod registry;
pub mod relay;
pub mod writer;

verus! {

/// Body of the root page.
pub fn index() -> (r: &'static str)
    ensures
        r@ == "Hello, world!"@,
{
    "Hello, world!"
}

} // verus!
