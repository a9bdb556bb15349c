//! The query root of the GraphQL surface.  The schema machinery itself is
//! web-layer plumbing; only the resolver's value is of interest here.

use vstd::prelude::*;

verus! {

pub struct QueryRoot;

impl QueryRoot {
    /// The sole resolver: a constant greeting.
    pub fn hello(&self) -> (r: String)
        ensures
            r@ == "world"@,
    {
        String::from_str("world")
    }
}

} // verus!
