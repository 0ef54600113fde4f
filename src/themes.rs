//! Named colour themes.
use vstd::prelude::*;

verus! {

pub struct Theme {
    pub name: String,
}

impl Theme {
    pub fn load(name: &str) -> (r: Theme)
        ensures
            r.name@ == name@,
    {
        Theme { name: name.to_string() }
    }
}

} // verus!
