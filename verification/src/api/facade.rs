use vstd::prelude::*;

verus! {

pub struct Facade {}

impl Facade {
    pub fn new() -> (r: Self)
        ensures
            r == (Facade {  }),
    {
        Facade {  }
    }
}

} // verus!
