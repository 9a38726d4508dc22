use vstd::prelude::*;

verus! {

/// A region that forecasts are requested for, identified by its name.
#[derive(Eq, Hash, Debug)]
pub struct County(pub String);

impl View for County {
    type V = Seq<char>;

    open spec fn view(&self) -> Seq<char> {
        self.0@
    }
}

impl County {
    /// The region's name.
    pub fn name(&self) -> (r: &str)
        ensures
            r@ == self@,
    {
        self.0.as_str()
    }
}

impl Clone for County {
    fn clone(&self) -> (r: Self)
        ensures
            r == *self,
    {
        County(self.0.clone())
    }
}

impl PartialEq for County {
    fn eq(&self, other: &County) -> (r: bool) {
        self.0 == other.0
    }
}

impl vstd::std_specs::cmp::PartialEqSpecImpl for County {
    open spec fn obeys_eq_spec() -> bool {
        true
    }

    open spec fn eq_spec(&self, other: &County) -> bool {
        self@ == other@
    }
}

} // verus!
