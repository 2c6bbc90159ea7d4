use vstd::prelude::*;

verus! {

/// An absolute resource locator, held in its canonical text form.
///
/// Checking and normalising a locator is the business of whoever builds one;
/// once built, the value never changes.
#[derive(Debug, Clone)]
pub struct Url {
    serialization: String,
}

impl View for Url {
    type V = Seq<char>;

    closed spec fn view(&self) -> Seq<char> {
        self.serialization@
    }
}

impl Url {
    /// Wraps a locator that is already in canonical form.
    pub fn new(serialization: String) -> (r: Url)
        ensures
            r@ == serialization@,
    {
        Url { serialization }
    }

    /// The canonical text of the locator.
    pub fn as_str(&self) -> (r: &str)
        ensures
            r@ == self@,
    {
        self.serialization.as_str()
    }
}

impl PartialEq for Url {
    fn eq(&self, other: &Url) -> (r: bool)
        ensures
            r == (self@ == other@),
    {
        self.serialization == other.serialization
    }
}

impl vstd::std_specs::cmp::PartialEqSpecImpl for Url {
    open spec fn obeys_eq_spec() -> bool {
        true
    }

    open spec fn eq_spec(&self, other: &Url) -> bool {
        self@ == other@
    }
}

impl Eq for Url {}

} // verus!
