//! Connection identities.

use vstd::prelude::*;
use vstd::std_specs::cmp::PartialEqSpecImpl;

verus! {

/// The opaque token that names one connection. Two identities are the same
/// connection exactly when their names hold the same characters.
#[derive(Debug, Hash)]
pub struct Identity {
    pub name: String,
}

impl View for Identity {
    type V = Seq<char>;

    open spec fn view(&self) -> Seq<char> {
        self.name@
    }
}

impl Identity {
    /// Wraps a freshly minted token.
    pub fn new(name: String) -> (identity: Identity)
        ensures
            identity.name == name,
            identity@ == name@,
    {
        Identity { name }
    }
}

impl Clone for Identity {
    fn clone(&self) -> (copy: Identity)
        ensures
            copy@ == self@,
    {
        Identity { name: self.name.clone() }
    }
}

impl PartialEq for Identity {
    fn eq(&self, other: &Identity) -> (same: bool) {
        self.name == other.name
    }
}

impl PartialEqSpecImpl for Identity {
    open spec fn obeys_eq_spec() -> bool {
        true
    }

    open spec fn eq_spec(&self, other: &Identity) -> bool {
        self@ == other@
    }
}

impl Eq for Identity {

}

} // verus!
