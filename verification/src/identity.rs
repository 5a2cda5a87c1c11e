use vstd::prelude::*;

verus! {

/// Opaque public identifier of a player.
///
/// The core performs no cryptographic operations on identities: it only
/// compares them for equality and carries their text form. Verifying that an
/// identity is well-formed is the execution backend's job, outside the core.
#[derive(Debug)]
pub struct Identity {
    text: String,
}

impl View for Identity {
    type V = Seq<char>;

    closed spec fn view(&self) -> Seq<char> {
        self.text@
    }
}

impl Identity {
    /// Builds an identity from its text form.
    pub fn new(text: String) -> (r: Identity)
        ensures
            r@ == text@,
    {
        Identity { text }
    }

    /// The text form of the identity, stable across round trips.
    pub fn as_str(&self) -> (r: &str)
        ensures
            r@ == self@,
    {
        self.text.as_str()
    }

    /// A fresh copy of the text form of the identity.
    pub fn to_text(&self) -> (r: String)
        ensures
            r@ == self@,
    {
        self.text.as_str().to_owned()
    }
}

impl Clone for Identity {
    fn clone(&self) -> (r: Self)
        ensures
            r@ == self@,
    {
        Identity { text: self.text.clone() }
    }
}

impl PartialEq for Identity {
    fn eq(&self, other: &Identity) -> (r: bool) {
        self.text == other.text
    }
}

impl vstd::std_specs::cmp::PartialEqSpecImpl for Identity {
    open spec fn obeys_eq_spec() -> bool {
        true
    }

    open spec fn eq_spec(&self, other: &Identity) -> bool {
        self@ == other@
    }
}

} // verus!
