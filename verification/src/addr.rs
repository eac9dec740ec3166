//! Identities of accounts on the host chain.

use vstd::prelude::*;

verus! {

/// An identity that the host has accepted as well formed.
///
/// The controller never checks the syntax of an identity itself: the host
/// does, and an `Addr` stands for a text that passed.
#[derive(Debug)]
pub struct Addr {
    text: String,
}

impl View for Addr {
    type V = Seq<char>;

    closed spec fn view(&self) -> Seq<char> {
        self.text@
    }
}

impl Addr {
    /// Takes `text` as an identity without asking the host.
    pub fn unchecked(text: String) -> (addr: Addr)
        ensures
            addr@ == text@,
    {
        Addr { text }
    }

    /// The identity as text.
    pub fn as_str(&self) -> (text: &str)
        ensures
            text@ == self@,
    {
        self.text.as_str()
    }

    /// The identity as an owned text.
    pub fn into_string(self) -> (text: String)
        ensures
            text@ == self@,
    {
        self.text
    }

}

impl Clone for Addr {
    fn clone(&self) -> (addr: Addr)
        ensures
            addr == *self,
    {
        Addr { text: self.text.clone() }
    }
}

impl PartialEq for Addr {
    fn eq(&self, other: &Addr) -> (same: bool) {
        self.text == other.text
    }
}

impl vstd::std_specs::cmp::PartialEqSpecImpl for Addr {
    open spec fn obeys_eq_spec() -> bool {
        true
    }

    open spec fn eq_spec(&self, other: &Addr) -> bool {
        self@ == other@
    }
}

} // verus!
