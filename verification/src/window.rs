//! The window that a dialog of the broker belongs to.

use vstd::prelude::*;
use vstd::string::*;

verus! {

/// The identifier of the caller's window, in the form that the broker
/// understands. The empty identifier stands for no parent window.
#[derive(Debug, PartialEq, Eq)]
pub struct WindowIdentifier {
    id: String,
}

impl View for WindowIdentifier {
    type V = Seq<char>;

    closed spec fn view(&self) -> Seq<char> {
        self.id@
    }
}

impl Default for WindowIdentifier {
    /// No parent window.
    fn default() -> (window: WindowIdentifier)
        ensures
            window@ == Seq::<char>::empty(),
    {
        WindowIdentifier { id: String::new() }
    }
}

impl WindowIdentifier {
    /// The identifier with the given text.
    pub fn new(id: &str) -> (window: WindowIdentifier)
        ensures
            window@ == id@,
    {
        WindowIdentifier { id: id.to_owned() }
    }

    /// The text of the identifier.
    pub fn as_str(&self) -> (id: &str)
        ensures
            id@ == self@,
    {
        self.id.as_str()
    }
}

} // verus!
