//! Object paths: the identifiers of sessions and of the objects on which the
//! responses to requests arrive.

use vstd::prelude::*;
use vstd::string::*;

use crate::token::is_name_char;

verus! {

/// An object path starts with a slash, which is followed by elements of name
/// characters with one slash between them. The root path is the slash alone;
/// no other path ends in a slash.
pub open spec fn is_object_path(s: Seq<char>) -> bool {
    &&& s.len() >= 1
    &&& s[0] == '/'
    &&& (s.len() > 1 ==> s[s.len() - 1] != '/')
    &&& forall|i: int| 0 <= i < s.len() ==> (is_name_char(#[trigger] s[i]) || s[i] == '/')
    &&& forall|i: int| 0 <= i < s.len() - 1 ==> !(#[trigger] s[i] == '/' && s[i + 1] == '/')
}

/// Calls `zvariant::ObjectPath::try_from` on the string and hands back the
/// text of the path that it made, or nothing where `zvariant` refused the
/// string. The contract states the rules by which `zvariant` accepts a path,
/// and that the accepted path has the text that was given. None of this is
/// proved here.
#[verifier::external_body]
fn checked_object_path(path: &str) -> (result: Option<String>)
    ensures
        result is Some <==> is_object_path(path@),
        result matches Some(text) ==> text@ == path@,
{
    match zvariant::ObjectPath::try_from(path) {
        Ok(checked) => Some(checked.as_str().to_owned()),
        Err(_) => None,
    }
}

/// The identifier of an object of the broker.
#[derive(Debug, PartialEq, Eq)]
pub struct ObjectPath {
    path: String,
}

impl View for ObjectPath {
    type V = Seq<char>;

    closed spec fn view(&self) -> Seq<char> {
        self.path@
    }
}

impl Clone for ObjectPath {
    fn clone(&self) -> (copy: ObjectPath)
        ensures
            copy == *self,
    {
        proof {
            use_type_invariant(self);
        }
        ObjectPath { path: self.path.clone() }
    }
}

impl ObjectPath {
    /// The string is an object path.
    #[verifier::type_invariant]
    pub closed spec fn wf(self) -> bool {
        is_object_path(self.path@)
    }

    /// Makes an object path of the string, if the string is one.
    pub fn new(path: &str) -> (result: Option<ObjectPath>)
        ensures
            is_object_path(path@) ==> (result matches Some(p) && p@ == path@),
            !is_object_path(path@) ==> result is None,
    {
        match checked_object_path(path) {
            Some(text) => Some(ObjectPath { path: text }),
            None => None,
        }
    }

    /// The path as a string.
    pub fn as_str(&self) -> (s: &str)
        ensures
            s@ == self@,
            is_object_path(s@),
    {
        proof {
            use_type_invariant(self);
        }
        self.path.as_str()
    }

    /// Whether the two paths are the same string.
    pub fn same_as(&self, other: &ObjectPath) -> (same: bool)
        ensures
            same == (self@ == other@),
    {
        self.path == other.path
    }
}

} // verus!
