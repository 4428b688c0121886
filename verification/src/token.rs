//! Handle tokens: the names that a caller gives to a request or to a session
//! that is about to exist.

use vstd::prelude::*;
use vstd::string::*;

verus! {

/// The characters that one element of an object path is made of: ASCII
/// letters, ASCII digits and the underscore.
pub open spec fn is_name_char(c: char) -> bool {
    ('a' <= c && c <= 'z') || ('A' <= c && c <= 'Z') || ('0' <= c && c <= '9') || c == '_'
}

/// A handle token is one element of an object path: at least one character,
/// each of them a name character.
pub open spec fn is_token(s: Seq<char>) -> bool {
    &&& s.len() > 0
    &&& forall|i: int| 0 <= i < s.len() ==> is_name_char(#[trigger] s[i])
}

/// The bytes of the name characters.
spec fn is_name_byte(b: u8) -> bool {
    (0x61 <= b && b <= 0x7a) || (0x41 <= b && b <= 0x5a) || (0x30 <= b && b <= 0x39) || b == 0x5f
}

fn name_byte(b: u8) -> (yes: bool)
    ensures
        yes == is_name_byte(b),
{
    (0x61 <= b && b <= 0x7a) || (0x41 <= b && b <= 0x5a) || (0x30 <= b && b <= 0x39) || b == 0x5f
}

/// A string that names one pending request or one session-to-be. It becomes
/// the last element of the object path of what it names.
#[derive(Debug, PartialEq, Eq)]
pub struct HandleToken {
    token: String,
}

impl View for HandleToken {
    type V = Seq<char>;

    closed spec fn view(&self) -> Seq<char> {
        self.token@
    }
}

impl Clone for HandleToken {
    fn clone(&self) -> (copy: HandleToken)
        ensures
            copy == *self,
    {
        proof {
            use_type_invariant(self);
        }
        HandleToken { token: self.token.clone() }
    }
}

/// An optional token by its characters.
pub open spec fn token_view(token: Option<HandleToken>) -> Option<Seq<char>> {
    match token {
        Some(t) => Some(t@),
        None => None,
    }
}

impl HandleToken {
    /// The string is a handle token.
    #[verifier::type_invariant]
    pub closed spec fn wf(self) -> bool {
        is_token(self.token@)
    }

    /// Makes a token of the string, if the string is one.
    pub fn new(token: &str) -> (result: Option<HandleToken>)
        ensures
            is_token(token@) ==> (result matches Some(t) && t@ == token@),
            !is_token(token@) ==> result is None,
    {
        if !token.is_ascii() {
            return None;
        }
        let bytes = token.as_bytes();
        let n = bytes.len();
        proof {
            is_ascii_spec_bytes(token);
        }
        if n == 0 {
            return None;
        }
        let mut i: usize = 0;
        while i < n
            invariant
                i <= n,
                n == token@.len(),
                is_ascii(token),
                bytes@ == Seq::new(token@.len(), |k: int| token@.index(k) as u8),
                forall|j: int| 0 <= j < i ==> is_name_char(#[trigger] token@[j]),
            decreases n - i,
        {
            let b: u8 = bytes[i];
            if !name_byte(b) {
                proof {
                    assert(bytes@[i as int] == token@[i as int] as u8);
                    assert(!is_name_char(token@[i as int]));
                }
                return None;
            }
            proof {
                assert(bytes@[i as int] == token@[i as int] as u8);
                assert(is_name_char(token@[i as int]));
            }
            i += 1;
        }
        Some(HandleToken { token: token.to_owned() })
    }

    /// The token as a string.
    pub fn as_str(&self) -> (s: &str)
        ensures
            s@ == self@,
            is_token(s@),
    {
        proof {
            use_type_invariant(self);
        }
        self.token.as_str()
    }

    /// Whether the two tokens are the same string.
    pub fn same_as(&self, other: &HandleToken) -> (same: bool)
        ensures
            same == (self@ == other@),
    {
        self.token == other.token
    }

    /// Every token is made of name characters only, and is not empty.
    pub proof fn lemma_is_token(self)
        requires
            self.wf(),
        ensures
            is_token(self@),
    {
    }
}

} // verus!
