//! The values that travel in the dictionaries of calls and responses.

use vstd::prelude::*;
use vstd::string::*;

use crate::assoc::{keys_of, lemma_len, Assoc};
use crate::path::ObjectPath;

verus! {

/// A double-precision number, held as the 64 bits of its binary
/// representation. Coordinates and motion deltas pass through this crate
/// without being read.
#[derive(Clone, Copy, Debug, PartialEq, Eq, Structural)]
pub struct Double {
    pub bits: u64,
}

/// One value of a dictionary.
#[derive(Debug, PartialEq, Eq)]
pub enum Value {
    /// A truth value.
    Bool(bool),
    /// A signed 32-bit number.
    I32(i32),
    /// An unsigned 32-bit number.
    U32(u32),
    /// A double-precision number.
    Double(Double),
    /// A string.
    Str(String),
    /// An object path.
    Path(ObjectPath),
}

/// What a value is: strings and paths by their characters.
pub enum ValueView {
    Bool(bool),
    I32(i32),
    U32(u32),
    Double(Double),
    Str(Seq<char>),
    Path(Seq<char>),
}

impl View for Value {
    type V = ValueView;

    open spec fn view(&self) -> ValueView {
        match self {
            Value::Bool(b) => ValueView::Bool(*b),
            Value::I32(n) => ValueView::I32(*n),
            Value::U32(n) => ValueView::U32(*n),
            Value::Double(d) => ValueView::Double(*d),
            Value::Str(s) => ValueView::Str(s@),
            Value::Path(p) => ValueView::Path(p@),
        }
    }
}

impl Clone for Value {
    fn clone(&self) -> (copy: Value)
        ensures
            copy == *self,
    {
        match self {
            Value::Bool(b) => Value::Bool(*b),
            Value::I32(n) => Value::I32(*n),
            Value::U32(n) => Value::U32(*n),
            Value::Double(d) => Value::Double(*d),
            Value::Str(s) => Value::Str(s.clone()),
            Value::Path(p) => Value::Path(p.clone()),
        }
    }
}

/// A dictionary from strings to values, as calls and responses carry it.
#[derive(Debug)]
pub struct Dict {
    entries: Assoc<Value>,
}

impl View for Dict {
    type V = Map<Seq<char>, ValueView>;

    closed spec fn view(&self) -> Map<Seq<char>, ValueView> {
        self.entries@.map_values(|v: Value| v@)
    }
}

impl Dict {
    /// The keys, in the order in which they first came.
    pub closed spec fn spec_keys(&self) -> Seq<Seq<char>> {
        keys_of(self.entries.spec_entries())
    }

    /// The dictionary without any key.
    pub fn new() -> (dict: Dict)
        ensures
            dict@ == Map::<Seq<char>, ValueView>::empty(),
            dict.spec_keys().len() == 0,
    {
        let dict = Dict { entries: Assoc::new() };
        assert(dict@ =~= Map::<Seq<char>, ValueView>::empty());
        dict
    }

    /// Gives the key this value, whether it had one or not.
    pub fn insert(&mut self, key: &str, value: Value)
        ensures
            final(self)@ == old(self)@.insert(key@, value@),
    {
        self.entries.insert(key.to_owned(), value);
        assert(self@ =~= old(self)@.insert(key@, value@));
    }

    /// The value of the key, if it has one.
    pub fn get(&self, key: &str) -> (value: Option<&Value>)
        ensures
            self@.contains_key(key@) ==> (value matches Some(v) && v@ == self@[key@]),
            !self@.contains_key(key@) ==> value is None,
    {
        let owned = key.to_owned();
        self.entries.get(&owned)
    }

    /// The number of keys.
    pub fn len(&self) -> (n: usize)
        ensures
            n == self@.len(),
            n == self.spec_keys().len(),
            self@.dom().finite(),
            self.spec_keys().no_duplicates(),
            self.spec_keys().to_set() == self@.dom(),
    {
        let n = self.entries.len();
        proof {
            use_type_invariant(&self.entries);
            self.entries.lemma_entries();
            lemma_len(self.entries.spec_entries());
            assert(self@.dom() =~= self.entries@.dom());
        }
        n
    }

    /// The key at a place with its value, if the place is below the number
    /// of keys. The places hold the keys of the dictionary, each of them
    /// once, in the order in which they first came.
    pub fn entry_at(&self, i: usize) -> (entry: Option<(&str, &Value)>)
        ensures
            i < self.spec_keys().len() ==> (entry matches Some((key, value)) && key@
                == self.spec_keys()[i as int] && self@.contains_key(key@) && value@
                == self@[key@]),
            i >= self.spec_keys().len() ==> entry is None,
    {
        match self.entries.entry(i) {
            Some(entry) => Some((entry.key.as_str(), &entry.value)),
            None => None,
        }
    }
}

} // verus!
