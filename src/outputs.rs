//! The output store: each key's most recent JSON-encoded value, held in a
//! hashbrown map.

use vstd::prelude::*;

use crate::wire::entry_views;

verus! {

/// A map from output key to the JSON text of its latest value.
#[verifier::external_body]
pub struct OutputMap {
    map: hashbrown::HashMap<String, Vec<u8>>,
}

/// What an output map holds: key to encoded value.
pub uninterp spec fn contents(m: OutputMap) -> Map<Seq<char>, Seq<u8>>;

/// The contents of a map with no entries.
pub open spec fn no_outputs() -> Map<Seq<char>, Seq<u8>> {
    Map::empty()
}

/// `s` lists the map `m`: one member per key of `m`, each with its value.
pub open spec fn lists(s: Seq<(Seq<char>, Seq<u8>)>, m: Map<Seq<char>, Seq<u8>>) -> bool {
    &&& s.len() == m.dom().len()
    &&& forall|i: int| 0 <= i < s.len() ==> #[trigger] m.contains_key(s[i].0) && m[s[i].0] == s[i].1
    &&& forall|i: int, j: int|
        0 <= i < s.len() && 0 <= j < s.len() && i != j ==> #[trigger] s[i].0 != #[trigger] s[j].0
}

impl OutputMap {
    /// Relies on `hashbrown::HashMap::new`: a map with no entries.
    #[verifier::external_body]
    pub(crate) fn new() -> (r: OutputMap)
        ensures
            contents(r) == no_outputs(),
    {
        OutputMap { map: hashbrown::HashMap::new() }
    }

    /// Relies on `hashbrown::HashMap::insert`: `key` now maps to `value`, any
    /// earlier value of `key` is dropped and the other keys are untouched.
    #[verifier::external_body]
    pub(crate) fn insert(&mut self, key: String, value: Vec<u8>)
        ensures
            contents(*final(self)) == contents(*old(self)).insert(key@, value@),
    {
        self.map.insert(key, value);
    }

    /// Relies on `hashbrown::HashMap::is_empty`: true when no key is held.
    #[verifier::external_body]
    pub(crate) fn is_empty(&self) -> (r: bool)
        ensures
            r == (contents(*self) == no_outputs()),
    {
        self.map.is_empty()
    }

    /// Relies on `hashbrown::HashMap::clear`: every entry is removed.
    #[verifier::external_body]
    pub(crate) fn clear(&mut self)
        ensures
            contents(*final(self)) == no_outputs(),
    {
        self.map.clear();
    }

    /// Relies on `hashbrown::HashMap::clone`: a map with the same entries.
    #[verifier::external_body]
    pub(crate) fn snapshot(&self) -> (r: OutputMap)
        ensures
            contents(r) == contents(*self),
    {
        OutputMap { map: self.map.clone() }
    }

    /// Relies on `hashbrown::HashMap::iter`: each entry once, in the map's
    /// own order, copied out.
    #[verifier::external_body]
    pub(crate) fn entries(&self) -> (r: Vec<(String, Vec<u8>)>)
        ensures
            lists(entry_views(r@), contents(*self)),
    {
        self.map.iter().map(|(k, v)| (k.clone(), v.clone())).collect()
    }
}

} // verus!
