//! A configuration source of a single item, used to merge one command-line
//! override into a loaded configuration.

use vstd::prelude::*;

verus! {

/// One (key, value) pair to merge over a configuration.
#[derive(Clone, Debug, PartialEq, Eq)]
pub struct SingleItemSource(pub String, pub String);

impl SingleItemSource {
    /// A source holding the one pair.
    pub fn new(key: &str, value: String) -> (r: SingleItemSource)
        ensures
            r.0@ == key@,
            r.1 == value,
    {
        SingleItemSource(String::from_str(key), value)
    }

    /// The key.
    pub fn key(&self) -> (r: &str)
        ensures
            r@ == self.0@,
    {
        self.0.as_str()
    }

    /// The value.
    pub fn value(&self) -> (r: &str)
        ensures
            r@ == self.1@,
    {
        self.1.as_str()
    }
}

} // verus!
