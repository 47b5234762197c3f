//! Domains: logical hostnames, each selecting its own route table.
use vstd::prelude::*;

verus! {

/// A domain name used for routing (virtual hosting).
#[derive(Debug)]
pub struct Domain {
    /// The domain name as a string.
    pub name: String,
}

impl Domain {
    /// Creates a new `Domain` with the given name.
    pub fn new(name: &str) -> (r: Domain)
        ensures
            r.name@ == name@,
    {
        Domain { name: String::from_str(name) }
    }

    /// Returns the domain name as a `String`.
    pub fn as_str(&self) -> (r: String)
        ensures
            r@ == self.name@,
    {
        self.name.clone()
    }

    /// True when both domains carry the same name.
    pub fn same(&self, other: &Domain) -> (r: bool)
        ensures
            r == (self.name@ == other.name@),
    {
        crate::text::str_eq(self.name.as_str(), other.name.as_str())
    }
}

impl Clone for Domain {
    /// Cloning keeps the name.
    fn clone(&self) -> (r: Self)
        ensures
            r.name@ == self.name@,
    {
        Domain { name: self.name.clone() }
    }
}

} // verus!
