//! The method registry: handlers by method name.

use vstd::hash_map::StringHashMap;
use vstd::prelude::*;

verus! {

/// A mapping from method names to handlers. A name holds one handler;
/// registering under a name that is taken replaces the handler. Nothing is
/// ever removed.
#[verifier::reject_recursive_types(H)]
pub struct Registry<H> {
    handlers: StringHashMap<H>,
}

impl<H> View for Registry<H> {
    type V = Map<Seq<char>, H>;

    closed spec fn view(&self) -> Map<Seq<char>, H> {
        self.handlers@
    }
}

impl<H> Registry<H> {
    /// The registry without any method.
    pub fn new() -> (r: Self)
        ensures
            r@ == Map::<Seq<char>, H>::empty(),
    {
        Registry { handlers: StringHashMap::new() }
    }

    /// Puts a handler under a name, in place of the one that was there.
    pub fn register(&mut self, name: &str, handler: H)
        ensures
            final(self)@ == old(self)@.insert(name@, handler),
    {
        self.handlers.insert(name.to_owned(), handler);
    }

    /// The handler under a name, if there is one.
    pub fn lookup(&self, name: &str) -> (r: Option<&H>)
        ensures
            match r {
                Some(h) => self@.contains_key(name@) && *h == self@[name@],
                None => !self@.contains_key(name@),
            },
    {
        self.handlers.get(name)
    }

    /// Whether a name has a handler.
    pub fn contains(&self, name: &str) -> (r: bool)
        ensures
            r == self@.contains_key(name@),
    {
        self.handlers.contains_key(name)
    }

    /// The number of names that have a handler.
    pub fn len(&self) -> (r: usize)
        ensures
            r == self@.len(),
    {
        self.handlers.len()
    }
}

} // verus!
