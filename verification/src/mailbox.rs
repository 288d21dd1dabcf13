//! The shared overwritable slot, modelled as an injected capability: a
//! single value that either side may overwrite at will and read
//! repeatedly without consuming it. The carrier is substitutable, so the
//! state machines and the tests can run over an in-process slot.
use vstd::prelude::*;
use vstd::string::StringExecFns;

verus! {

/// A single overwritable text slot. Reading may return the same value on
/// repeated calls; writing overwrites unconditionally and is never
/// acknowledged to the writer.
pub trait Mailbox {
    /// The slot's current content, as the implementation models it.
    spec fn slot(&self) -> Option<Seq<char>>;

    /// Overwrites the slot. On success the slot holds exactly `data`.
    fn put(&mut self, data: &str) -> (r: Result<(), String>)
        ensures
            r is Ok ==> final(self).slot() == Some(data@),
    ;

    /// Reads the slot without consuming it. A successful read returns
    /// the slot's current content.
    fn get(&self) -> (r: Result<String, String>)
        ensures
            r matches Ok(s) ==> self.slot() == Some(s@),
    ;
}

/// An in-process slot: the substitute carrier used by the tests, with
/// the same overwrite and repeated-read semantics as any shared slot.
pub struct InMemoryMailbox {
    pub content: Option<String>,
}

impl InMemoryMailbox {
    /// An empty slot.
    pub fn new() -> (r: InMemoryMailbox)
        ensures
            r.slot() is None,
    {
        InMemoryMailbox { content: None }
    }
}

impl Mailbox for InMemoryMailbox {
    open spec fn slot(&self) -> Option<Seq<char>> {
        match self.content {
            Some(s) => Some(s@),
            None => None,
        }
    }

    fn put(&mut self, data: &str) -> (r: Result<(), String>)
        ensures
            r is Ok,
            final(self).slot() == Some(data@),
    {
        self.content = Some(data.to_owned());
        Ok(())
    }

    fn get(&self) -> (r: Result<String, String>)
        ensures
            r is Ok <==> self.slot() is Some,
            r matches Ok(s) ==> self.slot() == Some(s@),
    {
        match &self.content {
            Some(s) => Ok(s.clone()),
            None => Err(String::from_str("the slot is empty")),
        }
    }
}

} // verus!
