//! The codec applied at the slot: sending encodes a packet and
//! overwrites the slot with its wire text; receiving reads the slot and
//! decodes, degrading unreadable content to `Noop` instead of failing.
use crate::codec::{spec_decode, spec_encode};
use crate::mailbox::Mailbox;
use crate::packet::Packet;
use vstd::prelude::*;

verus! {

/// One end's handle on the shared slot: packets go in encoded, come out
/// decoded.
pub struct Protocol<M: Mailbox> {
    pub mailbox: M,
}

impl<M: Mailbox> Protocol<M> {
    /// A protocol endpoint over the given slot.
    pub fn new(mailbox: M) -> (r: Protocol<M>)
        ensures
            r.mailbox == mailbox,
    {
        Protocol { mailbox }
    }

    /// Encodes a packet and overwrites the slot with it. On success the
    /// slot holds exactly the packet's wire text.
    pub fn send_encoded(&mut self, p: Packet) -> (r: Result<(), String>)
        ensures
            r is Ok ==> final(self).mailbox.slot() == Some(spec_encode(p@)),
    {
        let data: String = p.encode();
        self.send(data)
    }

    /// Reads the slot and decodes it. A successful read returns exactly
    /// what the slot's text decodes to — so the encoding of a packet
    /// comes back as that packet, unreadable content comes back as
    /// `Noop` rather than an error, and repeated reads of an unchanged
    /// slot return the same packet.
    pub fn recv_decoded(&self) -> (r: Result<Packet, String>)
        ensures
            r matches Ok(p) ==> (self.mailbox.slot() matches Some(s) && p@ == spec_decode(s)),
    {
        match self.recv() {
            Ok(text) => Ok(Packet::decode(text.as_str())),
            Err(e) => Err(e),
        }
    }

    fn send(&mut self, data: String) -> (r: Result<(), String>)
        ensures
            r is Ok ==> final(self).mailbox.slot() == Some(data@),
    {
        self.mailbox.put(data.as_str())
    }

    fn recv(&self) -> (r: Result<String, String>)
        ensures
            r matches Ok(s) ==> self.mailbox.slot() == Some(s@),
    {
        self.mailbox.get()
    }
}

} // verus!
