//! The protocol's messages: a closed set of packet variants, with a
//! mathematical view used by every contract of the codec and the two
//! state machines.
use vstd::prelude::*;

verus! {

/// Announcement of an incoming file: its name, its total byte count, and
/// the sender's pacing interval in milliseconds.
#[derive(Debug, Clone, PartialEq, Eq)]
pub struct PacketStart {
    pub name: String,
    pub length: u64,
    pub timeout: u32,
}

/// One chunk of the file: a 1-based, strictly sequential block number and
/// its bytes.
#[derive(Debug, Clone, PartialEq, Eq)]
pub struct PacketData {
    pub index: u64,
    pub data: Vec<u8>,
}

/// A message carried through the shared slot.
#[derive(Debug, Clone, PartialEq, Eq)]
pub enum Packet {
    /// Nothing new; also what any unreadable slot content decodes to.
    Noop,
    /// Announces an incoming file.
    Start(PacketStart),
    /// One chunk of the file.
    Data(PacketData),
    /// The sender has exhausted its input.
    End,
}

/// The mathematical value of a packet: strings as character sequences,
/// payloads as byte sequences.
#[verifier::ext_equal]
pub enum PacketView {
    Noop,
    Start { name: Seq<char>, length: u64, timeout: u32 },
    Data { index: u64, data: Seq<u8> },
    End,
}

impl View for PacketStart {
    type V = PacketView;

    open spec fn view(&self) -> PacketView {
        PacketView::Start { name: self.name@, length: self.length, timeout: self.timeout }
    }
}

impl View for PacketData {
    type V = PacketView;

    open spec fn view(&self) -> PacketView {
        PacketView::Data { index: self.index, data: self.data@ }
    }
}

impl View for Packet {
    type V = PacketView;

    open spec fn view(&self) -> PacketView {
        match self {
            Packet::Noop => PacketView::Noop,
            Packet::Start(s) => s@,
            Packet::Data(d) => d@,
            Packet::End => PacketView::End,
        }
    }
}

} // verus!
