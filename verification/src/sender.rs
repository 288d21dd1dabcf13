//! The sender's side of the transfer: the chunking and index arithmetic
//! behind the announce–stream–finish sequence. The loop around it reads
//! the file, performs the pacing sleeps and writes to the slot; every
//! decision about indices, offsets and termination is made here.
use crate::packet::{Packet, PacketData, PacketStart, PacketView};
use vstd::prelude::*;

verus! {

/// The sender's state: the index of the last emitted block and the
/// chunk size the file is cut into. Block numbers are 1-based and
/// strictly sequential; in resume mode they begin at `skip + 1`.
pub struct Sender {
    pub index: u64,
    pub chunk_size: usize,
    pub finished: bool,
}

/// The state of a sender that has yet to emit its first block.
pub open spec fn spec_new_sender(chunk_size: usize, skip: u64) -> Sender {
    Sender { index: skip, chunk_size, finished: false }
}

/// What one read from the file does to the sender: an empty read ends
/// the stream; anything else becomes the next block, numbered one past
/// the previous.
pub open spec fn spec_next_packet(s: Sender, chunk: Seq<u8>) -> (Sender, PacketView) {
    if chunk.len() == 0 {
        (Sender { finished: true, ..s }, PacketView::End)
    } else {
        (
            Sender { index: (s.index + 1) as u64, ..s },
            PacketView::Data { index: (s.index + 1) as u64, data: chunk },
        )
    }
}

impl Sender {
    /// A sender about to announce. In resume mode `skip` is the number
    /// of chunks the operator asserts the receiver already has; whether
    /// the receiver's partial file really matches is the caller's
    /// responsibility.
    pub fn new(chunk_size: usize, skip: u64) -> (s: Sender)
        ensures
            s == spec_new_sender(chunk_size, skip),
    {
        Sender { index: skip, chunk_size, finished: false }
    }

    /// The `Start` packet announcing the file: its name, its total byte
    /// count, and the pacing interval the receiver derives its own poll
    /// interval from.
    pub fn announce(&self, name: String, length: u64, timeout: u32) -> (p: Packet)
        ensures
            p@ == (PacketView::Start { name: name@, length, timeout }),
    {
        Packet::Start(PacketStart { name, length, timeout })
    }

    /// The byte offset at which reading starts: everything up to and
    /// including block `index` is skipped.
    pub fn start_offset(&self) -> (r: u64)
        requires
            self.index * self.chunk_size <= u64::MAX,
        ensures
            r == self.index * self.chunk_size,
    {
        self.index * (self.chunk_size as u64)
    }

    /// Turns the next chunk read from the file into the packet to emit.
    pub fn next_packet(&mut self, chunk: Vec<u8>) -> (p: Packet)
        requires
            !old(self).finished,
            old(self).index < u64::MAX,
        ensures
            *final(self) == spec_next_packet(*old(self), chunk@).0,
            p@ == spec_next_packet(*old(self), chunk@).1,
    {
        if chunk.len() == 0 {
            self.finished = true;
            Packet::End
        } else {
            self.index = self.index + 1;
            Packet::Data(PacketData { index: self.index, data: chunk })
        }
    }
}

/// Resume arithmetic: a sender created with a skip of `k` chunks of
/// size `s` starts reading at byte offset `k * s`, and the first block
/// it emits from a nonempty read carries index `k + 1`.
pub proof fn lemma_resume_arithmetic(chunk_size: usize, skip: u64, first_chunk: Seq<u8>)
    requires
        first_chunk.len() > 0,
        skip < u64::MAX,
    ensures
        spec_new_sender(chunk_size, skip).index * spec_new_sender(chunk_size, skip).chunk_size
            == skip * chunk_size,
        spec_next_packet(spec_new_sender(chunk_size, skip), first_chunk).1
            == (PacketView::Data { index: (skip + 1) as u64, data: first_chunk }),
        !spec_next_packet(spec_new_sender(chunk_size, skip), first_chunk).0.finished,
{
}

} // verus!
