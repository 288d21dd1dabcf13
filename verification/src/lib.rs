//! A small file-transfer protocol over a single shared, overwritable text
//! slot: a packet codec with a text-safe wire encoding, and the sender and
//! receiver state machines that frame a byte stream, tolerate duplicate or
//! stale reads of the slot, and decide when a transfer is complete.
pub mod codec;
pub mod mailbox;
pub mod protocol;
pub mod receiver;
pub mod sender;
pub mod packet;
pub mod wire;
