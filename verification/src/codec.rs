//! The packet codec: one leading control character selects the variant;
//! for `Start` and `Data` it is followed by the binary body wrapped in a
//! printable, reversible text encoding, since the slot only reliably
//! carries text. Decoding is total: unreadable input of any shape
//! degrades to `Noop`, never to an error.
use crate::packet::{Packet, PacketData, PacketStart, PacketView};
use crate::wire::{
    lemma_u32_be_round, lemma_u64_be_round, push_u32_be, push_u64_be, spec_u32_from_be,
    spec_u32_to_be, spec_u64_from_be, spec_u64_to_be, Reader,
};
use vstd::prelude::*;
use vstd::string::{StrSliceExecFns, StringExecFns};
use vstd::utf8::{
    decode_utf8, encode_utf8, encode_utf8_decode_utf8, encode_utf8_valid_utf8, valid_utf8,
};

verus! {

/// Control character announcing an incoming file.
pub const CTRL_START: char = '\u{1}';

/// Control character signalling the end of the stream.
pub const CTRL_END: char = '\u{2}';

/// Control character carrying one chunk of the file.
pub const CTRL_DATA: char = '\u{3}';

/// Control character meaning "nothing new".
pub const CTRL_NOOP: char = '\u{4}';

/// The place values of the five digits of a base-85 group.
pub const A85_P4: u64 = 52200625;

pub const A85_P3: u64 = 614125;

pub const A85_P2: u64 = 7225;

pub const A85_P1: u64 = 85;

/// The text that `ascii85::encode` produces for the given bytes. The
/// result depends on the bytes alone, so it is given a name rather than
/// written out.
pub uninterp spec fn a85_of(b: Seq<u8>) -> Seq<char>;

/// The bytes that `ascii85::decode` yields for the given text, `None`
/// standing for its error. Also a function of the text alone.
pub uninterp spec fn a85_dec_of(s: Seq<char>) -> Option<Seq<u8>>;

/// One leading `<~` and one trailing `~>` taken off, as the decoder
/// strips its delimiters.
pub open spec fn a85_strip(s: Seq<char>) -> Seq<char> {
    let t = if s.len() >= 2 && s[0] == '<' && s[1] == '~' {
        s.skip(2)
    } else {
        s
    };
    if t.len() >= 2 && t[t.len() - 2] == '~' && t[t.len() - 1] == '>' {
        t.take(t.len() - 2)
    } else {
        t
    }
}

/// The numeric value of the digit at `i`; positions past the end count
/// as the maximal digit, which is how the decoder pads a short final
/// group.
pub open spec fn a85_digit(t: Seq<char>, i: int) -> int {
    if 0 <= i < t.len() {
        (t[i] as u32) - 33
    } else {
        84
    }
}

/// The group value the decoder accumulates for the five digits starting
/// at `i`.
pub open spec fn a85_group_val(t: Seq<char>, i: int) -> int {
    a85_digit(t, i) * (A85_P4 as int) + a85_digit(t, i + 1) * (A85_P3 as int) + a85_digit(t, i + 2)
        * (A85_P2 as int) + a85_digit(t, i + 3) * (A85_P1 as int) + a85_digit(t, i + 4)
}

/// Text on which the decoder's 32-bit group arithmetic stays in bounds:
/// after the stripping above, only base-85 digits, and no group value
/// (short final groups padded as the decoder pads them) above
/// `u32::MAX`. Every encoder output satisfies this. Text the decoder
/// would also take — interior whitespace, repeated delimiters — is
/// conservatively left outside and degrades to `Noop`.
pub open spec fn a85_safe(s: Seq<char>) -> bool {
    let t = a85_strip(s);
    &&& forall|i: int| 0 <= i < t.len() ==> 33 <= (#[trigger] t[i] as u32) <= 117
    &&& forall|i: int|
        0 <= i < t.len() && i % 5 == 0 ==> #[trigger] a85_group_val(t, i) <= u32::MAX
}

/// Every character lies in the printable band the slot reliably
/// carries.
pub open spec fn printable(s: Seq<char>) -> bool {
    forall|i: int| 0 <= i < s.len() ==> 33 <= (#[trigger] s[i] as u32) <= 126
}

/// Relies on ascii85::encode: the text-safe encoding of a byte string,
/// a function of the input bytes alone. Its output is one `<~`, base-85
/// digits, one `~>` — all printable and within `a85_safe` — and
/// ascii85::decode reads it back to exactly the input bytes.
#[verifier::external_body]
fn a85_encode(b: &[u8]) -> (r: String)
    ensures
        r@ == a85_of(b@),
        a85_safe(r@),
        a85_dec_of(r@) == Some(b@),
        printable(r@),
{
    ascii85::encode(b)
}

/// Relies on ascii85::decode: within `a85_safe` its group arithmetic
/// stays in `u32` (outside it, a five-digit group above `u32::MAX`
/// overflows), its result is the function of the text alone named
/// `a85_dec_of`, and it inverts ascii85::encode. The crate's error is
/// mapped to `None`.
#[verifier::external_body]
fn a85_decode(s: &str) -> (r: Option<Vec<u8>>)
    requires
        a85_safe(s@),
    ensures
        a85_dec_of(s@) == (match r {
            Some(v) => Some(v@),
            None => None::<Seq<u8>>,
        }),
        forall|b: Seq<u8>| s@ == #[trigger] a85_of(b) ==> r is Some && r.unwrap()@ == b,
{
    match ascii85::decode(s) {
        Ok(v) => Some(v),
        Err(_) => None,
    }
}

/// Relies on String::from_utf8: it succeeds exactly on valid UTF-8 and
/// yields the characters that the bytes encode. The error is mapped to
/// `None`.
#[verifier::external_body]
fn bytes_to_string(v: Vec<u8>) -> (r: Option<String>)
    ensures
        valid_utf8(v@) ==> r is Some && r.unwrap()@ == decode_utf8(v@),
        !valid_utf8(v@) ==> r is None,
{
    match String::from_utf8(v) {
        Ok(s) => Some(s),
        Err(_) => None,
    }
}

/// The partial group value after the first `pos` digits of the group
/// starting at `g`.
pub open spec fn a85_partial_val(t: Seq<char>, g: int, pos: int) -> int {
    (if pos >= 1 {
        a85_digit(t, g) * (A85_P4 as int)
    } else {
        0
    }) + (if pos >= 2 {
        a85_digit(t, g + 1) * (A85_P3 as int)
    } else {
        0
    }) + (if pos >= 3 {
        a85_digit(t, g + 2) * (A85_P2 as int)
    } else {
        0
    }) + (if pos >= 4 {
        a85_digit(t, g + 3) * (A85_P1 as int)
    } else {
        0
    }) + (if pos >= 5 {
        a85_digit(t, g + 4)
    } else {
        0
    })
}

/// Decides `a85_safe` by walking the text exactly as the decoder will
/// read it, so that the decoder is only ever handed text it is known to
/// stay in bounds on.
#[verifier::rlimit(100)]
fn a85_body_safe(s: &str) -> (ok: bool)
    ensures
        ok == a85_safe(s@),
{
    let n: usize = s.unicode_len();
    let start: usize = if n >= 2 && s.get_char(0) == '<' && s.get_char(1) == '~' {
        2
    } else {
        0
    };
    let end: usize = if n - start >= 2 && s.get_char(n - 2) == '~' && s.get_char(n - 1) == '>' {
        n - 2
    } else {
        n
    };
    let ghost t = a85_strip(s@);
    proof {
        assert(t =~= s@.subrange(start as int, end as int));
    }
    let mut i: usize = start;
    let mut pos: usize = 0;
    let mut val: u64 = 0;
    while i < end
        invariant
            n == s@.len(),
            start <= i <= end <= n,
            t == a85_strip(s@),
            t == s@.subrange(start as int, end as int),
            pos <= 4,
            pos as int == (i - start) % 5,
            forall|k: int| 0 <= k < i - start ==> 33 <= (#[trigger] t[k] as u32) <= 117,
            forall|k: int|
                0 <= k < (i - start) - pos && k % 5 == 0 ==> #[trigger] a85_group_val(t, k)
                    <= u32::MAX,
            val == a85_partial_val(t, (i - start) - pos, pos as int),
            val <= 5 * (84 * A85_P4),
        decreases end - i,
    {
        let c = s.get_char(i);
        let cv: u32 = c as u32;
        if cv < 33 || cv > 117 {
            proof {
                assert(t[i - start] == s@[i as int]);
            }
            return false;
        }
        let d: u64 = (cv - 33) as u64;
        let term: u64 = if pos == 0 {
            d * A85_P4
        } else if pos == 1 {
            d * A85_P3
        } else if pos == 2 {
            d * A85_P2
        } else if pos == 3 {
            d * A85_P1
        } else {
            d
        };
        val = val + term;
        proof {
            assert(t[i - start] == s@[i as int]);
            assert(val == a85_partial_val(t, (i - start) - pos, pos + 1));
        }
        if pos == 4 {
            if val > 0xffff_ffff {
                proof {
                    assert(a85_group_val(t, (i - start) - 4) == val);
                }
                return false;
            }
            proof {
                assert(a85_group_val(t, (i - start) - 4) == val);
            }
            pos = 0;
            val = 0;
        } else {
            pos = pos + 1;
        }
        i = i + 1;
    }
    if pos != 0 {
        let pad: u64 = if pos == 1 {
            84 * (A85_P3 + A85_P2 + A85_P1 + 1)
        } else if pos == 2 {
            84 * (A85_P2 + A85_P1 + 1)
        } else if pos == 3 {
            84 * (A85_P1 + 1)
        } else {
            84
        };
        val = val + pad;
        proof {
            assert(a85_group_val(t, (end - start) - pos) == val);
        }
        if val > 0xffff_ffff {
            return false;
        }
    }
    proof {
        assert forall|k: int|
            0 <= k < t.len() && k % 5 == 0 implies #[trigger] a85_group_val(t, k)
            <= u32::MAX by {
            assert(k <= (end - start) - pos);
        }
    }
    true
}

/// The binary body of a `Start` packet: length, then timeout, both
/// big-endian, then the file name as UTF-8 to the end of the body.
pub open spec fn start_body(name: Seq<char>, length: u64, timeout: u32) -> Seq<u8> {
    spec_u64_to_be(length) + spec_u32_to_be(timeout) + encode_utf8(name)
}

/// The binary body of a `Data` packet: the block index big-endian, then
/// the chunk bytes to the end of the body.
pub open spec fn data_body(index: u64, data: Seq<u8>) -> Seq<u8> {
    spec_u64_to_be(index) + data
}

/// The wire text of a packet: its control character, followed for
/// `Start` and `Data` by the text-safe encoding of the binary body.
pub open spec fn spec_encode(p: PacketView) -> Seq<char> {
    match p {
        PacketView::Noop => seq![CTRL_NOOP],
        PacketView::Start { name, length, timeout } => seq![CTRL_START] + a85_of(
            start_body(name, length, timeout),
        ),
        PacketView::Data { index, data } => seq![CTRL_DATA] + a85_of(data_body(index, data)),
        PacketView::End => seq![CTRL_END],
    }
}

/// The packet a decoded `Start` body parses to: too short a body, or a
/// name that is not UTF-8, degrades to `Noop`.
pub open spec fn spec_parse_start(b: Seq<u8>) -> PacketView {
    if b.len() < 12 {
        PacketView::Noop
    } else if !valid_utf8(b.skip(12)) {
        PacketView::Noop
    } else {
        PacketView::Start {
            name: decode_utf8(b.skip(12)),
            length: spec_u64_from_be(b.subrange(0, 8)),
            timeout: spec_u32_from_be(b.subrange(8, 12)),
        }
    }
}

/// The packet a decoded `Data` body parses to: too short a body
/// degrades to `Noop`.
pub open spec fn spec_parse_data(b: Seq<u8>) -> PacketView {
    if b.len() < 8 {
        PacketView::Noop
    } else {
        PacketView::Data {
            index: spec_u64_from_be(b.subrange(0, 8)),
            data: b.skip(8),
        }
    }
}

/// The packet the text after a `Start` or `Data` control character
/// decodes to: text outside the decoder's arithmetic bound, text it
/// rejects, and bodies that do not parse all degrade to `Noop`.
pub open spec fn spec_decode_body(t: Seq<char>, is_start: bool) -> PacketView {
    if !a85_safe(t) {
        PacketView::Noop
    } else {
        match a85_dec_of(t) {
            Option::None => PacketView::Noop,
            Option::Some(b) => if is_start {
                spec_parse_start(b)
            } else {
                spec_parse_data(b)
            },
        }
    }
}

/// The packet any slot text decodes to. Total: every input is assigned
/// a packet, and everything unreadable is assigned `Noop`.
pub open spec fn spec_decode(s: Seq<char>) -> PacketView {
    if s.len() == 0 {
        PacketView::Noop
    } else if s[0] == CTRL_NOOP {
        PacketView::Noop
    } else if s[0] == CTRL_START {
        spec_decode_body(s.skip(1), true)
    } else if s[0] == CTRL_DATA {
        spec_decode_body(s.skip(1), false)
    } else if s[0] == CTRL_END {
        PacketView::End
    } else {
        PacketView::Noop
    }
}

/// Parses the decoded body of a `Start` packet. Too short a body, or a
/// name that is not UTF-8, yields `None`.
pub fn parse_start_body(b: &[u8]) -> (r: Option<PacketStart>)
    ensures
        r matches Some(ps) ==> ps@ == spec_parse_start(b@) && spec_parse_start(b@) is Start,
        r is None ==> spec_parse_start(b@) is Noop,
{
    let n: usize = b.len();
    if n < 12 {
        return None;
    }
    let mut rd = Reader::from(b, 0);
    let length = rd.read_u64();
    let timeout = rd.read_u32();
    let name_bytes = rd.read_to_end();
    proof {
        assert(name_bytes@ =~= b@.skip(12));
    }
    match bytes_to_string(name_bytes) {
        Some(name) => Some(PacketStart { name, length, timeout }),
        None => None,
    }
}

/// Parses the decoded body of a `Data` packet. Too short a body yields
/// `None`.
pub fn parse_data_body(b: &[u8]) -> (r: Option<PacketData>)
    ensures
        r matches Some(d) ==> d@ == spec_parse_data(b@) && spec_parse_data(b@) is Data,
        r is None ==> spec_parse_data(b@) is Noop,
{
    let n: usize = b.len();
    if n < 8 {
        return None;
    }
    let mut rd = Reader::from(b, 0);
    let index = rd.read_u64();
    let data = rd.read_to_end();
    proof {
        assert(data@ =~= b@.skip(8));
    }
    Some(PacketData { index, data })
}

impl Packet {
    /// Encodes the packet for the slot: its control character, then for
    /// `Start` and `Data` the text-safe encoding of the binary body.
    /// The round-trip law stands here: decoding the result yields this
    /// packet back, field for field and byte for byte; and everything
    /// after the control character is printable.
    pub fn encode(&self) -> (r: String)
        ensures
            r@ == spec_encode(self@),
            spec_decode(r@) == self@,
            printable(r@.skip(1)),
    {
        match self {
            Packet::Noop => {
                let out = String::from_str("\u{4}");
                proof {
                    reveal_strlit("\u{4}");
                    assert(out@ =~= spec_encode(self@));
                    assert(out@.skip(1) =~= Seq::<char>::empty());
                }
                out
            },
            Packet::End => {
                let out = String::from_str("\u{2}");
                proof {
                    reveal_strlit("\u{2}");
                    assert(out@ =~= spec_encode(self@));
                    assert(out@.skip(1) =~= Seq::<char>::empty());
                }
                out
            },
            Packet::Start(x) => {
                let mut body: Vec<u8> = Vec::new();
                push_u64_be(&mut body, x.length);
                push_u32_be(&mut body, x.timeout);
                let mut name_bytes = x.name.as_str().as_bytes_vec();
                body.append(&mut name_bytes);
                proof {
                    assert(body@ =~= start_body(x.name@, x.length, x.timeout));
                }
                let txt = a85_encode(body.as_slice());
                let mut out = String::from_str("\u{1}");
                out.append(txt.as_str());
                proof {
                    reveal_strlit("\u{1}");
                    assert(out@ =~= spec_encode(self@));
                    assert(out@.skip(1) =~= txt@);
                    lemma_start_body_fields(x.name@, x.length, x.timeout);
                    assert(spec_parse_start(body@) =~= self@);
                    assert(spec_decode(out@) == self@);
                }
                out
            },
            Packet::Data(x) => {
                let mut body: Vec<u8> = Vec::new();
                push_u64_be(&mut body, x.index);
                let mut payload = slice_to_vec_u8(x.data.as_slice());
                body.append(&mut payload);
                proof {
                    assert(body@ =~= data_body(x.index, x.data@));
                }
                let txt = a85_encode(body.as_slice());
                let mut out = String::from_str("\u{3}");
                out.append(txt.as_str());
                proof {
                    reveal_strlit("\u{3}");
                    assert(out@ =~= spec_encode(self@));
                    assert(out@.skip(1) =~= txt@);
                    lemma_data_body_fields(x.index, x.data@);
                    assert(spec_parse_data(body@) =~= self@);
                    assert(spec_decode(out@) == self@);
                }
                out
            },
        }
    }

    /// Decodes slot text into a packet, to exactly what `spec_decode`
    /// assigns it. The encoding of any packet comes back as that packet;
    /// anything unreadable — an unknown control character, a body whose
    /// text the decoder cannot take or would overrun its arithmetic on,
    /// a truncated body, a name that is not UTF-8 — degrades to `Noop`.
    /// Decoding never fails and never aborts.
    pub fn decode(s: &str) -> (p: Packet)
        ensures
            p@ == spec_decode(s@),
    {
        let n: usize = s.unicode_len();
        if n == 0 {
            return Packet::Noop;
        }
        let c = s.get_char(0);
        if c == CTRL_NOOP {
            Packet::Noop
        } else if c == CTRL_START {
            let rest = s.substring_char(1, n);
            proof {
                assert(rest@ =~= s@.skip(1));
            }
            if !a85_body_safe(rest) {
                return Packet::Noop;
            }
            match a85_decode(rest) {
                Some(bytes) => {
                    match parse_start_body(bytes.as_slice()) {
                        Some(ps) => Packet::Start(ps),
                        None => Packet::Noop,
                    }
                },
                None => Packet::Noop,
            }
        } else if c == CTRL_DATA {
            let rest = s.substring_char(1, n);
            proof {
                assert(rest@ =~= s@.skip(1));
            }
            if !a85_body_safe(rest) {
                return Packet::Noop;
            }
            match a85_decode(rest) {
                Some(bytes) => {
                    match parse_data_body(bytes.as_slice()) {
                        Some(d) => Packet::Data(d),
                        None => Packet::Noop,
                    }
                },
                None => Packet::Noop,
            }
        } else if c == CTRL_END {
            Packet::End
        } else {
            Packet::Noop
        }
    }
}

/// Copies a byte slice into a fresh vector.
fn slice_to_vec_u8(s: &[u8]) -> (r: Vec<u8>)
    ensures
        r@ == s@,
{
    let v = vstd::slice::slice_to_vec(s);
    proof {
        assert(v@ =~= s@);
    }
    v
}

/// How the body of a `Start` packet comes apart again: the first twelve
/// bytes are the two big-endian fields, the remainder is the name's
/// UTF-8, and each reads back to the field it was built from.
proof fn lemma_start_body_fields(name: Seq<char>, length: u64, timeout: u32)
    ensures
        start_body(name, length, timeout).len() >= 12,
        spec_u64_from_be(start_body(name, length, timeout).subrange(0, 8)) == length,
        spec_u32_from_be(start_body(name, length, timeout).subrange(8, 12)) == timeout,
        start_body(name, length, timeout).skip(12) == encode_utf8(name),
        valid_utf8(start_body(name, length, timeout).skip(12)),
        decode_utf8(start_body(name, length, timeout).skip(12)) == name,
{
    let b = start_body(name, length, timeout);
    assert(b.subrange(0, 8) =~= spec_u64_to_be(length));
    assert(b.subrange(8, 12) =~= spec_u32_to_be(timeout));
    assert(b.skip(12) =~= encode_utf8(name));
    lemma_u64_be_round(length);
    lemma_u32_be_round(timeout);
    encode_utf8_valid_utf8(name);
    encode_utf8_decode_utf8(name);
}

/// How the body of a `Data` packet comes apart again: the first eight
/// bytes read back to the block index, the remainder is the chunk.
proof fn lemma_data_body_fields(index: u64, data: Seq<u8>)
    ensures
        data_body(index, data).len() >= 8,
        spec_u64_from_be(data_body(index, data).subrange(0, 8)) == index,
        data_body(index, data).skip(8) == data,
{
    let b = data_body(index, data);
    assert(b.subrange(0, 8) =~= spec_u64_to_be(index));
    assert(b.skip(8) =~= data);
    lemma_u64_be_round(index);
}

} // verus!
