//! Big-endian integer fields of the wire format, and a cursor that reads
//! them out of a decoded packet body.
use vstd::prelude::*;

verus! {

/// The eight big-endian bytes of a `u64`, most significant first.
pub open spec fn spec_u64_to_be(x: u64) -> Seq<u8> {
    seq![
        (x >> 56) as u8,
        (x >> 48) as u8,
        (x >> 40) as u8,
        (x >> 32) as u8,
        (x >> 24) as u8,
        (x >> 16) as u8,
        (x >> 8) as u8,
        x as u8,
    ]
}

/// The `u64` read big-endian from eight bytes.
pub open spec fn spec_u64_from_be(s: Seq<u8>) -> u64
    recommends
        s.len() == 8,
{
    (((s[0] as u64) << 56) | ((s[1] as u64) << 48) | ((s[2] as u64) << 40) | ((s[3] as u64) << 32)
        | ((s[4] as u64) << 24) | ((s[5] as u64) << 16) | ((s[6] as u64) << 8) | (s[7] as u64))
}

/// The four big-endian bytes of a `u32`, most significant first.
pub open spec fn spec_u32_to_be(x: u32) -> Seq<u8> {
    seq![(x >> 24) as u8, (x >> 16) as u8, (x >> 8) as u8, x as u8]
}

/// The `u32` read big-endian from four bytes.
pub open spec fn spec_u32_from_be(s: Seq<u8>) -> u32
    recommends
        s.len() == 4,
{
    (((s[0] as u32) << 24) | ((s[1] as u32) << 16) | ((s[2] as u32) << 8) | (s[3] as u32))
}

/// Reading the big-endian bytes of a `u64` back gives the same value.
pub proof fn lemma_u64_be_round(x: u64)
    ensures
        spec_u64_from_be(spec_u64_to_be(x)) == x,
{
    let s = spec_u64_to_be(x);
    assert(s[0] == (x >> 56) as u8);
    assert(s[1] == (x >> 48) as u8);
    assert(s[2] == (x >> 40) as u8);
    assert(s[3] == (x >> 32) as u8);
    assert(s[4] == (x >> 24) as u8);
    assert(s[5] == (x >> 16) as u8);
    assert(s[6] == (x >> 8) as u8);
    assert(s[7] == x as u8);
    assert(((((x >> 56) as u8) as u64) << 56) | ((((x >> 48) as u8) as u64) << 48) | ((((x >> 40)
        as u8) as u64) << 40) | ((((x >> 32) as u8) as u64) << 32) | ((((x >> 24) as u8) as u64)
        << 24) | ((((x >> 16) as u8) as u64) << 16) | ((((x >> 8) as u8) as u64) << 8) | (((
    x as u8) as u64)) == x) by (bit_vector);
}

/// Reading the big-endian bytes of a `u32` back gives the same value.
pub proof fn lemma_u32_be_round(x: u32)
    ensures
        spec_u32_from_be(spec_u32_to_be(x)) == x,
{
    let s = spec_u32_to_be(x);
    assert(s[0] == (x >> 24) as u8);
    assert(s[1] == (x >> 16) as u8);
    assert(s[2] == (x >> 8) as u8);
    assert(s[3] == x as u8);
    assert(((((x >> 24) as u8) as u32) << 24) | ((((x >> 16) as u8) as u32) << 16) | ((((x >> 8)
        as u8) as u32) << 8) | (((x as u8) as u32)) == x) by (bit_vector);
}

/// Appends the eight big-endian bytes of `x` to `out`.
pub fn push_u64_be(out: &mut Vec<u8>, x: u64)
    ensures
        final(out)@ == old(out)@ + spec_u64_to_be(x),
{
    out.push((x >> 56) as u8);
    out.push((x >> 48) as u8);
    out.push((x >> 40) as u8);
    out.push((x >> 32) as u8);
    out.push((x >> 24) as u8);
    out.push((x >> 16) as u8);
    out.push((x >> 8) as u8);
    out.push(x as u8);
    proof {
        assert(out@ =~= old(out)@ + spec_u64_to_be(x));
    }
}

/// Appends the four big-endian bytes of `x` to `out`.
pub fn push_u32_be(out: &mut Vec<u8>, x: u32)
    ensures
        final(out)@ == old(out)@ + spec_u32_to_be(x),
{
    out.push((x >> 24) as u8);
    out.push((x >> 16) as u8);
    out.push((x >> 8) as u8);
    out.push(x as u8);
    proof {
        assert(out@ =~= old(out)@ + spec_u32_to_be(x));
    }
}

/// A cursor over the bytes of a decoded packet body.
pub struct Reader<'data> {
    pub offset: usize,
    pub data: &'data [u8],
}

impl<'data> Reader<'data> {
    /// A cursor over `data`, starting at `offset`.
    pub fn from(data: &'data [u8], offset: usize) -> (r: Reader<'data>)
        ensures
            r.data == data,
            r.offset == offset,
    {
        Reader { offset, data }
    }

    /// Reads a big-endian `u32` and advances past it.
    pub fn read_u32(&mut self) -> (r: u32)
        requires
            old(self).offset + 4 <= old(self).data@.len(),
        ensures
            r == spec_u32_from_be(
                old(self).data@.subrange(old(self).offset as int, old(self).offset + 4),
            ),
            final(self).data == old(self).data,
            final(self).offset == old(self).offset + 4,
    {
        let n: usize = self.data.len();
        let b0 = *vstd::slice::slice_index_get(self.data, self.offset);
        let b1 = *vstd::slice::slice_index_get(self.data, self.offset + 1);
        let b2 = *vstd::slice::slice_index_get(self.data, self.offset + 2);
        let b3 = *vstd::slice::slice_index_get(self.data, self.offset + 3);
        let r = ((b0 as u32) << 24) | ((b1 as u32) << 16) | ((b2 as u32) << 8) | (b3 as u32);
        proof {
            let s = self.data@.subrange(self.offset as int, self.offset + 4);
            assert(s[0] == b0 && s[1] == b1 && s[2] == b2 && s[3] == b3);
        }
        self.offset = self.offset + 4;
        r
    }

    /// Reads a big-endian `u64` and advances past it.
    pub fn read_u64(&mut self) -> (r: u64)
        requires
            old(self).offset + 8 <= old(self).data@.len(),
        ensures
            r == spec_u64_from_be(
                old(self).data@.subrange(old(self).offset as int, old(self).offset + 8),
            ),
            final(self).data == old(self).data,
            final(self).offset == old(self).offset + 8,
    {
        let n: usize = self.data.len();
        let b0 = *vstd::slice::slice_index_get(self.data, self.offset);
        let b1 = *vstd::slice::slice_index_get(self.data, self.offset + 1);
        let b2 = *vstd::slice::slice_index_get(self.data, self.offset + 2);
        let b3 = *vstd::slice::slice_index_get(self.data, self.offset + 3);
        let b4 = *vstd::slice::slice_index_get(self.data, self.offset + 4);
        let b5 = *vstd::slice::slice_index_get(self.data, self.offset + 5);
        let b6 = *vstd::slice::slice_index_get(self.data, self.offset + 6);
        let b7 = *vstd::slice::slice_index_get(self.data, self.offset + 7);
        let r = ((b0 as u64) << 56) | ((b1 as u64) << 48) | ((b2 as u64) << 40) | ((b3 as u64)
            << 32) | ((b4 as u64) << 24) | ((b5 as u64) << 16) | ((b6 as u64) << 8) | (b7 as u64);
        proof {
            let s = self.data@.subrange(self.offset as int, self.offset + 8);
            assert(s[0] == b0 && s[1] == b1 && s[2] == b2 && s[3] == b3);
            assert(s[4] == b4 && s[5] == b5 && s[6] == b6 && s[7] == b7);
        }
        self.offset = self.offset + 8;
        r
    }

    /// Reads a big-endian `u64` and returns it as `usize`.
    pub fn read_usize(&mut self) -> (r: usize)
        requires
            old(self).offset + 8 <= old(self).data@.len(),
        ensures
            r == spec_u64_from_be(
                old(self).data@.subrange(old(self).offset as int, old(self).offset + 8),
            ) as usize,
            final(self).data == old(self).data,
            final(self).offset == old(self).offset + 8,
    {
        self.read_u64() as usize
    }

    /// Copies out everything from the cursor position to the end of the body.
    pub fn read_to_end(&self) -> (r: Vec<u8>)
        requires
            self.offset <= self.data@.len(),
        ensures
            r@ == self.data@.skip(self.offset as int),
    {
        let rest = vstd::slice::slice_subrange(self.data, self.offset, self.data.len());
        let v = vstd::slice::slice_to_vec(rest);
        proof {
            assert(v@ =~= self.data@.skip(self.offset as int));
        }
        v
    }
}

} // verus!
