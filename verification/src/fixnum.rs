//! An incremental codec for an unsigned 32-bit big-endian integer: the
//! fixed-width primitive that the address-family codecs delegate their
//! byte-level work to.

use crate::codec::{fed_bytes, fed_count, ByteCount, Error};
use vstd::prelude::*;

verus! {

/// The value of a 4-byte big-endian word.
pub open spec fn u32_from_be(s: Seq<u8>) -> int
    recommends
        s.len() == 4,
{
    s[0] * 0x100_0000 + s[1] * 0x1_0000 + s[2] * 0x100 + s[3]
}

/// The 4-byte big-endian encoding of a 32-bit value.
pub open spec fn be_bytes_of(v: u32) -> Seq<u8> {
    seq![
        (v / 0x100_0000) as u8,
        ((v / 0x1_0000) % 0x100) as u8,
        ((v / 0x100) % 0x100) as u8,
        (v % 0x100) as u8,
    ]
}

/// Reading a big-endian word back from its encoding yields the value that
/// was encoded.
pub proof fn lemma_be_bytes_of_round_trip(v: u32)
    ensures
        u32_from_be(be_bytes_of(v)) == v,
{
    let s = be_bytes_of(v);
    assert(u32_from_be(s) == v) by {
        vstd::arithmetic::div_mod::lemma_fundamental_div_mod(v as int, 0x100_0000);
        vstd::arithmetic::div_mod::lemma_fundamental_div_mod(v as int, 0x1_0000);
        vstd::arithmetic::div_mod::lemma_fundamental_div_mod(v as int, 0x100);
        vstd::arithmetic::div_mod::lemma_fundamental_div_mod(v as int / 0x1_0000, 0x100);
        vstd::arithmetic::div_mod::lemma_fundamental_div_mod(v as int / 0x100, 0x100);
    };
}

/// An incremental decoder for a big-endian `u32`: it accumulates the four
/// bytes of the word across any number of feeds and interprets them when
/// `finish_decoding` is called.
///
/// Its view is the sequence of bytes accumulated so far.
#[derive(Debug)]
pub struct U32beDecoder {
    buf: Vec<u8>,
}

impl View for U32beDecoder {
    type V = Seq<u8>;

    closed spec fn view(&self) -> Seq<u8> {
        self.buf@
    }
}

impl U32beDecoder {
    /// At most the four bytes of one word are ever accumulated.
    #[verifier::type_invariant]
    pub open spec fn wf(self) -> bool {
        self@.len() <= 4
    }

    /// Makes a new `U32beDecoder` with nothing accumulated.
    pub fn new() -> (r: Self)
        ensures
            r@ == Seq::<u8>::empty(),
    {
        U32beDecoder { buf: Vec::new() }
    }

    /// Consumes as many leading bytes of `buf` as the 4-byte word still
    /// needs and returns how many were consumed; reports `UnexpectedEos`
    /// when `eos` says the stream ends although bytes are still missing.
    pub fn decode(&mut self, buf: &[u8], eos: bool) -> (r: Result<usize, Error>)
        ensures
            final(self)@ == fed_bytes(old(self)@, buf@, 4),
            r == (if eos && fed_bytes(old(self)@, buf@, 4).len() < 4 {
                Err::<usize, Error>(Error::UnexpectedEos)
            } else {
                Ok::<usize, Error>(fed_count(old(self)@, buf@, 4) as usize)
            }),
    {
        proof {
            use_type_invariant(&*self);
        }
        let mut acc: Vec<u8> = Vec::new();
        core::mem::swap(&mut acc, &mut self.buf);
        let need: usize = 4 - acc.len();
        let take: usize = if buf.len() < need {
            buf.len()
        } else {
            need
        };
        let mut i: usize = 0;
        assert(acc@ =~= old(self)@ + buf@.take(0));
        while i < take
            invariant
                i <= take,
                take == vstd::math::min(4 - old(self)@.len(), buf@.len() as int),
                acc@ == old(self)@ + buf@.take(i as int),
                acc@.len() <= 4,
                i <= buf@.len(),
            decreases take - i,
        {
            acc.push(buf[i]);
            i += 1;
        }
        let done = acc.len() == 4;
        self.buf = acc;
        assert(self@ =~= fed_bytes(old(self)@, buf@, 4));
        if !done && eos {
            Err(Error::UnexpectedEos)
        } else {
            Ok(take)
        }
    }

    /// Interprets the four accumulated bytes as a big-endian word and
    /// resets the decoder; reports `IncompleteDecoding`, leaving the
    /// decoder unchanged, when fewer than four bytes have been fed.
    pub fn finish_decoding(&mut self) -> (r: Result<u32, Error>)
        ensures
            if old(self)@.len() == 4 {
                &&& final(self)@ == Seq::<u8>::empty()
                &&& r matches Ok(v) && v == u32_from_be(old(self)@)
            } else {
                &&& *final(self) == *old(self)
                &&& r == Err::<u32, Error>(Error::IncompleteDecoding)
            },
    {
        proof {
            use_type_invariant(&*self);
        }
        if self.buf.len() == 4 {
            let b0 = self.buf[0];
            let b1 = self.buf[1];
            let b2 = self.buf[2];
            let b3 = self.buf[3];
            let v: u32 = (b0 as u32) * 0x100_0000 + (b1 as u32) * 0x1_0000 + (b2 as u32) * 0x100
                + (b3 as u32);
            let mut acc: Vec<u8> = Vec::new();
            core::mem::swap(&mut acc, &mut self.buf);
            Ok(v)
        } else {
            Err(Error::IncompleteDecoding)
        }
    }

    /// Returns exactly how many more bytes the word still needs.
    pub fn requiring_bytes(&self) -> (r: ByteCount)
        ensures
            r == ByteCount::Finite((4 - self@.len()) as u64),
    {
        proof {
            use_type_invariant(&*self);
        }
        ByteCount::Finite((4 - self.buf.len()) as u64)
    }

    /// True when the decoder has accumulated zero bytes and holds no
    /// partial state.
    pub fn is_idle(&self) -> (r: bool)
        ensures
            r == (self@.len() == 0),
    {
        self.buf.len() == 0
    }
}

impl Default for U32beDecoder {
    /// Same as `U32beDecoder::new`.
    fn default() -> (r: Self)
        ensures
            r@ == Seq::<u8>::empty(),
    {
        U32beDecoder::new()
    }
}

/// An incremental encoder for a big-endian `u32`: `start_encoding`
/// serializes the value into an internal 4-byte buffer, and `encode` drains
/// that buffer into caller-supplied buffers across any number of calls.
///
/// Its view is the sequence of serialized bytes not yet drained.
#[derive(Debug)]
pub struct U32beEncoder {
    pending: Vec<u8>,
}

impl View for U32beEncoder {
    type V = Seq<u8>;

    closed spec fn view(&self) -> Seq<u8> {
        self.pending@
    }
}

impl U32beEncoder {
    /// At most the four bytes of one word are ever pending.
    #[verifier::type_invariant]
    pub open spec fn wf(self) -> bool {
        self@.len() <= 4
    }

    /// Makes a new `U32beEncoder` with nothing to drain.
    pub fn new() -> (r: Self)
        ensures
            r@ == Seq::<u8>::empty(),
    {
        U32beEncoder { pending: Vec::new() }
    }

    /// Serializes `item` into the internal buffer; reports `EncoderFull`,
    /// leaving the encoder unchanged, when a previous item is still being
    /// drained.
    pub fn start_encoding(&mut self, item: u32) -> (r: Result<(), Error>)
        ensures
            if old(self)@.len() == 0 {
                &&& final(self)@ == be_bytes_of(item)
                &&& r == Ok::<(), Error>(())
            } else {
                &&& *final(self) == *old(self)
                &&& r == Err::<(), Error>(Error::EncoderFull)
            },
    {
        proof {
            use_type_invariant(&*self);
        }
        if self.is_idle() {
            let mut acc: Vec<u8> = Vec::new();
            acc.push((item / 0x100_0000) as u8);
            acc.push(((item / 0x1_0000) % 0x100) as u8);
            acc.push(((item / 0x100) % 0x100) as u8);
            acc.push((item % 0x100) as u8);
            assert(acc@ =~= be_bytes_of(item));
            self.pending = acc;
            Ok(())
        } else {
            Err(Error::EncoderFull)
        }
    }

    /// Copies as many pending bytes as fit into the front of `buf`,
    /// leaving the rest of `buf` unchanged, and returns how many were
    /// written; reports `UnexpectedEos` when `eos` says the stream ends
    /// although serialized bytes remain.
    pub fn encode(&mut self, buf: &mut Vec<u8>, eos: bool) -> (r: Result<usize, Error>)
        ensures
            ({
                let n = vstd::math::min(old(self)@.len() as int, old(buf)@.len() as int);
                &&& final(self)@ == old(self)@.skip(n)
                &&& final(buf)@.len() == old(buf)@.len()
                &&& final(buf)@ =~= old(self)@.take(n) + old(buf)@.skip(n)
                &&& r == (if eos && old(self)@.len() > n {
                    Err::<usize, Error>(Error::UnexpectedEos)
                } else {
                    Ok::<usize, Error>(n as usize)
                })
            }),
    {
        proof {
            use_type_invariant(&*self);
        }
        let n: usize = if self.pending.len() < buf.len() {
            self.pending.len()
        } else {
            buf.len()
        };
        let mut i: usize = 0;
        while i < n
            invariant
                i <= n,
                n == vstd::math::min(old(self)@.len() as int, old(buf)@.len() as int),
                self@ == old(self)@,
                self@.len() <= 4,
                buf@.len() == old(buf)@.len(),
                forall|j: int| 0 <= j < i ==> buf@[j] == old(self)@[j],
                forall|j: int| i <= j < buf@.len() ==> buf@[j] == old(buf)@[j],
            decreases n - i,
        {
            let b = self.pending[i];
            buf.set(i, b);
            i += 1;
        }
        let mut acc: Vec<u8> = Vec::new();
        core::mem::swap(&mut acc, &mut self.pending);
        let mut rest = acc.split_off(n);
        core::mem::swap(&mut rest, &mut self.pending);
        let more = self.pending.len() > 0;
        assert(self@ =~= old(self)@.skip(n as int));
        if eos && more {
            Err(Error::UnexpectedEos)
        } else {
            Ok(n)
        }
    }

    /// Returns exactly how many serialized bytes remain to be drained.
    pub fn exact_requiring_bytes(&self) -> (r: u64)
        ensures
            r == self@.len(),
    {
        proof {
            use_type_invariant(&*self);
        }
        self.pending.len() as u64
    }

    /// Returns exactly how many serialized bytes remain to be drained.
    pub fn requiring_bytes(&self) -> (r: ByteCount)
        ensures
            r == ByteCount::Finite(self@.len() as u64),
    {
        ByteCount::Finite(self.exact_requiring_bytes())
    }

    /// True when the encoder holds no serialized bytes awaiting drain.
    pub fn is_idle(&self) -> (r: bool)
        ensures
            r == (self@.len() == 0),
    {
        self.pending.len() == 0
    }
}

impl Default for U32beEncoder {
    /// Same as `U32beEncoder::new`.
    fn default() -> (r: Self)
        ensures
            r@ == Seq::<u8>::empty(),
    {
        U32beEncoder::new()
    }
}

} // verus!
