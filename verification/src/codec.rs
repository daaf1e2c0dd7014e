//! The vocabulary shared by every codec in this crate: the error values a
//! codec can report, the byte-count answer of `requiring_bytes`, and the
//! model of feeding bytes into a fixed-size accumulator.

use vstd::math::min;
use vstd::prelude::*;

verus! {

/// The failures that a codec in this crate can report.
#[derive(Debug, Clone, Copy, PartialEq, Eq, Hash, Structural)]
pub enum Error {
    /// A decoded family tag byte named no known address family; carries the
    /// offending byte value.
    InvalidInput(u8),
    /// `finish_decoding` was called before all required bytes had been fed.
    IncompleteDecoding,
    /// The end of the input stream was reached while bytes were still
    /// required or still waiting to be drained.
    UnexpectedEos,
    /// `start_encoding` was called while a previous item was still being
    /// drained.
    EncoderFull,
}

/// How many more bytes a codec requires; every codec in this crate always
/// answers with an exact, finite count.
#[derive(Debug, Clone, Copy, PartialEq, Eq, Hash, Structural)]
pub enum ByteCount {
    /// Exactly this many bytes.
    Finite(u64),
    /// An unbounded number of bytes.
    Infinite,
    /// Not statically known.
    Unknown,
}

/// The bytes a fixed-size accumulator holds after one feed: to the bytes
/// already accumulated (`state`) it appends as much of `input` as still fits
/// under the capacity `cap`.
pub open spec fn fed_bytes(state: Seq<u8>, input: Seq<u8>, cap: int) -> Seq<u8>
    recommends
        state.len() <= cap,
{
    state + input.take(min(cap - state.len(), input.len() as int))
}

/// How many bytes of `input` one feed consumes.
pub open spec fn fed_count(state: Seq<u8>, input: Seq<u8>, cap: int) -> int
    recommends
        state.len() <= cap,
{
    min(cap - state.len(), input.len() as int)
}

/// Incremental feeding is insensitive to how the input is split: feeding
/// `a` and then `b` accumulates exactly the bytes that feeding `a + b` in
/// one call accumulates.
pub proof fn lemma_fed_bytes_split(state: Seq<u8>, a: Seq<u8>, b: Seq<u8>, cap: int)
    requires
        0 <= state.len() <= cap,
    ensures
        fed_bytes(fed_bytes(state, a, cap), b, cap) == fed_bytes(state, a + b, cap),
{
    let n1 = fed_count(state, a, cap);
    let s1 = fed_bytes(state, a, cap);
    let n2 = fed_count(s1, b, cap);
    let m = fed_count(state, a + b, cap);
    assert(s1.len() == state.len() + n1);
    if a.len() >= cap - state.len() {
        assert(n1 == cap - state.len());
        assert(n2 == 0);
        assert(m == cap - state.len());
        assert((a + b).take(m) =~= a.take(m));
        assert(fed_bytes(s1, b, cap) =~= fed_bytes(state, a + b, cap));
    } else {
        assert(n1 == a.len());
        assert(s1 =~= state + a);
        assert(m == a.len() + n2);
        assert((a + b).take(m) =~= a + b.take(n2));
        assert(fed_bytes(s1, b, cap) =~= fed_bytes(state, a + b, cap));
    }
}

} // verus!
