//! The address-family attributes and their codecs.
//!
//! On the wire an address family is one 4-byte big-endian field: byte 0 is
//! the family tag (`1` for IPv4, `2` for IPv6) and bytes 1 to 3 are written
//! as zero on encode and ignored on decode. Two attribute types embed the
//! field: `REQUESTED-ADDRESS-FAMILY` and `ADDITIONAL-ADDRESS-FAMILY`.

use crate::attribute::{Attribute, AttributeType};
use crate::codec::{fed_bytes, fed_count, ByteCount, Error};
use crate::fixnum::{be_bytes_of, u32_from_be, U32beDecoder, U32beEncoder};
use vstd::prelude::*;

verus! {

/// The wire tag of an IPv4 address family.
pub const FAMILY_IPV4: u8 = 1;

/// The wire tag of an IPv6 address family.
pub const FAMILY_IPV6: u8 = 2;

/// The family of an IP address, either IPv4 or IPv6.
#[derive(Debug, Clone, Copy, PartialEq, Eq, Hash, Structural)]
pub enum AddressFamily {
    /// Version 4 of IP
    V4,
    /// Version 6 of IP
    V6,
}

impl AddressFamily {
    /// The name the family renders as.
    pub fn as_str(&self) -> (r: &'static str)
        ensures
            r@ == (match *self {
                AddressFamily::V4 => "IPv4"@,
                AddressFamily::V6 => "IPv6"@,
            }),
    {
        match *self {
            AddressFamily::V4 => "IPv4",
            AddressFamily::V6 => "IPv6",
        }
    }
}

/// The tag byte that an address family is written as.
pub open spec fn family_tag(f: AddressFamily) -> u8 {
    match f {
        AddressFamily::V4 => FAMILY_IPV4,
        AddressFamily::V6 => FAMILY_IPV6,
    }
}

/// The address family a tag byte names, if any.
pub open spec fn tag_family(tag: u8) -> Option<AddressFamily> {
    if tag == FAMILY_IPV4 {
        Some(AddressFamily::V4)
    } else if tag == FAMILY_IPV6 {
        Some(AddressFamily::V6)
    } else {
        None
    }
}

/// The 4-byte field that an address family is encoded as: the tag byte
/// followed by three zero padding bytes.
pub open spec fn family_bytes(f: AddressFamily) -> Seq<u8> {
    seq![family_tag(f), 0u8, 0u8, 0u8]
}

/// Round trip: for every address family, the tag byte of its encoding
/// decodes back to exactly that family.
pub proof fn lemma_round_trip(f: AddressFamily)
    ensures
        family_bytes(f).len() == 4,
        tag_family(family_bytes(f)[0]) == Some(f),
{
}

/// Exact size: the encoding of every address family is exactly four bytes,
/// whichever variant is encoded.
pub proof fn lemma_exact_size(f: AddressFamily)
    ensures
        family_bytes(f).len() == 4,
{
}

/// Invalid tag rejection: a 4-byte field whose first byte is neither `1`
/// nor `2` names no address family.
pub proof fn lemma_invalid_tag_rejected(s: Seq<u8>)
    requires
        s.len() == 4,
        s[0] != 1,
        s[0] != 2,
    ensures
        tag_family(s[0]) is None,
{
}

/// The most significant byte of a 4-byte big-endian word is its first
/// byte.
proof fn lemma_u32_from_be_msb(s: Seq<u8>)
    requires
        s.len() == 4,
    ensures
        0 <= u32_from_be(s) < 0x1_0000_0000,
        u32_from_be(s) / 0x100_0000 == s[0],
{
    let rest = s[1] * 0x1_0000 + s[2] * 0x100 + s[3];
    vstd::arithmetic::div_mod::lemma_fundamental_div_mod_converse(
        u32_from_be(s),
        0x100_0000,
        s[0] as int,
        rest,
    );
}

/// A word built by placing a tag byte at the top of a 4-byte big-endian
/// field encodes as the tag followed by three zero bytes.
proof fn lemma_be_bytes_of_tag(v: u32, tag: u8)
    requires
        v == tag * 0x100_0000,
    ensures
        be_bytes_of(v) == seq![tag, 0u8, 0u8, 0u8],
{
    vstd::arithmetic::div_mod::lemma_fundamental_div_mod_converse(
        v as int,
        0x100_0000,
        tag as int,
        0,
    );
    vstd::arithmetic::div_mod::lemma_fundamental_div_mod_converse(
        v as int,
        0x1_0000,
        tag as int * 0x100,
        0,
    );
    vstd::arithmetic::div_mod::lemma_fundamental_div_mod_converse(
        tag as int * 0x100,
        0x100,
        tag as int,
        0,
    );
    vstd::arithmetic::div_mod::lemma_fundamental_div_mod_converse(
        v as int,
        0x100,
        tag as int * 0x1_0000,
        0,
    );
    vstd::arithmetic::div_mod::lemma_fundamental_div_mod_converse(
        tag as int * 0x1_0000,
        0x100,
        tag as int * 0x100,
        0,
    );
    assert(be_bytes_of(v) =~= seq![tag, 0u8, 0u8, 0u8]);
}

/// Incremental decoder for the 4-byte address-family field. It delegates
/// the byte accumulation to a [`U32beDecoder`] and interprets the finished
/// word's first byte as the family tag.
///
/// Its view is the sequence of bytes accumulated so far.
#[derive(Debug)]
pub struct AddressFamilyDecoder {
    family: U32beDecoder,
}

impl View for AddressFamilyDecoder {
    type V = Seq<u8>;

    closed spec fn view(&self) -> Seq<u8> {
        self.family@
    }
}

impl AddressFamilyDecoder {
    /// Makes a new `AddressFamilyDecoder` with nothing accumulated.
    pub fn new() -> (r: Self)
        ensures
            r@ == Seq::<u8>::empty(),
    {
        AddressFamilyDecoder { family: U32beDecoder::new() }
    }

    /// Consumes as many leading bytes of `buf` as the field still needs
    /// and returns how many were consumed; reports `UnexpectedEos` when
    /// `eos` says the stream ends although bytes are still missing.
    pub fn decode(&mut self, buf: &[u8], eos: bool) -> (r: Result<usize, Error>)
        ensures
            final(self)@ == fed_bytes(old(self)@, buf@, 4),
            r == (if eos && fed_bytes(old(self)@, buf@, 4).len() < 4 {
                Err::<usize, Error>(Error::UnexpectedEos)
            } else {
                Ok::<usize, Error>(fed_count(old(self)@, buf@, 4) as usize)
            }),
    {
        self.family.decode(buf, eos)
    }

    /// Interprets the four accumulated bytes and resets the decoder: the
    /// first byte must be a known family tag, and the three padding bytes
    /// are ignored. Reports `InvalidInput`, carrying the offending byte,
    /// for an unknown tag, and `IncompleteDecoding`, leaving the decoder
    /// unchanged, when fewer than four bytes have been fed.
    pub fn finish_decoding(&mut self) -> (r: Result<AddressFamily, Error>)
        ensures
            if old(self)@.len() == 4 {
                &&& final(self)@ == Seq::<u8>::empty()
                &&& r == (match tag_family(old(self)@[0]) {
                    Some(f) => Ok::<AddressFamily, Error>(f),
                    None => Err::<AddressFamily, Error>(Error::InvalidInput(old(self)@[0])),
                })
            } else {
                &&& *final(self) == *old(self)
                &&& r == Err::<AddressFamily, Error>(Error::IncompleteDecoding)
            },
    {
        let word = match self.family.finish_decoding() {
            Ok(word) => word,
            Err(e) => {
                return Err(e);
            },
        };
        proof {
            lemma_u32_from_be_msb(old(self)@);
        }
        let fam = (word / 0x100_0000) as u8;
        if fam == FAMILY_IPV4 {
            Ok(AddressFamily::V4)
        } else if fam == FAMILY_IPV6 {
            Ok(AddressFamily::V6)
        } else {
            Err(Error::InvalidInput(fam))
        }
    }

    /// Returns exactly how many more bytes the field still needs.
    pub fn requiring_bytes(&self) -> (r: ByteCount)
        ensures
            r == ByteCount::Finite((4 - self@.len()) as u64),
    {
        self.family.requiring_bytes()
    }

    /// True when the decoder has accumulated zero bytes and holds no
    /// partial state.
    pub fn is_idle(&self) -> (r: bool)
        ensures
            r == (self@.len() == 0),
    {
        self.family.is_idle()
    }

    /// Feeds one whole buffer as the end of the stream and finishes: the
    /// single-call form of decoding.
    pub fn decode_from_bytes(&mut self, buf: &[u8]) -> (r: Result<AddressFamily, Error>)
        ensures
            ({
                let s = fed_bytes(old(self)@, buf@, 4);
                if s.len() < 4 {
                    &&& final(self)@ == s
                    &&& r == Err::<AddressFamily, Error>(Error::UnexpectedEos)
                } else {
                    &&& final(self)@ == Seq::<u8>::empty()
                    &&& r == (match tag_family(s[0]) {
                        Some(f) => Ok::<AddressFamily, Error>(f),
                        None => Err::<AddressFamily, Error>(Error::InvalidInput(s[0])),
                    })
                }
            }),
    {
        proof {
            use_type_invariant(&self.family);
        }
        match self.decode(buf, true) {
            Ok(_) => {},
            Err(e) => {
                return Err(e);
            },
        }
        self.finish_decoding()
    }
}

impl Default for AddressFamilyDecoder {
    /// Same as `AddressFamilyDecoder::new`.
    fn default() -> (r: Self)
        ensures
            r@ == Seq::<u8>::empty(),
    {
        AddressFamilyDecoder::new()
    }
}

/// Incremental encoder for the 4-byte address-family field: the family's
/// tag byte followed by three zero bytes, serialized through a
/// [`U32beEncoder`].
///
/// Its view is the sequence of serialized bytes not yet drained.
#[derive(Debug)]
pub struct AddressFamilyEncoder {
    family: U32beEncoder,
}

impl View for AddressFamilyEncoder {
    type V = Seq<u8>;

    closed spec fn view(&self) -> Seq<u8> {
        self.family@
    }
}

impl AddressFamilyEncoder {
    /// Makes a new `AddressFamilyEncoder` with nothing to drain.
    pub fn new() -> (r: Self)
        ensures
            r@ == Seq::<u8>::empty(),
    {
        AddressFamilyEncoder { family: U32beEncoder::new() }
    }

    /// Serializes `item` as its tag byte followed by three zero bytes;
    /// reports `EncoderFull`, leaving the encoder unchanged, when a
    /// previous item is still being drained.
    pub fn start_encoding(&mut self, item: AddressFamily) -> (r: Result<(), Error>)
        ensures
            if old(self)@.len() == 0 {
                &&& final(self)@ == family_bytes(item)
                &&& r == Ok::<(), Error>(())
            } else {
                &&& *final(self) == *old(self)
                &&& r == Err::<(), Error>(Error::EncoderFull)
            },
    {
        let tag: u8 = match item {
            AddressFamily::V4 => FAMILY_IPV4,
            AddressFamily::V6 => FAMILY_IPV6,
        };
        let word: u32 = (tag as u32) * 0x100_0000;
        proof {
            lemma_be_bytes_of_tag(word, tag);
        }
        self.family.start_encoding(word)
    }

    /// Copies as many pending bytes as fit into the front of `buf`,
    /// leaving the rest of `buf` unchanged, and returns how many were
    /// written; reports `UnexpectedEos` when `eos` says the stream ends
    /// although serialized bytes remain.
    pub fn encode(&mut self, buf: &mut Vec<u8>, eos: bool) -> (r: Result<usize, Error>)
        ensures
            ({
                let n = vstd::math::min(old(self)@.len() as int, old(buf)@.len() as int);
                &&& final(self)@ == old(self)@.skip(n)
                &&& final(buf)@.len() == old(buf)@.len()
                &&& final(buf)@ == old(self)@.take(n) + old(buf)@.skip(n)
                &&& r == (if eos && old(self)@.len() > n {
                    Err::<usize, Error>(Error::UnexpectedEos)
                } else {
                    Ok::<usize, Error>(n as usize)
                })
            }),
    {
        self.family.encode(buf, eos)
    }

    /// Returns exactly how many serialized bytes remain to be drained.
    pub fn exact_requiring_bytes(&self) -> (r: u64)
        ensures
            r == self@.len(),
    {
        self.family.exact_requiring_bytes()
    }

    /// Returns exactly how many serialized bytes remain to be drained.
    pub fn requiring_bytes(&self) -> (r: ByteCount)
        ensures
            r == ByteCount::Finite(self@.len() as u64),
    {
        ByteCount::Finite(self.exact_requiring_bytes())
    }

    /// True when the encoder holds no serialized bytes awaiting drain.
    pub fn is_idle(&self) -> (r: bool)
        ensures
            r == (self@.len() == 0),
    {
        self.family.is_idle()
    }

    /// Serializes `item` and drains the whole encoding into a fresh
    /// buffer: the single-call form of encoding.
    pub fn encode_into_bytes(&mut self, item: AddressFamily) -> (r: Result<Vec<u8>, Error>)
        ensures
            if old(self)@.len() == 0 {
                &&& final(self)@ == Seq::<u8>::empty()
                &&& r matches Ok(v) && v@ == family_bytes(item)
            } else {
                &&& *final(self) == *old(self)
                &&& r == Err::<Vec<u8>, Error>(Error::EncoderFull)
            },
    {
        match self.start_encoding(item) {
            Ok(_) => {},
            Err(e) => {
                return Err(e);
            },
        }
        let mut buf: Vec<u8> = Vec::new();
        buf.push(0);
        buf.push(0);
        buf.push(0);
        buf.push(0);
        match self.encode(&mut buf, true) {
            Ok(_) => {},
            Err(e) => {
                return Err(e);
            },
        }
        assert(buf@ =~= family_bytes(item));
        Ok(buf)
    }
}

impl Default for AddressFamilyEncoder {
    /// Same as `AddressFamilyEncoder::new`.
    fn default() -> (r: Self)
        ensures
            r@ == Seq::<u8>::empty(),
    {
        AddressFamilyEncoder::new()
    }
}

/// This attribute is used in Allocate and Refresh requests to specify the
/// address type requested by the client.
///
/// Its view is the address family it wraps.
#[derive(Debug, Clone, PartialEq, Eq, Hash, Structural)]
pub struct RequestedAddressFamily(AddressFamily);

impl View for RequestedAddressFamily {
    type V = AddressFamily;

    closed spec fn view(&self) -> AddressFamily {
        self.0
    }
}

impl RequestedAddressFamily {
    /// The codepoint of the type of the attribute.
    pub const CODEPOINT: u16 = 0x0017;

    /// Makes a new `RequestedAddressFamily` instance.
    pub fn new(fam: AddressFamily) -> (r: Self)
        ensures
            r@ == fam,
    {
        RequestedAddressFamily(fam)
    }

    /// Returns the requested address family.
    pub fn address_family(&self) -> (r: AddressFamily)
        ensures
            r == self@,
    {
        self.0
    }
}

impl Attribute for RequestedAddressFamily {
    type Decoder = RequestedAddressFamilyDecoder;

    type Encoder = RequestedAddressFamilyEncoder;

    open spec fn codepoint_spec(&self) -> u16 {
        Self::CODEPOINT
    }

    fn get_type(&self) -> (r: AttributeType) {
        AttributeType::new(Self::CODEPOINT)
    }
}

/// [`RequestedAddressFamily`] decoder: it owns one [`AddressFamilyDecoder`]
/// and forwards every operation to it, wrapping the decoded family at the
/// finish boundary; its probe recognizes the attribute's codepoint.
///
/// Its view is the sequence of bytes accumulated so far.
#[derive(Debug)]
pub struct RequestedAddressFamilyDecoder(AddressFamilyDecoder);

impl View for RequestedAddressFamilyDecoder {
    type V = Seq<u8>;

    closed spec fn view(&self) -> Seq<u8> {
        self.0@
    }
}

impl RequestedAddressFamilyDecoder {
    /// Makes a new `RequestedAddressFamilyDecoder` instance.
    pub fn new() -> (r: Self)
        ensures
            r@ == Seq::<u8>::empty(),
    {
        RequestedAddressFamilyDecoder(AddressFamilyDecoder::new())
    }

    /// Answers whether this decoder handles attributes of type
    /// `attr_type`: exactly those with the `REQUESTED-ADDRESS-FAMILY`
    /// codepoint.
    pub fn try_start_decoding(&mut self, attr_type: AttributeType) -> (r: Result<bool, Error>)
        ensures
            *final(self) == *old(self),
            r == Ok::<bool, Error>(attr_type@ == RequestedAddressFamily::CODEPOINT),
    {
        Ok(attr_type.as_u16() == RequestedAddressFamily::CODEPOINT)
    }

    /// Consumes as many leading bytes of `buf` as the field still needs
    /// and returns how many were consumed; reports `UnexpectedEos` when
    /// `eos` says the stream ends although bytes are still missing.
    pub fn decode(&mut self, buf: &[u8], eos: bool) -> (r: Result<usize, Error>)
        ensures
            final(self)@ == fed_bytes(old(self)@, buf@, 4),
            r == (if eos && fed_bytes(old(self)@, buf@, 4).len() < 4 {
                Err::<usize, Error>(Error::UnexpectedEos)
            } else {
                Ok::<usize, Error>(fed_count(old(self)@, buf@, 4) as usize)
            }),
    {
        self.0.decode(buf, eos)
    }

    /// Interprets the four accumulated bytes, resets the decoder, and
    /// wraps the decoded family; it surfaces exactly the failures of the
    /// underlying [`AddressFamilyDecoder`], unchanged.
    pub fn finish_decoding(&mut self) -> (r: Result<RequestedAddressFamily, Error>)
        ensures
            if old(self)@.len() == 4 {
                &&& final(self)@ == Seq::<u8>::empty()
                &&& (match tag_family(old(self)@[0]) {
                    Some(f) => r matches Ok(w) && w@ == f,
                    None => r == Err::<RequestedAddressFamily, Error>(
                        Error::InvalidInput(old(self)@[0]),
                    ),
                })
            } else {
                &&& *final(self) == *old(self)
                &&& r == Err::<RequestedAddressFamily, Error>(Error::IncompleteDecoding)
            },
    {
        match self.0.finish_decoding() {
            Ok(fam) => Ok(RequestedAddressFamily::new(fam)),
            Err(e) => Err(e),
        }
    }

    /// Returns exactly how many more bytes the field still needs.
    pub fn requiring_bytes(&self) -> (r: ByteCount)
        ensures
            r == ByteCount::Finite((4 - self@.len()) as u64),
    {
        self.0.requiring_bytes()
    }

    /// True when the decoder has accumulated zero bytes and holds no
    /// partial state.
    pub fn is_idle(&self) -> (r: bool)
        ensures
            r == (self@.len() == 0),
    {
        self.0.is_idle()
    }

    /// Feeds one whole buffer as the end of the stream and finishes: the
    /// single-call form of decoding.
    pub fn decode_from_bytes(&mut self, buf: &[u8]) -> (r: Result<
        RequestedAddressFamily,
        Error,
    >)
        ensures
            ({
                let s = fed_bytes(old(self)@, buf@, 4);
                if s.len() < 4 {
                    &&& final(self)@ == s
                    &&& r == Err::<RequestedAddressFamily, Error>(Error::UnexpectedEos)
                } else {
                    &&& final(self)@ == Seq::<u8>::empty()
                    &&& (match tag_family(s[0]) {
                        Some(f) => r matches Ok(w) && w@ == f,
                        None => r == Err::<RequestedAddressFamily, Error>(
                            Error::InvalidInput(s[0]),
                        ),
                    })
                }
            }),
    {
        match self.0.decode_from_bytes(buf) {
            Ok(fam) => Ok(RequestedAddressFamily::new(fam)),
            Err(e) => Err(e),
        }
    }
}

impl Default for RequestedAddressFamilyDecoder {
    /// Same as `RequestedAddressFamilyDecoder::new`.
    fn default() -> (r: Self)
        ensures
            r@ == Seq::<u8>::empty(),
    {
        RequestedAddressFamilyDecoder::new()
    }
}

/// [`RequestedAddressFamily`] encoder: it owns one [`AddressFamilyEncoder`]
/// and forwards every operation to it, unwrapping the attribute at the
/// start boundary.
///
/// Its view is the sequence of serialized bytes not yet drained.
#[derive(Debug)]
pub struct RequestedAddressFamilyEncoder(AddressFamilyEncoder);

impl View for RequestedAddressFamilyEncoder {
    type V = Seq<u8>;

    closed spec fn view(&self) -> Seq<u8> {
        self.0@
    }
}

impl RequestedAddressFamilyEncoder {
    /// Makes a new `RequestedAddressFamilyEncoder` instance.
    pub fn new() -> (r: Self)
        ensures
            r@ == Seq::<u8>::empty(),
    {
        RequestedAddressFamilyEncoder(AddressFamilyEncoder::new())
    }

    /// Serializes the family that `item` wraps; reports `EncoderFull`,
    /// leaving the encoder unchanged, when a previous item is still being
    /// drained.
    pub fn start_encoding(&mut self, item: RequestedAddressFamily) -> (r: Result<(), Error>)
        ensures
            if old(self)@.len() == 0 {
                &&& final(self)@ == family_bytes(item@)
                &&& r == Ok::<(), Error>(())
            } else {
                &&& *final(self) == *old(self)
                &&& r == Err::<(), Error>(Error::EncoderFull)
            },
    {
        let fam = item.address_family();
        self.0.start_encoding(fam)
    }

    /// Copies as many pending bytes as fit into the front of `buf`,
    /// leaving the rest of `buf` unchanged, and returns how many were
    /// written; reports `UnexpectedEos` when `eos` says the stream ends
    /// although serialized bytes remain.
    pub fn encode(&mut self, buf: &mut Vec<u8>, eos: bool) -> (r: Result<usize, Error>)
        ensures
            ({
                let n = vstd::math::min(old(self)@.len() as int, old(buf)@.len() as int);
                &&& final(self)@ == old(self)@.skip(n)
                &&& final(buf)@.len() == old(buf)@.len()
                &&& final(buf)@ == old(self)@.take(n) + old(buf)@.skip(n)
                &&& r == (if eos && old(self)@.len() > n {
                    Err::<usize, Error>(Error::UnexpectedEos)
                } else {
                    Ok::<usize, Error>(n as usize)
                })
            }),
    {
        self.0.encode(buf, eos)
    }

    /// Returns exactly how many serialized bytes remain to be drained.
    pub fn exact_requiring_bytes(&self) -> (r: u64)
        ensures
            r == self@.len(),
    {
        self.0.exact_requiring_bytes()
    }

    /// Returns exactly how many serialized bytes remain to be drained.
    pub fn requiring_bytes(&self) -> (r: ByteCount)
        ensures
            r == ByteCount::Finite(self@.len() as u64),
    {
        self.0.requiring_bytes()
    }

    /// True when the encoder holds no serialized bytes awaiting drain.
    pub fn is_idle(&self) -> (r: bool)
        ensures
            r == (self@.len() == 0),
    {
        self.0.is_idle()
    }

    /// Serializes `item` and drains the whole encoding into a fresh
    /// buffer: the single-call form of encoding.
    pub fn encode_into_bytes(&mut self, item: RequestedAddressFamily) -> (r: Result<
        Vec<u8>,
        Error,
    >)
        ensures
            if old(self)@.len() == 0 {
                &&& final(self)@ == Seq::<u8>::empty()
                &&& r matches Ok(v) && v@ == family_bytes(item@)
            } else {
                &&& *final(self) == *old(self)
                &&& r == Err::<Vec<u8>, Error>(Error::EncoderFull)
            },
    {
        match self.start_encoding(item) {
            Ok(_) => {},
            Err(e) => {
                return Err(e);
            },
        }
        let mut buf: Vec<u8> = Vec::new();
        buf.push(0);
        buf.push(0);
        buf.push(0);
        buf.push(0);
        match self.encode(&mut buf, true) {
            Ok(_) => {},
            Err(e) => {
                return Err(e);
            },
        }
        assert(buf@ =~= family_bytes(item@));
        Ok(buf)
    }
}

impl Default for RequestedAddressFamilyEncoder {
    /// Same as `RequestedAddressFamilyEncoder::new`.
    fn default() -> (r: Self)
        ensures
            r@ == Seq::<u8>::empty(),
    {
        RequestedAddressFamilyEncoder::new()
    }
}

/// This attribute is used by clients to request the allocation of an IPv4
/// and IPv6 address type from a server.
///
/// Its view is the address family it wraps.
#[derive(Debug, Clone, PartialEq, Eq, Hash, Structural)]
pub struct AdditionalAddressFamily(AddressFamily);

impl View for AdditionalAddressFamily {
    type V = AddressFamily;

    closed spec fn view(&self) -> AddressFamily {
        self.0
    }
}

impl AdditionalAddressFamily {
    /// The codepoint of the type of the attribute.
    pub const CODEPOINT: u16 = 0x8000;

    /// Makes a new `AdditionalAddressFamily` instance.
    pub fn new(fam: AddressFamily) -> (r: Self)
        ensures
            r@ == fam,
    {
        AdditionalAddressFamily(fam)
    }

    /// Returns the requested address family.
    pub fn address_family(&self) -> (r: AddressFamily)
        ensures
            r == self@,
    {
        self.0
    }
}

impl Attribute for AdditionalAddressFamily {
    type Decoder = AdditionalAddressFamilyDecoder;

    type Encoder = AdditionalAddressFamilyEncoder;

    open spec fn codepoint_spec(&self) -> u16 {
        Self::CODEPOINT
    }

    fn get_type(&self) -> (r: AttributeType) {
        AttributeType::new(Self::CODEPOINT)
    }
}

/// [`AdditionalAddressFamily`] decoder: it owns one
/// [`AddressFamilyDecoder`] and forwards every operation to it, wrapping
/// the decoded family at the finish boundary; its probe recognizes the
/// attribute's codepoint.
///
/// Its view is the sequence of bytes accumulated so far.
#[derive(Debug)]
pub struct AdditionalAddressFamilyDecoder(AddressFamilyDecoder);

impl View for AdditionalAddressFamilyDecoder {
    type V = Seq<u8>;

    closed spec fn view(&self) -> Seq<u8> {
        self.0@
    }
}

impl AdditionalAddressFamilyDecoder {
    /// Answers whether this decoder handles attributes of type
    /// `attr_type`: exactly those with the `ADDITIONAL-ADDRESS-FAMILY`
    /// codepoint.
    pub fn try_start_decoding(&mut self, attr_type: AttributeType) -> (r: Result<bool, Error>)
        ensures
            *final(self) == *old(self),
            r == Ok::<bool, Error>(attr_type@ == AdditionalAddressFamily::CODEPOINT),
    {
        Ok(attr_type.as_u16() == AdditionalAddressFamily::CODEPOINT)
    }

    /// Consumes as many leading bytes of `buf` as the field still needs
    /// and returns how many were consumed; reports `UnexpectedEos` when
    /// `eos` says the stream ends although bytes are still missing.
    pub fn decode(&mut self, buf: &[u8], eos: bool) -> (r: Result<usize, Error>)
        ensures
            final(self)@ == fed_bytes(old(self)@, buf@, 4),
            r == (if eos && fed_bytes(old(self)@, buf@, 4).len() < 4 {
                Err::<usize, Error>(Error::UnexpectedEos)
            } else {
                Ok::<usize, Error>(fed_count(old(self)@, buf@, 4) as usize)
            }),
    {
        self.0.decode(buf, eos)
    }

    /// Interprets the four accumulated bytes, resets the decoder, and
    /// wraps the decoded family; it surfaces exactly the failures of the
    /// underlying [`AddressFamilyDecoder`], unchanged.
    pub fn finish_decoding(&mut self) -> (r: Result<AdditionalAddressFamily, Error>)
        ensures
            if old(self)@.len() == 4 {
                &&& final(self)@ == Seq::<u8>::empty()
                &&& (match tag_family(old(self)@[0]) {
                    Some(f) => r matches Ok(w) && w@ == f,
                    None => r == Err::<AdditionalAddressFamily, Error>(
                        Error::InvalidInput(old(self)@[0]),
                    ),
                })
            } else {
                &&& *final(self) == *old(self)
                &&& r == Err::<AdditionalAddressFamily, Error>(Error::IncompleteDecoding)
            },
    {
        match self.0.finish_decoding() {
            Ok(fam) => Ok(AdditionalAddressFamily::new(fam)),
            Err(e) => Err(e),
        }
    }

    /// Returns exactly how many more bytes the field still needs.
    pub fn requiring_bytes(&self) -> (r: ByteCount)
        ensures
            r == ByteCount::Finite((4 - self@.len()) as u64),
    {
        self.0.requiring_bytes()
    }

    /// True when the decoder has accumulated zero bytes and holds no
    /// partial state.
    pub fn is_idle(&self) -> (r: bool)
        ensures
            r == (self@.len() == 0),
    {
        self.0.is_idle()
    }

    /// Feeds one whole buffer as the end of the stream and finishes: the
    /// single-call form of decoding.
    pub fn decode_from_bytes(&mut self, buf: &[u8]) -> (r: Result<
        AdditionalAddressFamily,
        Error,
    >)
        ensures
            ({
                let s = fed_bytes(old(self)@, buf@, 4);
                if s.len() < 4 {
                    &&& final(self)@ == s
                    &&& r == Err::<AdditionalAddressFamily, Error>(Error::UnexpectedEos)
                } else {
                    &&& final(self)@ == Seq::<u8>::empty()
                    &&& (match tag_family(s[0]) {
                        Some(f) => r matches Ok(w) && w@ == f,
                        None => r == Err::<AdditionalAddressFamily, Error>(
                            Error::InvalidInput(s[0]),
                        ),
                    })
                }
            }),
    {
        match self.0.decode_from_bytes(buf) {
            Ok(fam) => Ok(AdditionalAddressFamily::new(fam)),
            Err(e) => Err(e),
        }
    }
}

impl Default for AdditionalAddressFamilyDecoder {
    /// Makes an `AdditionalAddressFamilyDecoder` with nothing accumulated.
    fn default() -> (r: Self)
        ensures
            r@ == Seq::<u8>::empty(),
    {
        AdditionalAddressFamilyDecoder(AddressFamilyDecoder::new())
    }
}

/// [`AdditionalAddressFamily`] encoder: it owns one
/// [`AddressFamilyEncoder`] and forwards every operation to it, unwrapping
/// the attribute at the start boundary.
///
/// Its view is the sequence of serialized bytes not yet drained.
#[derive(Debug)]
pub struct AdditionalAddressFamilyEncoder(AddressFamilyEncoder);

impl View for AdditionalAddressFamilyEncoder {
    type V = Seq<u8>;

    closed spec fn view(&self) -> Seq<u8> {
        self.0@
    }
}

impl AdditionalAddressFamilyEncoder {
    /// Serializes the family that `item` wraps; reports `EncoderFull`,
    /// leaving the encoder unchanged, when a previous item is still being
    /// drained.
    pub fn start_encoding(&mut self, item: AdditionalAddressFamily) -> (r: Result<(), Error>)
        ensures
            if old(self)@.len() == 0 {
                &&& final(self)@ == family_bytes(item@)
                &&& r == Ok::<(), Error>(())
            } else {
                &&& *final(self) == *old(self)
                &&& r == Err::<(), Error>(Error::EncoderFull)
            },
    {
        let fam = item.address_family();
        self.0.start_encoding(fam)
    }

    /// Copies as many pending bytes as fit into the front of `buf`,
    /// leaving the rest of `buf` unchanged, and returns how many were
    /// written; reports `UnexpectedEos` when `eos` says the stream ends
    /// although serialized bytes remain.
    pub fn encode(&mut self, buf: &mut Vec<u8>, eos: bool) -> (r: Result<usize, Error>)
        ensures
            ({
                let n = vstd::math::min(old(self)@.len() as int, old(buf)@.len() as int);
                &&& final(self)@ == old(self)@.skip(n)
                &&& final(buf)@.len() == old(buf)@.len()
                &&& final(buf)@ == old(self)@.take(n) + old(buf)@.skip(n)
                &&& r == (if eos && old(self)@.len() > n {
                    Err::<usize, Error>(Error::UnexpectedEos)
                } else {
                    Ok::<usize, Error>(n as usize)
                })
            }),
    {
        self.0.encode(buf, eos)
    }

    /// Returns exactly how many serialized bytes remain to be drained.
    pub fn exact_requiring_bytes(&self) -> (r: u64)
        ensures
            r == self@.len(),
    {
        self.0.exact_requiring_bytes()
    }

    /// Returns exactly how many serialized bytes remain to be drained.
    pub fn requiring_bytes(&self) -> (r: ByteCount)
        ensures
            r == ByteCount::Finite(self@.len() as u64),
    {
        self.0.requiring_bytes()
    }

    /// True when the encoder holds no serialized bytes awaiting drain.
    pub fn is_idle(&self) -> (r: bool)
        ensures
            r == (self@.len() == 0),
    {
        self.0.is_idle()
    }

    /// Serializes `item` and drains the whole encoding into a fresh
    /// buffer: the single-call form of encoding.
    pub fn encode_into_bytes(&mut self, item: AdditionalAddressFamily) -> (r: Result<
        Vec<u8>,
        Error,
    >)
        ensures
            if old(self)@.len() == 0 {
                &&& final(self)@ == Seq::<u8>::empty()
                &&& r matches Ok(v) && v@ == family_bytes(item@)
            } else {
                &&& *final(self) == *old(self)
                &&& r == Err::<Vec<u8>, Error>(Error::EncoderFull)
            },
    {
        match self.start_encoding(item) {
            Ok(_) => {},
            Err(e) => {
                return Err(e);
            },
        }
        let mut buf: Vec<u8> = Vec::new();
        buf.push(0);
        buf.push(0);
        buf.push(0);
        buf.push(0);
        match self.encode(&mut buf, true) {
            Ok(_) => {},
            Err(e) => {
                return Err(e);
            },
        }
        assert(buf@ =~= family_bytes(item@));
        Ok(buf)
    }
}

impl Default for AdditionalAddressFamilyEncoder {
    /// Makes an `AdditionalAddressFamilyEncoder` with nothing to drain.
    fn default() -> (r: Self)
        ensures
            r@ == Seq::<u8>::empty(),
    {
        AdditionalAddressFamilyEncoder(AddressFamilyEncoder::new())
    }
}

} // verus!
