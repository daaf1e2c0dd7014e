//! The attribute abstraction that the enclosing message parser works
//! against: a 16-bit type codepoint, and a capability that every concrete
//! attribute type offers so that decode and encode calls can be routed to
//! it by codepoint alone.

use vstd::prelude::*;

verus! {

/// The 16-bit codepoint that identifies an attribute's type on the wire.
#[derive(Debug, Clone, Copy, PartialEq, Eq, Hash, Structural)]
pub struct AttributeType(u16);

impl View for AttributeType {
    type V = u16;

    closed spec fn view(&self) -> u16 {
        self.0
    }
}

impl AttributeType {
    /// Makes a new `AttributeType` from a wire codepoint.
    pub fn new(codepoint: u16) -> (r: Self)
        ensures
            r@ == codepoint,
    {
        AttributeType(codepoint)
    }

    /// Returns the codepoint as a plain integer.
    pub fn as_u16(&self) -> (r: u16)
        ensures
            r == self@,
    {
        self.0
    }
}

/// A concrete attribute type: it names its decoder and encoder, knows its
/// own wire codepoint, and hands that codepoint out as an `AttributeType`.
pub trait Attribute: Sized {
    /// The decoder for this attribute type.
    type Decoder;

    /// The encoder for this attribute type.
    type Encoder;

    /// The wire codepoint bound to this attribute type.
    spec fn codepoint_spec(&self) -> u16;

    /// Returns the type of the attribute.
    fn get_type(&self) -> (r: AttributeType)
        ensures
            r@ == self.codepoint_spec(),
    ;
}

} // verus!
