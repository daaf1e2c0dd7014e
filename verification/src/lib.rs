//! Incremental binary codecs for the TURN address-family attributes.
//!
//! The crate provides streaming decoders and encoders for the 4-byte
//! address-family field that the `REQUESTED-ADDRESS-FAMILY` and
//! `ADDITIONAL-ADDRESS-FAMILY` attributes carry on the wire, together with
//! the typed attribute wrappers themselves and the codepoint-based probe
//! that lets a generic message parser route incoming attributes to the
//! matching decoder.

pub mod attribute;
pub mod attributes;
pub mod codec;
pub mod fixnum;
