use turn_attr_codec::attribute::{Attribute, AttributeType};
use turn_attr_codec::attributes::{
    AdditionalAddressFamily, AdditionalAddressFamilyDecoder, AdditionalAddressFamilyEncoder,
    AddressFamily, AddressFamilyDecoder, AddressFamilyEncoder, RequestedAddressFamily,
    RequestedAddressFamilyDecoder, RequestedAddressFamilyEncoder,
};
use turn_attr_codec::codec::{ByteCount, Error};

#[test]
fn address_family_encoder_works() {
    let mut encoder = AddressFamilyEncoder::default();

    let bytes = encoder.encode_into_bytes(AddressFamily::V4).unwrap();
    assert_eq!(bytes, [1, 0, 0, 0]);

    let bytes = encoder.encode_into_bytes(AddressFamily::V6).unwrap();
    assert_eq!(bytes, [2, 0, 0, 0]);
}

#[test]
fn address_family_decoder_works() {
    let mut decoder = AddressFamilyDecoder::default();

    let fam = decoder.decode_from_bytes(&[1, 0, 0, 0]).unwrap();
    assert_eq!(fam, AddressFamily::V4);

    let fam = decoder.decode_from_bytes(&[2, 0, 0, 0]).unwrap();
    assert_eq!(fam, AddressFamily::V6);
}

#[test]
fn round_trip_both_families() {
    let mut encoder = AddressFamilyEncoder::new();
    let mut decoder = AddressFamilyDecoder::new();

    for fam in [AddressFamily::V4, AddressFamily::V6] {
        let bytes = encoder.encode_into_bytes(fam).unwrap();
        let back = decoder.decode_from_bytes(&bytes).unwrap();
        assert_eq!(back, fam);
    }
}

#[test]
fn exact_size_is_always_four() {
    for fam in [AddressFamily::V4, AddressFamily::V6] {
        let mut encoder = AddressFamilyEncoder::new();
        encoder.start_encoding(fam).unwrap();
        assert_eq!(encoder.exact_requiring_bytes(), 4);
        assert_eq!(encoder.requiring_bytes(), ByteCount::Finite(4));

        let mut requested = RequestedAddressFamilyEncoder::new();
        requested
            .start_encoding(RequestedAddressFamily::new(fam))
            .unwrap();
        assert_eq!(requested.exact_requiring_bytes(), 4);
        assert_eq!(requested.requiring_bytes(), ByteCount::Finite(4));

        let mut additional = AdditionalAddressFamilyEncoder::default();
        additional
            .start_encoding(AdditionalAddressFamily::new(fam))
            .unwrap();
        assert_eq!(additional.exact_requiring_bytes(), 4);
        assert_eq!(additional.requiring_bytes(), ByteCount::Finite(4));
    }
}

#[test]
fn byte_exact_encoding_through_wrappers() {
    let mut encoder = RequestedAddressFamilyEncoder::new();
    encoder
        .start_encoding(RequestedAddressFamily::new(AddressFamily::V4))
        .unwrap();
    let mut buf = vec![0u8; 4];
    assert_eq!(encoder.encode(&mut buf, true).unwrap(), 4);
    assert_eq!(buf, [1, 0, 0, 0]);
    assert!(encoder.is_idle());

    let mut encoder = AdditionalAddressFamilyEncoder::default();
    encoder
        .start_encoding(AdditionalAddressFamily::new(AddressFamily::V6))
        .unwrap();
    let mut buf = vec![0u8; 4];
    assert_eq!(encoder.encode(&mut buf, true).unwrap(), 4);
    assert_eq!(buf, [2, 0, 0, 0]);
    assert!(encoder.is_idle());
}

#[test]
fn byte_exact_decoding_tolerates_padding() {
    let mut decoder = AddressFamilyDecoder::new();
    assert_eq!(
        decoder.decode_from_bytes(&[1, 0, 0, 0]).unwrap(),
        AddressFamily::V4
    );
    assert_eq!(
        decoder.decode_from_bytes(&[2, 0, 0, 0]).unwrap(),
        AddressFamily::V6
    );
    assert_eq!(
        decoder.decode_from_bytes(&[2, 255, 255, 255]).unwrap(),
        AddressFamily::V6
    );
}

#[test]
fn invalid_tags_are_rejected() {
    let mut decoder = AddressFamilyDecoder::new();
    assert_eq!(
        decoder.decode_from_bytes(&[0, 0, 0, 0]),
        Err(Error::InvalidInput(0))
    );
    assert_eq!(
        decoder.decode_from_bytes(&[3, 0, 0, 0]),
        Err(Error::InvalidInput(3))
    );
    assert_eq!(
        decoder.decode_from_bytes(&[255, 1, 2, 3]),
        Err(Error::InvalidInput(255))
    );

    let mut requested = RequestedAddressFamilyDecoder::new();
    assert_eq!(requested.decode(&[3, 0, 0, 0], true), Ok(4));
    assert_eq!(requested.finish_decoding(), Err(Error::InvalidInput(3)));

    let mut additional = AdditionalAddressFamilyDecoder::default();
    assert_eq!(additional.decode(&[4, 9, 9, 9], true), Ok(4));
    assert_eq!(additional.finish_decoding(), Err(Error::InvalidInput(4)));
}

#[test]
fn tagged_dispatch_probes_by_codepoint() {
    let mut requested = RequestedAddressFamilyDecoder::new();
    assert_eq!(
        requested.try_start_decoding(AttributeType::new(0x0017)),
        Ok(true)
    );
    assert_eq!(
        requested.try_start_decoding(AttributeType::new(0x8000)),
        Ok(false)
    );
    assert_eq!(
        requested.try_start_decoding(AttributeType::new(0x0016)),
        Ok(false)
    );

    let mut additional = AdditionalAddressFamilyDecoder::default();
    assert_eq!(
        additional.try_start_decoding(AttributeType::new(0x8000)),
        Ok(true)
    );
    assert_eq!(
        additional.try_start_decoding(AttributeType::new(0x0017)),
        Ok(false)
    );
}

#[test]
fn attribute_types_carry_their_codepoints() {
    let requested = RequestedAddressFamily::new(AddressFamily::V4);
    assert_eq!(requested.get_type().as_u16(), 0x0017);
    assert_eq!(RequestedAddressFamily::CODEPOINT, 0x0017);

    let additional = AdditionalAddressFamily::new(AddressFamily::V6);
    assert_eq!(additional.get_type().as_u16(), 0x8000);
    assert_eq!(AdditionalAddressFamily::CODEPOINT, 0x8000);
}

#[test]
fn wrappers_are_transparent() {
    for fam in [AddressFamily::V4, AddressFamily::V6] {
        assert_eq!(RequestedAddressFamily::new(fam).address_family(), fam);
        assert_eq!(AdditionalAddressFamily::new(fam).address_family(), fam);
    }
}

#[test]
fn incremental_feeds_are_equivalent() {
    let bytes = [2u8, 255, 255, 255];
    let mut whole = AddressFamilyDecoder::new();
    let expected = whole.decode_from_bytes(&bytes).unwrap();

    let mut split = AddressFamilyDecoder::new();
    assert_eq!(split.decode(&bytes[..1], false), Ok(1));
    assert!(!split.is_idle());
    assert_eq!(split.requiring_bytes(), ByteCount::Finite(3));
    assert_eq!(split.decode(&bytes[1..], true), Ok(3));
    assert_eq!(split.finish_decoding().unwrap(), expected);

    let mut split = AddressFamilyDecoder::new();
    assert_eq!(split.decode(&bytes[..2], false), Ok(2));
    assert_eq!(split.decode(&bytes[2..3], false), Ok(1));
    assert_eq!(split.decode(&bytes[3..], true), Ok(1));
    assert_eq!(split.finish_decoding().unwrap(), expected);
}

#[test]
fn incremental_drains_are_equivalent() {
    let mut encoder = AddressFamilyEncoder::new();
    encoder.start_encoding(AddressFamily::V4).unwrap();
    let mut front = vec![9u8; 2];
    assert_eq!(encoder.encode(&mut front, false), Ok(2));
    assert_eq!(encoder.exact_requiring_bytes(), 2);
    let mut back = vec![9u8; 2];
    assert_eq!(encoder.encode(&mut back, true), Ok(2));
    assert!(encoder.is_idle());
    assert_eq!([front, back].concat(), [1, 0, 0, 0]);
}

#[test]
fn finishing_early_reports_incomplete_decoding() {
    let mut decoder = AddressFamilyDecoder::new();
    assert_eq!(decoder.decode(&[1, 0], false), Ok(2));
    assert_eq!(decoder.finish_decoding(), Err(Error::IncompleteDecoding));
    assert_eq!(decoder.requiring_bytes(), ByteCount::Finite(2));
    assert_eq!(decoder.decode(&[0, 0], true), Ok(2));
    assert_eq!(decoder.finish_decoding().unwrap(), AddressFamily::V4);
}

#[test]
fn ending_the_stream_short_reports_unexpected_eos() {
    let mut decoder = AddressFamilyDecoder::new();
    assert_eq!(decoder.decode(&[1, 0], true), Err(Error::UnexpectedEos));

    let mut encoder = AddressFamilyEncoder::new();
    encoder.start_encoding(AddressFamily::V6).unwrap();
    let mut buf = vec![0u8; 2];
    assert_eq!(encoder.encode(&mut buf, true), Err(Error::UnexpectedEos));
}

#[test]
fn starting_a_busy_encoder_reports_encoder_full() {
    let mut encoder = AddressFamilyEncoder::new();
    encoder.start_encoding(AddressFamily::V4).unwrap();
    assert_eq!(
        encoder.start_encoding(AddressFamily::V6),
        Err(Error::EncoderFull)
    );
}

#[test]
fn idle_means_nothing_accumulated() {
    let decoder = AddressFamilyDecoder::new();
    assert!(decoder.is_idle());
    assert_eq!(decoder.requiring_bytes(), ByteCount::Finite(4));

    let mut decoder = RequestedAddressFamilyDecoder::default();
    assert!(decoder.is_idle());
    assert_eq!(decoder.decode(&[1], false), Ok(1));
    assert!(!decoder.is_idle());
    assert_eq!(decoder.requiring_bytes(), ByteCount::Finite(3));

    let encoder = AddressFamilyEncoder::new();
    assert!(encoder.is_idle());
    assert_eq!(encoder.requiring_bytes(), ByteCount::Finite(0));
}

#[test]
fn families_render_their_names() {
    assert_eq!(AddressFamily::V4.as_str(), "IPv4");
    assert_eq!(AddressFamily::V6.as_str(), "IPv6");
}

#[test]
fn wrapper_decoders_wrap_the_decoded_family() {
    let mut requested = RequestedAddressFamilyDecoder::new();
    assert_eq!(requested.decode(&[1, 0, 0, 0], true), Ok(4));
    let attr = requested.finish_decoding().unwrap();
    assert_eq!(attr, RequestedAddressFamily::new(AddressFamily::V4));
    assert_eq!(attr.address_family(), AddressFamily::V4);

    let mut additional = AdditionalAddressFamilyDecoder::default();
    assert_eq!(additional.decode(&[2, 7, 7, 7], true), Ok(4));
    let attr = additional.finish_decoding().unwrap();
    assert_eq!(attr.address_family(), AddressFamily::V6);
}

#[test]
fn wrapper_codecs_round_trip_in_one_call() {
    let mut encoder = RequestedAddressFamilyEncoder::new();
    let bytes = encoder
        .encode_into_bytes(RequestedAddressFamily::new(AddressFamily::V6))
        .unwrap();
    assert_eq!(bytes, [2, 0, 0, 0]);
    let mut decoder = RequestedAddressFamilyDecoder::new();
    let attr = decoder.decode_from_bytes(&bytes).unwrap();
    assert_eq!(attr.address_family(), AddressFamily::V6);

    let mut encoder = AdditionalAddressFamilyEncoder::default();
    let bytes = encoder
        .encode_into_bytes(AdditionalAddressFamily::new(AddressFamily::V4))
        .unwrap();
    assert_eq!(bytes, [1, 0, 0, 0]);
    let mut decoder = AdditionalAddressFamilyDecoder::default();
    let attr = decoder.decode_from_bytes(&bytes).unwrap();
    assert_eq!(attr.address_family(), AddressFamily::V4);
}
