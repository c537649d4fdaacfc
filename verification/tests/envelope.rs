use kit::envelope::decode;
use kit::envelope::encode;
use kit::envelope::find_byte;
use kit::envelope::parse_length;
use kit::envelope::push_decimal;
use kit::envelope::ObjectFormat;
use kit::error::KitError;

fn all_kinds() -> Vec<ObjectFormat> {
    vec![ObjectFormat::Blob, ObjectFormat::Tree, ObjectFormat::Commit, ObjectFormat::Tag]
}

#[test]
fn encode_writes_kind_length_separator_payload() {
    assert_eq!(encode(ObjectFormat::Blob, b"Hello Joe"), b"blob 9\0Hello Joe".to_vec());
    assert_eq!(encode(ObjectFormat::Commit, b""), b"commit 0\0".to_vec());
    assert_eq!(encode(ObjectFormat::Tree, b"0123456789"), b"tree 10\x000123456789".to_vec());
    assert_eq!(encode(ObjectFormat::Tag, b"x"), b"tag 1\0x".to_vec());
}

#[test]
fn encode_is_the_same_on_every_call() {
    let first = encode(ObjectFormat::Tree, b"some payload");
    let second = encode(ObjectFormat::Tree, b"some payload");
    assert_eq!(first, second);
}

#[test]
fn encode_of_a_long_payload_counts_every_byte() {
    let payload = vec![7u8; 12345];
    let bytes = encode(ObjectFormat::Blob, &payload);
    assert_eq!(&bytes[..11], b"blob 12345\0");
    assert_eq!(&bytes[11..], &payload[..]);
}

#[test]
fn decode_gives_back_what_encode_took() {
    let payloads: Vec<Vec<u8>> = vec![
        Vec::new(),
        b"Hello Joe".to_vec(),
        b"with a space".to_vec(),
        vec![0u8],
        vec![0u8, 0u8, 32u8, 0u8],
        b"blob 3\0abc".to_vec(),
        (0u8..=255u8).collect(),
        vec![b'a'; 1000],
    ];
    for kind in all_kinds() {
        for payload in payloads.iter() {
            let bytes = encode(kind, payload);
            assert_eq!(decode(&bytes), Ok((kind, payload.clone())));
        }
    }
}

#[test]
fn decode_reads_each_kind() {
    assert_eq!(decode(b"blob 3\0abc"), Ok((ObjectFormat::Blob, b"abc".to_vec())));
    assert_eq!(decode(b"tree 0\0"), Ok((ObjectFormat::Tree, Vec::new())));
    assert_eq!(decode(b"commit 1\0\0"), Ok((ObjectFormat::Commit, vec![0u8])));
    assert_eq!(decode(b"tag 2\0 t"), Ok((ObjectFormat::Tag, b" t".to_vec())));
}

#[test]
fn decode_accepts_leading_zeros_in_the_length() {
    assert_eq!(decode(b"blob 003\0abc"), Ok((ObjectFormat::Blob, b"abc".to_vec())));
}

#[test]
fn decode_refuses_an_unknown_kind() {
    assert_eq!(decode(b"blub 0\0"), Err(KitError::UnknownObjectKind));
    assert_eq!(decode(b"Blob 0\0"), Err(KitError::UnknownObjectKind));
    assert_eq!(decode(b" 0\0"), Err(KitError::UnknownObjectKind));
    assert_eq!(decode(b"bl\0ob 0\0"), Err(KitError::UnknownObjectKind));
    assert_eq!(decode(b"trees 0\0"), Err(KitError::UnknownObjectKind));
}

#[test]
fn decode_refuses_a_wrong_length() {
    assert_eq!(decode(b"blob 3\0ab"), Err(KitError::MalformedObjectEnvelope));
    assert_eq!(decode(b"blob 3\0abcd"), Err(KitError::MalformedObjectEnvelope));
    assert_eq!(decode(b"blob 0\0a"), Err(KitError::MalformedObjectEnvelope));
}

#[test]
fn decode_refuses_a_length_that_is_no_number() {
    assert_eq!(decode(b"blob \0"), Err(KitError::MalformedObjectEnvelope));
    assert_eq!(decode(b"blob +3\0abc"), Err(KitError::MalformedObjectEnvelope));
    assert_eq!(decode(b"blob -0\0"), Err(KitError::MalformedObjectEnvelope));
    assert_eq!(decode(b"blob 3 \0abc"), Err(KitError::MalformedObjectEnvelope));
    assert_eq!(decode(b"blob x\0a"), Err(KitError::MalformedObjectEnvelope));
}

#[test]
fn decode_refuses_a_length_beyond_any_machine() {
    assert_eq!(
        decode(b"blob 99999999999999999999999999999999999999999999\0abc"),
        Err(KitError::MalformedObjectEnvelope)
    );
    assert_eq!(
        decode(b"blob 18446744073709551619\0abc"),
        Err(KitError::MalformedObjectEnvelope)
    );
}

#[test]
fn decode_refuses_bytes_without_space_or_separator() {
    assert_eq!(decode(b""), Err(KitError::MalformedObjectEnvelope));
    assert_eq!(decode(b"blob"), Err(KitError::MalformedObjectEnvelope));
    assert_eq!(decode(b"blob\x003"), Err(KitError::MalformedObjectEnvelope));
    assert_eq!(decode(b"blob 3"), Err(KitError::MalformedObjectEnvelope));
    assert_eq!(decode(b"blob 3abc"), Err(KitError::MalformedObjectEnvelope));
}

#[test]
fn decode_checks_the_kind_before_the_length() {
    assert_eq!(decode(b"blub 3"), Err(KitError::UnknownObjectKind));
    assert_eq!(decode(b"blub x\0"), Err(KitError::UnknownObjectKind));
}

#[test]
fn different_kinds_and_payloads_give_different_envelopes() {
    assert_ne!(encode(ObjectFormat::Blob, b"a"), encode(ObjectFormat::Tree, b"a"));
    assert_ne!(encode(ObjectFormat::Blob, b"a"), encode(ObjectFormat::Blob, b"b"));
    assert_ne!(encode(ObjectFormat::Blob, b"a"), encode(ObjectFormat::Blob, b"aa"));
}

#[test]
fn find_byte_gives_the_first_place_or_the_length() {
    assert_eq!(find_byte(b"a b c", b' ', 0), 1);
    assert_eq!(find_byte(b"a b c", b' ', 2), 3);
    assert_eq!(find_byte(b"a b c", b' ', 4), 5);
    assert_eq!(find_byte(b"a b c", b'x', 0), 5);
    assert_eq!(find_byte(b"a b c", b'a', 9), 5);
    assert_eq!(find_byte(b"", 0, 0), 0);
}

#[test]
fn parse_length_reads_digits_up_to_the_limit() {
    assert_eq!(parse_length(b"x123y", 1, 4, 123), Some(123));
    assert_eq!(parse_length(b"x123y", 1, 4, 1000), Some(123));
    assert_eq!(parse_length(b"x123y", 1, 4, 122), None);
    assert_eq!(parse_length(b"x123y", 1, 1, 5), None);
    assert_eq!(parse_length(b"x123y", 0, 4, 1000), None);
    assert_eq!(parse_length(b"000", 0, 3, 0), Some(0));
}

#[test]
fn push_decimal_appends_the_numeral() {
    let mut out = b"n=".to_vec();
    push_decimal(&mut out, 0);
    push_decimal(&mut out, 7);
    push_decimal(&mut out, 10);
    push_decimal(&mut out, 4096);
    assert_eq!(out, b"n=07104096".to_vec());
    let mut big = Vec::new();
    push_decimal(&mut big, usize::MAX);
    assert_eq!(big, usize::MAX.to_string().into_bytes());
}

#[test]
fn kinds_have_their_canonical_names() {
    assert_eq!(ObjectFormat::Commit.as_str(), "commit");
    assert_eq!(ObjectFormat::Tree.as_str(), "tree");
    assert_eq!(ObjectFormat::Tag.as_str(), "tag");
    assert_eq!(ObjectFormat::Blob.as_str(), "blob");
    assert_eq!(ObjectFormat::Blob.as_string(), String::from("blob"));
    for kind in all_kinds() {
        assert_eq!(kind.name_bytes(), kind.as_str().as_bytes().to_vec());
        assert_eq!(ObjectFormat::from_str(kind.as_str()), Ok(kind));
    }
}

#[test]
fn from_str_refuses_other_names() {
    assert_eq!(ObjectFormat::from_str("blobs"), Err(KitError::UnknownObjectKind));
    assert_eq!(ObjectFormat::from_str("BLOB"), Err(KitError::UnknownObjectKind));
    assert_eq!(ObjectFormat::from_str(""), Err(KitError::UnknownObjectKind));
    assert_eq!(ObjectFormat::from_str("tre"), Err(KitError::UnknownObjectKind));
}

#[test]
fn from_name_reads_a_slice() {
    assert_eq!(ObjectFormat::from_name(b"a tag b", 2, 5), Some(ObjectFormat::Tag));
    assert_eq!(ObjectFormat::from_name(b"a tag b", 2, 6), None);
    assert_eq!(ObjectFormat::from_name(b"commit", 0, 6), Some(ObjectFormat::Commit));
}

#[test]
fn every_error_has_a_message() {
    assert_eq!(KitError::NotAKitRepository.message(), "not a kit repository");
    assert_eq!(KitError::MalformedObjectEnvelope.message(), "malformed object: bad envelope");
    assert_ne!(KitError::PathNotEmpty.message(), KitError::PathNotDirectory.message());
}
