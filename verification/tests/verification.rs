use blake2::{Blake2s256, Digest};
use work_item_service::output::{ResultCode, OUTPUT_LEN};
use work_item_service::payload::{decode_payload, MIN_PAYLOAD_LEN};
use work_item_service::verify::{conclude, judge, MyService};

const HELLO_DIGEST: [u8; 32] = [
    0x19, 0x21, 0x3b, 0xac, 0xc5, 0x8d, 0xee, 0x6d, 0xbd, 0xe3, 0xce, 0xb9, 0xa4, 0x7c, 0xbb, 0x33,
    0x0b, 0x3d, 0x86, 0xf8, 0xcc, 0xa8, 0x99, 0x7e, 0xb0, 0x0b, 0xe4, 0x56, 0xf1, 0x40, 0xca, 0x25,
];

const WORLD_DIGEST: [u8; 32] = [
    0x7f, 0x96, 0xd1, 0x90, 0xe8, 0x09, 0xb7, 0x23, 0x8c, 0x81, 0x56, 0xf0, 0x1e, 0x2a, 0x80, 0x53,
    0x89, 0xb8, 0x9b, 0x58, 0x49, 0x30, 0x07, 0xfd, 0xb6, 0xb1, 0xb9, 0xf4, 0xb3, 0xf7, 0x17, 0x99,
];

fn digest_of(data: &[u8]) -> [u8; 32] {
    Blake2s256::digest(data).into()
}

fn payload_of(digest: &[u8], preimage: &[u8]) -> Vec<u8> {
    let mut payload = digest.to_vec();
    payload.extend_from_slice(preimage);
    payload
}

fn refine(payload: Vec<u8>) -> Vec<u8> {
    MyService::refine(0, 0, 0, payload, [0u8; 32])
}

fn expected_output(tag: u8, digest: &[u8]) -> Vec<u8> {
    let mut output = vec![tag];
    output.extend_from_slice(digest);
    output
}

#[test]
fn hello_with_its_own_digest_is_valid() {
    let output = refine(payload_of(&HELLO_DIGEST, b"hello"));
    assert_eq!(output, expected_output(0x01, &HELLO_DIGEST));
}

#[test]
fn hello_digest_with_world_preimage_is_invalid() {
    let output = refine(payload_of(&HELLO_DIGEST, b"world"));
    assert_eq!(output, expected_output(0x00, &WORLD_DIGEST));
    assert_ne!(output[1..], HELLO_DIGEST[..]);
}

#[test]
fn ten_byte_payload_is_too_short() {
    let output = refine(vec![0xAB; 10]);
    assert_eq!(output, expected_output(0xE1, &[0u8; 32]));
}

#[test]
fn known_digests_agree_with_the_hasher() {
    assert_eq!(digest_of(b"hello"), HELLO_DIGEST);
    assert_eq!(digest_of(b"world"), WORLD_DIGEST);
}

#[test]
fn computed_digest_is_not_the_preimage() {
    let preimage = [0x5Au8; 32];
    let output = refine(payload_of(&[0u8; 32], &preimage));
    assert_eq!(output.len(), 33);
    assert_ne!(output[1..], preimage[..]);
    assert_eq!(output[1..], digest_of(&preimage)[..]);
}

#[test]
fn own_digest_is_valid_for_many_preimages() {
    let mut preimage: Vec<u8> = Vec::new();
    for round in 0..200u32 {
        preimage.push((round * 7 + 3) as u8);
        let digest = digest_of(&preimage);
        let output = refine(payload_of(&digest, &preimage));
        assert_eq!(output, expected_output(0x01, &digest));
    }
}

#[test]
fn any_flipped_digest_byte_is_invalid() {
    let preimage = b"the quick brown fox";
    let digest = digest_of(preimage);
    for place in 0..32 {
        let mut claimed = digest;
        claimed[place] ^= 0x01;
        let output = refine(payload_of(&claimed, preimage));
        assert_eq!(output, expected_output(0x00, &digest));
    }
}

#[test]
fn last_digest_byte_is_compared() {
    let preimage = b"x";
    let digest = digest_of(preimage);
    let mut claimed = digest;
    claimed[31] = claimed[31].wrapping_add(1);
    let output = refine(payload_of(&claimed, preimage));
    assert_eq!(output[0], 0x00);
    assert_eq!(output[1..], digest[..]);
}

#[test]
fn every_short_length_is_an_error() {
    for len in 0..33usize {
        let output = refine(vec![0xFF; len]);
        assert_eq!(output, expected_output(0xE1, &[0u8; 32]), "length {}", len);
    }
}

#[test]
fn empty_payload_is_an_error() {
    assert_eq!(refine(Vec::new()), expected_output(0xE1, &[0u8; 32]));
}

#[test]
fn digest_without_preimage_is_an_error() {
    let digest = digest_of(b"");
    assert_eq!(refine(digest.to_vec()), expected_output(0xE1, &[0u8; 32]));
}

#[test]
fn one_byte_preimage_is_accepted() {
    let digest = digest_of(b"a");
    let payload = payload_of(&digest, b"a");
    assert_eq!(payload.len(), MIN_PAYLOAD_LEN);
    assert_eq!(refine(payload), expected_output(0x01, &digest));
}

#[test]
fn output_length_does_not_depend_on_outcome() {
    let digest = digest_of(b"abc");
    assert_eq!(refine(payload_of(&digest, b"abc")).len(), OUTPUT_LEN);
    assert_eq!(refine(payload_of(&[1u8; 32], b"abc")).len(), OUTPUT_LEN);
    assert_eq!(refine(vec![1, 2, 3]).len(), OUTPUT_LEN);
    assert_eq!(refine(vec![0u8; 5000]).len(), OUTPUT_LEN);
}

#[test]
fn refine_ignores_the_host_parameters() {
    let digest = digest_of(b"payload");
    let payload = payload_of(&digest, b"payload");
    let first = MyService::refine(0, 0, 0, payload.clone(), [0u8; 32]);
    let second = MyService::refine(341, 17, 0xDEAD_BEEF, payload, [0xEE; 32]);
    assert_eq!(first, second);
}

#[test]
fn refine_is_deterministic() {
    let payload = payload_of(&[9u8; 32], b"again");
    assert_eq!(refine(payload.clone()), refine(payload));
}

#[test]
fn decode_splits_after_the_digest() {
    let mut data: Vec<u8> = (0u8..40).collect();
    let fields = decode_payload(&data).unwrap();
    assert_eq!(fields.expected_digest, &data[..32]);
    assert_eq!(fields.preimage, &data[32..]);
    data.truncate(33);
    let fields = decode_payload(&data).unwrap();
    assert_eq!(fields.expected_digest.len(), 32);
    assert_eq!(fields.preimage, &[32u8][..]);
}

#[test]
fn decode_rejects_short_payloads() {
    assert_eq!(decode_payload(&[]).unwrap_err(), ResultCode::ErrorPayloadTooShort);
    assert_eq!(decode_payload(&[0u8; 32]).unwrap_err(), ResultCode::ErrorPayloadTooShort);
    assert!(decode_payload(&[0u8; 33]).is_ok());
}

#[test]
fn judge_compares_whole_digests() {
    let computed = [3u8; 32];
    assert_eq!(judge(&[3u8; 32], &computed), ResultCode::Valid);
    let mut other = [3u8; 32];
    other[0] = 4;
    assert_eq!(judge(&other, &computed), ResultCode::Invalid);
    assert_eq!(judge(&[3u8; 31], &computed), ResultCode::Invalid);
    assert_eq!(judge(&[3u8; 33], &computed), ResultCode::Invalid);
    assert_eq!(judge(&[], &computed), ResultCode::Invalid);
}

#[test]
fn conclude_reports_the_computed_digest() {
    let computed = [0x11u8; 32];
    assert_eq!(conclude(&[0x11u8; 32], computed), expected_output(0x01, &computed));
    assert_eq!(conclude(&[0x22u8; 32], computed), expected_output(0x00, &computed));
}
