use gifdex::content_id::{check_digest, verify, ContentId, IntegrityError, SHA2_256};
use gifdex::media::{
    check_dimensions, check_ingested_media, check_served_media, sniff_media_type, MediaError,
    MediaInfo, MediaType,
};
use multihash_codetable::{Code, MultihashDigest};

fn gif(width: u16, height: u16, extra: usize) -> Vec<u8> {
    let mut v = b"GIF89a".to_vec();
    v.extend_from_slice(&width.to_le_bytes());
    v.extend_from_slice(&height.to_le_bytes());
    v.extend(std::iter::repeat(0u8).take(extra));
    v
}

fn raw_cid_text(data: &[u8]) -> String {
    cid::Cid::new_v1(0x55, Code::Sha2_256.digest(data)).to_string()
}

#[test]
fn parse_reads_fields_of_a_v1_identifier() {
    let data = gif(10, 20, 40);
    let id = ContentId::parse(&raw_cid_text(&data)).expect("decodes");
    assert_eq!(id.version, 1);
    assert_eq!(id.codec, 0x55);
    assert_eq!(id.hash_code, SHA2_256);
    assert_eq!(id.digest, Code::Sha2_256.digest(&data).digest().to_vec());
}

#[test]
fn parse_refuses_text_that_is_no_identifier() {
    assert!(ContentId::parse("not-a-cid").is_none());
    assert!(ContentId::parse("").is_none());
}

#[test]
fn verify_accepts_bytes_that_hash_to_the_claim() {
    let data = gif(10, 20, 40);
    let id = ContentId::parse(&raw_cid_text(&data)).unwrap();
    assert_eq!(verify(&id, &data), Ok(()));
}

#[test]
fn verify_fails_after_any_single_byte_change() {
    let data = gif(10, 20, 40);
    let id = ContentId::parse(&raw_cid_text(&data)).unwrap();
    for i in 0..data.len() {
        let mut altered = data.clone();
        altered[i] ^= 0x01;
        assert_eq!(verify(&id, &altered), Err(IntegrityError::DigestMismatch));
    }
}

#[test]
fn verify_refuses_an_unsupported_hash_function() {
    let data = gif(10, 20, 40);
    let text = cid::Cid::new_v1(0x55, Code::Sha2_512.digest(&data)).to_string();
    let id = ContentId::parse(&text).unwrap();
    assert_eq!(id.hash_code, 0x13);
    assert_eq!(verify(&id, &data), Err(IntegrityError::UnsupportedHash));
}

#[test]
fn check_digest_compares_a_computed_digest() {
    let data = gif(1, 1, 40);
    let id = ContentId::parse(&raw_cid_text(&data)).unwrap();
    let digest = Code::Sha2_256.digest(&data).digest().to_vec();
    assert_eq!(check_digest(&id, &digest), Ok(()));
    let mut wrong = digest.clone();
    wrong[0] ^= 0xff;
    assert_eq!(check_digest(&id, &wrong), Err(IntegrityError::DigestMismatch));
}

#[test]
fn sniffing_uses_magic_bytes() {
    assert_eq!(sniff_media_type(&gif(3, 4, 40)), Ok(MediaType::Gif));
    let mut webp = b"RIFF\x24\x00\x00\x00WEBPVP8 ".to_vec();
    webp.extend(std::iter::repeat(0u8).take(40));
    assert_eq!(sniff_media_type(&webp), Ok(MediaType::Webp));
    let png = b"\x89PNG\r\n\x1a\n\x00\x00\x00\x0dIHDR\x00\x00\x00\x01\x00\x00\x00\x01".to_vec();
    assert_eq!(sniff_media_type(&png), Err(MediaError::DisallowedType));
    assert_eq!(sniff_media_type(&[0u8; 64]), Err(MediaError::UnrecognizedFormat));
    assert_eq!(sniff_media_type(&[]), Err(MediaError::UnrecognizedFormat));
}

#[test]
fn media_type_names() {
    assert_eq!(MediaType::Gif.as_str(), "image/gif");
    assert_eq!(MediaType::Webp.as_str(), "image/webp");
    assert_eq!(MediaType::from_mime("image/gif"), Some(MediaType::Gif));
    assert_eq!(MediaType::from_mime("image/webp"), Some(MediaType::Webp));
    assert_eq!(MediaType::from_mime("image/png"), None);
}

#[test]
fn dimension_limits() {
    assert_eq!(check_dimensions(10_000, 1), Ok(()));
    assert_eq!(check_dimensions(10_001, 1), Err(MediaError::DimensionsTooLarge));
    assert_eq!(check_dimensions(1, 10_001), Err(MediaError::DimensionsTooLarge));
    assert_eq!(check_dimensions(0, 5), Err(MediaError::EmptyDimensions));
    assert_eq!(check_dimensions(5, 0), Err(MediaError::EmptyDimensions));
}

#[test]
fn ingested_media_reports_sniffed_type_and_header_dimensions() {
    let data = gif(320, 240, 40);
    let id = ContentId::parse(&raw_cid_text(&data)).unwrap();
    assert_eq!(
        check_ingested_media(&id, &data),
        Ok(MediaInfo { media_type: MediaType::Gif, width: 320, height: 240 })
    );
    let big = gif(20_000, 240, 40);
    let big_id = ContentId::parse(&raw_cid_text(&big)).unwrap();
    assert_eq!(check_ingested_media(&big_id, &big), Err(MediaError::DimensionsTooLarge));
    let empty = gif(0, 240, 40);
    let empty_id = ContentId::parse(&raw_cid_text(&empty)).unwrap();
    assert_eq!(check_ingested_media(&empty_id, &empty), Err(MediaError::EmptyDimensions));
}

#[test]
fn served_media_checks_integrity_before_type() {
    let data = vec![7u8; 64];
    let id = ContentId::parse(&raw_cid_text(&data)).unwrap();
    assert_eq!(check_served_media(&id, &data), Err(MediaError::UnrecognizedFormat));
    let other = gif(1, 1, 40);
    assert_eq!(
        check_served_media(&id, &other),
        Err(MediaError::Integrity(IntegrityError::DigestMismatch))
    );
}

#[test]
fn header_without_dimensions_is_refused() {
    let data = b"GIF8\x01\x00".to_vec();
    let id = ContentId::parse(&raw_cid_text(&data)).unwrap();
    assert_eq!(check_ingested_media(&id, &data), Err(MediaError::UnknownDimensions));
}
