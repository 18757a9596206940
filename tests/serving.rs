use gifdex::fetch::FetchError;
use gifdex::keys::KeyError;
use gifdex::media::{MediaError, MediaType};
use gifdex::content_id::IntegrityError;
use gifdex::serve::{
    blob_path, content_disposition, parse_media_request, serve_media, CdnMediaType, ServeError,
};
use multihash_codetable::{Code, MultihashDigest};

fn gif() -> Vec<u8> {
    let mut v = b"GIF89a\x02\x00\x02\x00".to_vec();
    v.extend(std::iter::repeat(3u8).take(40));
    v
}

fn cid_text(data: &[u8]) -> String {
    cid::Cid::new_v1(0x55, Code::Sha2_256.digest(data)).to_string()
}

#[test]
fn malformed_requests_are_unprocessable() {
    let text = cid_text(&gif());
    let e = parse_media_request("not a did", &format!("3jzfcijpj2z2a:{text}")).unwrap_err();
    assert_eq!(e, ServeError::InvalidDid);
    assert_eq!(e.status_code(), 422);
    let e = parse_media_request("did:plc:alice", "3jzfcijpj2z2a").unwrap_err();
    assert_eq!(e, ServeError::InvalidKey(KeyError::MissingSeparator));
    assert_eq!(e.status_code(), 422);
}

#[test]
fn status_codes() {
    assert_eq!(ServeError::PostNotFound.status_code(), 404);
    assert_eq!(ServeError::OriginUnknown.status_code(), 404);
    assert_eq!(ServeError::StoreFailure.status_code(), 500);
    assert_eq!(ServeError::Upstream(FetchError::Upstream).status_code(), 502);
    assert_eq!(ServeError::Integrity(MediaError::DisallowedType).status_code(), 502);
}

#[test]
fn verified_bytes_are_served_with_sniffed_type() {
    let data = gif();
    let key = parse_media_request("did:plc:alice", &format!("3jzfcijpj2z2a:{}", cid_text(&data))).unwrap();
    let served = serve_media(&key, Ok(data.clone())).unwrap();
    assert_eq!(served.media_type, MediaType::Gif);
    assert_eq!(served.body, data);
}

#[test]
fn mismatching_remote_bytes_are_a_gateway_failure() {
    let data = gif();
    let key = parse_media_request("did:plc:alice", &format!("3jzfcijpj2z2a:{}", cid_text(&data))).unwrap();
    let mut remote = data.clone();
    remote[20] ^= 0xff;
    let e = serve_media(&key, Ok(remote)).unwrap_err();
    assert_eq!(e, ServeError::Integrity(MediaError::Integrity(IntegrityError::DigestMismatch)));
    assert_eq!(e.status_code(), 502);
    let e = serve_media(&key, Err(FetchError::TooLarge)).unwrap_err();
    assert_eq!(e.status_code(), 502);
}

#[test]
fn remote_paths() {
    assert_eq!(
        blob_path("did:plc:alice", "bafkabc"),
        "/xrpc/com.atproto.sync.getBlob?did=did:plc:alice&cid=bafkabc"
    );
    assert_eq!(content_disposition("cat"), "attachment; filename=\"cat\"");
    let avatar = CdnMediaType::Avatar { did: "did:plc:a".to_string(), cid: "bafk".to_string() };
    assert_eq!(avatar.path(), "/avatar/did:plc:a/bafk");
    let media = CdnMediaType::PostMedia {
        did: "did:plc:a".to_string(),
        rkey: "3jzfcijpj2z2a:bafk".to_string(),
        thumbnail: true,
    };
    assert_eq!(media.path(), "/media/did:plc:a/3jzfcijpj2z2a:bafk");
}
