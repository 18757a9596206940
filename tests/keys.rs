use gifdex::keys::{
    check_key_binding, parse_at_uri, parse_media_key, valid_did, valid_tid, KeyError,
};
use multihash_codetable::{Code, MultihashDigest};

fn cid_text(data: &[u8]) -> String {
    cid::Cid::new_v1(0x55, Code::Sha2_256.digest(data)).to_string()
}

#[test]
fn timestamp_identifier_syntax() {
    assert!(valid_tid("3jzfcijpj2z2a"));
    assert!(valid_tid("2222222222222"));
    assert!(!valid_tid("kjzfcijpj2z2a"));
    assert!(!valid_tid("3jzfcijpj2z2"));
    assert!(!valid_tid("3jzfcijpj2z2a2"));
    assert!(!valid_tid("3jzfcijpj2z1a"));
    assert!(!valid_tid("3JZFCIJPJ2Z2A"));
    assert!(!valid_tid(""));
}

#[test]
fn account_identifier_syntax() {
    assert!(valid_did("did:plc:z72i7hdynmk6r22z27h6tvur"));
    assert!(valid_did("did:web:example.com"));
    assert!(valid_did("did:web:localhost%3A1234"));
    assert!(!valid_did("did:web:example.com:"));
    assert!(!valid_did("did:web:example%"));
    assert!(!valid_did("did:Web:example.com"));
    assert!(!valid_did("did::example"));
    assert!(!valid_did("did:plc"));
    assert!(!valid_did("plc:abc"));
    assert!(!valid_did("did:plc:a b"));
    assert!(!valid_did(""));
}

#[test]
fn media_key_parses_resource_id_and_content_hash() {
    let text = cid_text(b"hello");
    let rkey = format!("3jzfcijpj2z2a:{text}");
    let key = parse_media_key(&rkey).expect("parses");
    assert_eq!(key.resource_id, "3jzfcijpj2z2a");
    assert_eq!(key.content_text, text);
    assert_eq!(key.content_id.hash_code, 0x12);
}

#[test]
fn media_key_errors() {
    let text = cid_text(b"hello");
    assert_eq!(parse_media_key("3jzfcijpj2z2a").unwrap_err(), KeyError::MissingSeparator);
    assert_eq!(
        parse_media_key(&format!("notatid:{text}")).unwrap_err(),
        KeyError::InvalidResourceId
    );
    assert_eq!(
        parse_media_key("3jzfcijpj2z2a:bafynotacid").unwrap_err(),
        KeyError::InvalidContentId
    );
}

#[test]
fn key_binding_requires_the_declared_hash() {
    let text = cid_text(b"hello");
    let other = cid_text(b"world");
    let rkey = format!("3jzfcijpj2z2a:{text}");
    assert!(check_key_binding(&rkey, &text).is_ok());
    assert_eq!(check_key_binding(&rkey, &other).unwrap_err(), KeyError::ContentMismatch);
    assert_eq!(check_key_binding(&rkey, "garbage").unwrap_err(), KeyError::InvalidDeclaredId);
    assert_eq!(
        check_key_binding(&format!("3jzfcijpj2z2a{text}"), &text).unwrap_err(),
        KeyError::MissingSeparator
    );
}

#[test]
fn record_uri_names_account_and_record_key() {
    assert_eq!(
        parse_at_uri("at://did:plc:bob/net.gifdex.feed.post/3jzfcijpj2z2a:bafk"),
        Some(("did:plc:bob".to_string(), "3jzfcijpj2z2a:bafk".to_string()))
    );
    assert_eq!(parse_at_uri("https://did:plc:bob/net.gifdex.feed.post/3jz"), None);
    assert_eq!(parse_at_uri("at://did:plc:bob/net.gifdex.feed.post"), None);
    assert_eq!(parse_at_uri("at://did:plc:bob/net.gifdex.feed.post/"), None);
    assert_eq!(parse_at_uri("at:///net.gifdex.feed.post/3jz"), None);
    assert_eq!(parse_at_uri("at://did:plc:bob/net.gifdex.feed.post/a/b"), None);
    assert_eq!(parse_at_uri("at:/"), None);
}
