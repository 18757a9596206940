use gifdex::event::{route, Collection, Operation, RecordAction, RecordEventData, RecordPayload, Route};
use gifdex::event::{IdentityEventData, UnknownCollection};
use gifdex::fetch::FetchError;
use gifdex::keys::KeyError;
use gifdex::media::MediaType;
use gifdex::projector::{
    plan_identity, plan_record, FavouriteRecord, LabelRecord, Outcome, PostRecord, ProfileRecord,
    RecordBody, Rejection, RuleRecord,
};
use gifdex::rows::RuleBehaviour;
use gifdex::status::IdentityEventStatus;
use gifdex::store::Store;
use multihash_codetable::{Code, MultihashDigest};

const DID: &str = "did:plc:alice";
const TID: &str = "3jzfcijpj2z2a";

fn gif(width: u16, height: u16) -> Vec<u8> {
    let mut v = b"GIF89a".to_vec();
    v.extend_from_slice(&width.to_le_bytes());
    v.extend_from_slice(&height.to_le_bytes());
    v.extend(std::iter::repeat(1u8).take(50));
    v
}

fn cid_text(data: &[u8]) -> String {
    cid::Cid::new_v1(0x55, Code::Sha2_256.digest(data)).to_string()
}

fn record(collection: &str, rkey: &str, rev: &str, action: RecordAction) -> RecordEventData {
    RecordEventData {
        live: true,
        did: DID.to_string(),
        rev: rev.to_string(),
        collection: collection.to_string(),
        rkey: rkey.to_string(),
        action,
    }
}

fn create() -> RecordAction {
    RecordAction::Create { record: RecordPayload::new(b"{}".to_vec()), cid: "bafy".to_string() }
}

fn post_record(media_cid: &str, mime: &str) -> PostRecord {
    PostRecord {
        title: "dancing cat".to_string(),
        media_cid: media_cid.to_string(),
        media_mime: mime.to_string(),
        media_size: 60,
        media_alt: Some("a cat".to_string()),
        tags: vec!["cat".to_string()],
        languages: vec!["en".to_string()],
        created_at: 1_700_000_000,
    }
}

fn identity(status: IdentityEventStatus) -> IdentityEventData {
    IdentityEventData {
        did: DID.to_string(),
        handle: "alice.test".to_string(),
        is_active: true,
        status,
    }
}

fn store_with_account() -> Store {
    let mut store = Store::new();
    store.commit(plan_identity(&identity(IdentityEventStatus::Active), Some("pds.example".to_string())), 1);
    store
}

fn apply(store: &mut Store, rec: &RecordEventData, body: RecordBody, now: i64) -> Result<(), String> {
    let r = route(rec).map_err(|_| "unknown collection".to_string())?;
    match plan_record(rec, r, body) {
        Outcome::Apply(effects) => {
            store.commit(effects, now);
            Ok(())
        }
        Outcome::Discard(e) => Err(format!("discarded: {e:?}")),
        Outcome::Fail(e) => Err(format!("failed: {e:?}")),
    }
}

fn post_body(data: &[u8], mime: &str) -> RecordBody {
    RecordBody::Post { post: post_record(&cid_text(data), mime), media: Ok(data.to_vec()) }
}

#[test]
fn create_post_then_redeliver_leaves_row_unchanged() {
    let data = gif(64, 48);
    let rkey = format!("{TID}:{}", cid_text(&data));
    let rec = record("net.gifdex.feed.post", &rkey, "3k2aaaaaaaaaa", create());
    let mut store = store_with_account();
    apply(&mut store, &rec, post_body(&data, "image/gif"), 100).unwrap();
    assert_eq!(store.posts().len(), 1);
    let first = format!("{:?}", store.posts()[0]);
    let row = &store.posts()[0];
    assert_eq!(row.rkey, rkey);
    assert_eq!(row.media_mime, MediaType::Gif);
    assert_eq!((row.media_width, row.media_height), (64, 48));
    assert_eq!(row.indexed_at, 100);
    assert_eq!(row.edited_at, None);
    assert_eq!(store.accounts()[0].rev.as_deref(), Some("3k2aaaaaaaaaa"));
    apply(&mut store, &rec, post_body(&data, "image/gif"), 200).unwrap();
    assert_eq!(store.posts().len(), 1);
    assert_eq!(format!("{:?}", store.posts()[0]), first);
    assert_eq!(store.accounts()[0].rev.as_deref(), Some("3k2aaaaaaaaaa"));
}

#[test]
fn update_post_overwrites_and_marks_edit() {
    let data = gif(64, 48);
    let rkey = format!("{TID}:{}", cid_text(&data));
    let mut store = store_with_account();
    let rec = record("net.gifdex.feed.post", &rkey, "3k2aaaaaaaaaa", create());
    apply(&mut store, &rec, post_body(&data, "image/gif"), 100).unwrap();
    let update = RecordAction::Update { record: RecordPayload::new(b"{}".to_vec()), cid: "bafy".to_string() };
    let rec2 = record("net.gifdex.feed.post", &rkey, "3k2bbbbbbbbbb", update);
    let mut post = post_record(&cid_text(&data), "image/gif");
    post.title = "dancing dog".to_string();
    apply(&mut store, &rec2, RecordBody::Post { post, media: Ok(data.clone()) }, 300).unwrap();
    let row = &store.posts()[0];
    assert_eq!(row.title, "dancing dog");
    assert_eq!(row.indexed_at, 100);
    assert_eq!(row.edited_at, Some(300));
    assert_eq!(store.accounts()[0].rev.as_deref(), Some("3k2bbbbbbbbbb"));
}

#[test]
fn key_not_bound_to_media_commits_nothing() {
    let data = gif(64, 48);
    let other = cid_text(b"something else");
    let mut store = store_with_account();
    let before = format!("{:?}", store.accounts());
    let cases = vec![
        (format!("{TID}:{other}"), Rejection::Key(KeyError::ContentMismatch)),
        (format!("notatid:{}", cid_text(&data)), Rejection::Key(KeyError::InvalidResourceId)),
        (TID.to_string(), Rejection::Key(KeyError::MissingSeparator)),
        (format!("{TID}:nope"), Rejection::Key(KeyError::InvalidContentId)),
    ];
    for (rkey, expected) in cases {
        let rec = record("net.gifdex.feed.post", &rkey, "3k2aaaaaaaaaa", create());
        let r = route(&rec).unwrap();
        match plan_record(&rec, r, post_body(&data, "image/gif")) {
            Outcome::Discard(e) => assert_eq!(e, expected),
            other => panic!("unexpected outcome {other:?}"),
        }
    }
    assert_eq!(store.posts().len(), 0);
    assert_eq!(format!("{:?}", store.accounts()), before);
    store.commit(Vec::new(), 5);
    assert_eq!(format!("{:?}", store.accounts()), before);
}

#[test]
fn declared_type_and_fetched_content_are_checked() {
    let data = gif(64, 48);
    let rkey = format!("{TID}:{}", cid_text(&data));
    let rec = record("net.gifdex.feed.post", &rkey, "3k2aaaaaaaaaa", create());
    let r = route(&rec).unwrap();
    match plan_record(&rec, r, post_body(&data, "image/png")) {
        Outcome::Discard(e) => assert_eq!(e, Rejection::DeclaredType),
        other => panic!("unexpected outcome {other:?}"),
    }
    let tampered = RecordBody::Post {
        post: post_record(&cid_text(&data), "image/gif"),
        media: Ok(gif(65, 48)),
    };
    match plan_record(&rec, r, tampered) {
        Outcome::Discard(Rejection::Media(_)) => {}
        other => panic!("unexpected outcome {other:?}"),
    }
    let unreachable = RecordBody::Post {
        post: post_record(&cid_text(&data), "image/gif"),
        media: Err(FetchError::Upstream),
    };
    match plan_record(&rec, r, unreachable) {
        Outcome::Fail(FetchError::Upstream) => {}
        other => panic!("unexpected outcome {other:?}"),
    }
    let too_large = RecordBody::Post {
        post: post_record(&cid_text(&data), "image/gif"),
        media: Err(FetchError::TooLarge),
    };
    match plan_record(&rec, r, too_large) {
        Outcome::Discard(Rejection::Fetch(FetchError::TooLarge)) => {}
        other => panic!("unexpected outcome {other:?}"),
    }
}

#[test]
fn takedown_purges_account_posts_and_favourites_but_keeps_labels() {
    let data = gif(64, 48);
    let rkey = format!("{TID}:{}", cid_text(&data));
    let mut store = store_with_account();
    apply(&mut store, &record("net.gifdex.feed.post", &rkey, "3k2a", create()), post_body(&data, "image/gif"), 10).unwrap();
    let fav = FavouriteRecord { subject_did: "did:plc:bob".to_string(), subject_rkey: "3jzfcijpj2z2b".to_string(), created_at: 5 };
    apply(&mut store, &record("net.gifdex.feed.favourite", "3jzfcijpj2z2c", "3k2b", create()), RecordBody::Favourite(fav), 11).unwrap();
    let label = LabelRecord { subject: "did:plc:bob".to_string(), value: "spam".to_string(), reason: None, expires_at: None, created_at: 6 };
    apply(&mut store, &record("net.gifdex.labeler.label", "3jzfcijpj2z2d", "3k2c", create()), RecordBody::Label(label), 12).unwrap();
    assert_eq!((store.posts().len(), store.favourites().len(), store.labels().len()), (1, 1, 1));
    store.commit(plan_identity(&identity(IdentityEventStatus::Takendown), None), 20);
    assert_eq!(store.accounts().len(), 0);
    assert_eq!(store.posts().len(), 0);
    assert_eq!(store.favourites().len(), 0);
    assert_eq!(store.labels().len(), 1);
    assert_eq!(store.labels()[0].actor, DID);
}

#[test]
fn identity_upsert_keeps_the_bookmark() {
    let mut store = store_with_account();
    store.commit(vec![gifdex::store::Effect::SetRev { did: DID.to_string(), rev: "3k2z".to_string() }], 2);
    let mut changed = identity(IdentityEventStatus::Deactivated);
    changed.is_active = false;
    store.commit(plan_identity(&changed, None), 3);
    let account = store.account(&DID.to_string()).unwrap();
    assert_eq!(account.status, IdentityEventStatus::Deactivated);
    assert!(!account.is_active);
    assert_eq!(account.origin_host, None);
    assert_eq!(account.rev.as_deref(), Some("3k2z"));
}

#[test]
fn unknown_collection_is_a_configuration_error() {
    let mut store = store_with_account();
    let before = format!("{:?}", store.accounts());
    let rec = record("com.example.unknown", TID, "3k9zzzzzzzzzz", create());
    assert_eq!(route(&rec), Err(UnknownCollection));
    assert_eq!(apply(&mut store, &rec, RecordBody::Deleted, 5), Err("unknown collection".to_string()));
    assert_eq!(format!("{:?}", store.accounts()), before);
    let next = record("net.gifdex.feed.favourite", "3jzfcijpj2z2c", "3k2b", create());
    let fav = FavouriteRecord { subject_did: "did:plc:bob".to_string(), subject_rkey: TID.to_string(), created_at: 5 };
    apply(&mut store, &next, RecordBody::Favourite(fav), 6).unwrap();
    assert_eq!(store.favourites().len(), 1);
}

#[test]
fn routing_table() {
    assert_eq!(Collection::from_nsid("net.gifdex.feed.post"), Some(Collection::Post));
    assert_eq!(Collection::from_nsid("net.gifdex.feed.favourite"), Some(Collection::Favourite));
    assert_eq!(Collection::from_nsid("net.gifdex.labeler.label"), Some(Collection::Label));
    assert_eq!(Collection::from_nsid("net.gifdex.labeler.rule"), Some(Collection::Rule));
    assert_eq!(Collection::from_nsid("net.gifdex.feed.posts"), None);
    assert_eq!(Collection::from_nsid("net.gifdex.actor.profile"), Some(Collection::Profile));
    for c in [
        Collection::Post,
        Collection::Favourite,
        Collection::Profile,
        Collection::Label,
        Collection::Rule,
    ] {
        assert_eq!(Collection::from_nsid(c.nsid()), Some(c));
    }
    let del = record("net.gifdex.labeler.rule", TID, "3k", RecordAction::Delete);
    assert_eq!(route(&del), Ok(Route { collection: Collection::Rule, operation: Operation::Delete }));
}

#[test]
fn duplicate_favourite_is_a_no_op() {
    let mut store = store_with_account();
    let rec = record("net.gifdex.feed.favourite", "3jzfcijpj2z2c", "3k2b", create());
    let fav = || FavouriteRecord { subject_did: "did:plc:bob".to_string(), subject_rkey: TID.to_string(), created_at: 5 };
    apply(&mut store, &rec, RecordBody::Favourite(fav()), 6).unwrap();
    apply(&mut store, &rec, RecordBody::Favourite(fav()), 7).unwrap();
    assert_eq!(store.favourites().len(), 1);
    assert_eq!(store.favourites()[0].ingested_at, 6);
    let del = record("net.gifdex.feed.favourite", "3jzfcijpj2z2c", "3k2c", RecordAction::Delete);
    apply(&mut store, &del, RecordBody::Deleted, 8).unwrap();
    assert_eq!(store.favourites().len(), 0);
}

#[test]
fn labels_and_rules_are_overwritten_and_deleted() {
    let mut store = store_with_account();
    let rec = record("net.gifdex.labeler.label", "3jzfcijpj2z2d", "3k2c", create());
    let label = |v: &str| LabelRecord { subject: "did:plc:bob".to_string(), value: v.to_string(), reason: Some("r".to_string()), expires_at: Some(9), created_at: 6 };
    apply(&mut store, &rec, RecordBody::Label(label("spam")), 12).unwrap();
    apply(&mut store, &rec, RecordBody::Label(label("nsfw")), 13).unwrap();
    assert_eq!(store.labels().len(), 1);
    assert_eq!(store.labels()[0].value, "nsfw");
    let del = record("net.gifdex.labeler.label", "3jzfcijpj2z2d", "3k2d", RecordAction::Delete);
    apply(&mut store, &del, RecordBody::Deleted, 14).unwrap();
    assert_eq!(store.labels().len(), 0);

    let rrec = record("net.gifdex.labeler.rule", "3jzfcijpj2z2e", "3k2e", create());
    let rule = |t: bool| RuleRecord { name: "spam".to_string(), description: "d".to_string(), behaviour: RuleBehaviour::Moderate { takedown: t }, created_at: 1 };
    apply(&mut store, &rrec, RecordBody::Rule(rule(false)), 15).unwrap();
    apply(&mut store, &rrec, RecordBody::Rule(rule(false)), 16).unwrap();
    assert_eq!(store.rules()[0].edited_at, None);
    apply(&mut store, &rrec, RecordBody::Rule(rule(true)), 17).unwrap();
    assert_eq!(store.rules().len(), 1);
    assert_eq!(store.rules()[0].edited_at, Some(17));
    assert_eq!(store.rules()[0].indexed_at, 15);
}

#[test]
fn body_of_another_collection_is_refused() {
    let rec = record("net.gifdex.labeler.rule", TID, "3k", create());
    let r = route(&rec).unwrap();
    let fav = FavouriteRecord { subject_did: "did:plc:bob".to_string(), subject_rkey: TID.to_string(), created_at: 5 };
    match plan_record(&rec, r, RecordBody::Favourite(fav)) {
        Outcome::Discard(Rejection::BodyMismatch) => {}
        other => panic!("unexpected outcome {other:?}"),
    }
    assert_eq!(
        RecordPayload::new(b"{\"a\":1}".to_vec()).raw(),
        &b"{\"a\":1}".to_vec()
    );
}

#[test]
fn declared_size_above_the_ceiling_is_refused() {
    let data = gif(64, 48);
    let rkey = format!("{TID}:{}", cid_text(&data));
    let rec = record("net.gifdex.feed.post", &rkey, "3k2aaaaaaaaaa", create());
    let mut post = post_record(&cid_text(&data), "image/webp");
    post.media_size = 10 * 1024 * 1024 + 1;
    let r = route(&rec).unwrap();
    match plan_record(&rec, r, RecordBody::Post { post, media: Ok(data.clone()) }) {
        Outcome::Discard(e) => assert_eq!(e, Rejection::DeclaredSize),
        other => panic!("unexpected outcome {other:?}"),
    }
}

#[test]
fn profile_needs_the_self_key_and_is_purged_with_the_account() {
    let mut store = store_with_account();
    let profile = || ProfileRecord {
        display_name: Some("Alice".to_string()),
        description: None,
        pronouns: Some("they/them".to_string()),
        avatar_cid: None,
    };
    let wrong = record("net.gifdex.actor.profile", TID, "3k2a", create());
    let r = route(&wrong).unwrap();
    match plan_record(&wrong, r, RecordBody::Profile(profile())) {
        Outcome::Discard(e) => assert_eq!(e, Rejection::ProfileKey),
        other => panic!("unexpected outcome {other:?}"),
    }
    let rec = record("net.gifdex.actor.profile", "self", "3k2b", create());
    apply(&mut store, &rec, RecordBody::Profile(profile()), 3).unwrap();
    apply(&mut store, &rec, RecordBody::Profile(profile()), 4).unwrap();
    assert_eq!(store.profiles().len(), 1);
    assert_eq!(store.profiles()[0].display_name.as_deref(), Some("Alice"));
    store.commit(plan_identity(&identity(IdentityEventStatus::Deleted), None), 5);
    assert_eq!(store.profiles().len(), 0);
    assert_eq!(store.accounts().len(), 0);
}

#[test]
fn label_delete_removes_only_the_deleting_actors_label() {
    let mut store = store_with_account();
    let rkey = "3jzfcijpj2z2d";
    let label = |subject: &str| LabelRecord {
        subject: subject.to_string(),
        value: "spam".to_string(),
        reason: None,
        expires_at: None,
        created_at: 6,
    };
    let mine = record("net.gifdex.labeler.label", rkey, "3k2c", create());
    apply(&mut store, &mine, RecordBody::Label(label("did:plc:bob")), 12).unwrap();
    let mut theirs = record("net.gifdex.labeler.label", rkey, "3k2c", create());
    theirs.did = "did:plc:carol".to_string();
    apply(&mut store, &theirs, RecordBody::Label(label("did:plc:dave")), 13).unwrap();
    assert_eq!(store.labels().len(), 2);
    let del = record("net.gifdex.labeler.label", rkey, "3k2d", RecordAction::Delete);
    apply(&mut store, &del, RecordBody::Deleted, 14).unwrap();
    assert_eq!(store.labels().len(), 1);
    assert_eq!(store.labels()[0].actor, "did:plc:carol");
    assert_eq!(store.labels()[0].subject, "did:plc:dave");
}
