//! The transactional projector: turns one routed, decoded event into the
//! effects that are committed together, or into a rejection that commits
//! nothing.
use crate::content_id::decoded_content_id;
use crate::connection::{
    transition, ConnectionAction, ConnectionEvent, ConnectionState, EventDisposition,
};
use crate::event::{
    collection_of, route_of, Collection, IdentityEventData, Operation, RecordEventData, Route,
    UnknownCollection,
};
use crate::fetch::{FetchError, MAX_BLOB_SIZE};
use crate::keys::{check_key_binding, key_binding_check, key_binds, split_key, KeyError, MediaKey};
use crate::media::{
    allowed_media_type, check_ingested_media, ingested_media_check, MediaError, MediaInfo,
    MediaType,
};
use crate::rows::{FavouriteRow, Keyed, LabelRow, PostRow, ProfileRow, RuleBehaviour, RuleRow};
use crate::text::same_text;
use crate::status::status_purges;
use crate::store::{
    apply_effects, is_record_effect, lemma_identity_effect_twice, lemma_post_then_rev_one_row,
    lemma_record_then_rev_twice, well_formed, Effect, StoreView,
};
use vstd::prelude::*;

verus! {

/// A post record, decoded after routing.
#[derive(Debug, Clone)]
pub struct PostRecord {
    pub title: String,
    /// The content identifier the record declares for its media.
    pub media_cid: String,
    /// The media type the record declares.
    pub media_mime: String,
    /// The media size in bytes the record declares.
    pub media_size: u64,
    pub media_alt: Option<String>,
    pub tags: Vec<String>,
    pub languages: Vec<String>,
    pub created_at: i64,
}

/// A favourite record, decoded after routing.
#[derive(Debug, Clone)]
pub struct FavouriteRecord {
    pub subject_did: String,
    pub subject_rkey: String,
    pub created_at: i64,
}

/// An actor profile record, decoded after routing.
#[derive(Debug, Clone)]
pub struct ProfileRecord {
    pub display_name: Option<String>,
    pub description: Option<String>,
    pub pronouns: Option<String>,
    pub avatar_cid: Option<String>,
}

/// A label record, decoded after routing.
#[derive(Debug, Clone)]
pub struct LabelRecord {
    pub subject: String,
    pub value: String,
    pub reason: Option<String>,
    pub expires_at: Option<i64>,
    pub created_at: i64,
}

/// A labeler rule record, decoded after routing.
#[derive(Debug, Clone)]
pub struct RuleRecord {
    pub name: String,
    pub description: String,
    pub behaviour: RuleBehaviour,
    pub created_at: i64,
}

/// The decoded body of a routed record event. A post comes with the outcome
/// of fetching its media from the account's origin.
#[derive(Debug)]
pub enum RecordBody {
    Post { post: PostRecord, media: Result<Vec<u8>, FetchError> },
    Favourite(FavouriteRecord),
    Profile(ProfileRecord),
    Label(LabelRecord),
    Rule(RuleRecord),
    /// The body of a delete event: nothing.
    Deleted,
}

/// Why a record was accepted off the stream but not persisted.
#[derive(Debug, Clone, Copy, PartialEq, Eq, Structural)]
pub enum Rejection {
    /// The record key does not bind the declared media.
    Key(KeyError),
    /// The declared media type is not on the allow-list.
    DeclaredType,
    /// The declared media size exceeds the ceiling.
    DeclaredSize,
    /// The fetched media is refused for good.
    Fetch(FetchError),
    /// The fetched media fails its integrity, type or dimension check.
    Media(MediaError),
    /// A profile record whose key is not `self`.
    ProfileKey,
    /// The decoded body is not of the routed collection or operation.
    BodyMismatch,
}

/// What becomes of one record event.
#[derive(Debug, Clone)]
pub enum Outcome {
    /// Commit these effects as one unit.
    Apply(Vec<Effect>),
    /// Acknowledge the event and commit nothing.
    Discard(Rejection),
    /// Commit nothing; the event failed for this delivery because the
    /// remote origin was unavailable.
    Fail(FetchError),
}

/// The permanent checks of a post before its media is fetched: the key
/// binds the declared media, whose declared type and size are acceptable.
pub open spec fn post_precheck(rkey: Seq<char>, post: PostRecord) -> Result<(), Rejection> {
    match key_binding_check(rkey, post.media_cid@) {
        Err(e) => Err(Rejection::Key(e)),
        Ok(()) => if allowed_media_type(post.media_mime@) is None {
            Err(Rejection::DeclaredType)
        } else if post.media_size > MAX_BLOB_SIZE {
            Err(Rejection::DeclaredSize)
        } else {
            Ok(())
        },
    }
}

/// Checks a post record before its media is fetched, returning the parsed
/// key whose content identifier the media must match.
pub fn post_media_target(record: &RecordEventData, post: &PostRecord) -> (r: Result<
    MediaKey,
    Rejection,
>)
    ensures
        r is Ok <==> post_precheck(record.rkey@, *post) is Ok,
        r matches Err(e) ==> post_precheck(record.rkey@, *post) == Err::<(), Rejection>(e),
        r matches Ok(k) ==> decoded_content_id(post.media_cid@) == Some(
            (k.content_id.version, k.content_id.codec, k.content_id.hash_code, k.content_id.digest@),
        ),
        r matches Ok(k) ==> split_key(record.rkey@) == Some((k.resource_id@, k.content_text@)),
        r matches Ok(k) ==> decoded_content_id(k.content_text@) == decoded_content_id(
            post.media_cid@,
        ),
{
    let key = match check_key_binding(record.rkey.as_str(), post.media_cid.as_str()) {
        Err(e) => return Err(Rejection::Key(e)),
        Ok(k) => k,
    };
    if MediaType::from_mime(post.media_mime.as_str()).is_none() {
        return Err(Rejection::DeclaredType);
    }
    if post.media_size > MAX_BLOB_SIZE as u64 {
        return Err(Rejection::DeclaredSize);
    }
    Ok(key)
}

/// The post row for a record whose media checked out; its time stamps are
/// set when it is applied.
pub open spec fn post_row(record: RecordEventData, post: PostRecord, info: MediaInfo) -> PostRow {
    PostRow {
        did: record.did,
        rkey: record.rkey,
        title: post.title,
        media_hash: post.media_cid,
        media_mime: info.media_type,
        media_alt: post.media_alt,
        media_width: info.width,
        media_height: info.height,
        tags: post.tags,
        languages: post.languages,
        created_at: post.created_at,
        edited_at: None,
        indexed_at: 0,
    }
}

/// The claimed identifier of a post's media as plain values.
pub open spec fn declared_id(post: PostRecord) -> crate::content_id::ContentIdView {
    let d = decoded_content_id(post.media_cid@).unwrap();
    crate::content_id::ContentIdView { version: d.0, codec: d.1, hash_code: d.2, digest: d.3 }
}

/// The effect a routed record event has on its own table, or why it has none.
pub open spec fn record_effect(record: RecordEventData, route: Route, body: RecordBody) -> Result<
    Effect,
    Outcome,
> {
    match (route.operation, body) {
        (Operation::Delete, RecordBody::Deleted) => match route.collection {
            Collection::Post => Ok(Effect::DeletePost { did: record.did, rkey: record.rkey }),
            Collection::Favourite => Ok(
                Effect::DeleteFavourite { did: record.did, rkey: record.rkey },
            ),
            Collection::Profile => Ok(
                Effect::DeleteProfile { did: record.did, rkey: record.rkey },
            ),
            Collection::Label => Ok(Effect::DeleteLabel { actor: record.did, rkey: record.rkey }),
            Collection::Rule => Ok(Effect::DeleteRule { did: record.did, rkey: record.rkey }),
        },
        (Operation::Upsert, RecordBody::Post { post, media }) => if route.collection
            != Collection::Post {
            Err(Outcome::Discard(Rejection::BodyMismatch))
        } else {
            match post_precheck(record.rkey@, post) {
                Err(e) => Err(Outcome::Discard(e)),
                Ok(()) => match media {
                    Err(FetchError::Upstream) => Err(Outcome::Fail(FetchError::Upstream)),
                    Err(e) => Err(Outcome::Discard(Rejection::Fetch(e))),
                    Ok(bytes) => match ingested_media_check(declared_id(post), bytes@) {
                        Err(e) => Err(Outcome::Discard(Rejection::Media(e))),
                        Ok(info) => Ok(Effect::UpsertPost(post_row(record, post, info))),
                    },
                },
            }
        },
        (Operation::Upsert, RecordBody::Favourite(f)) => if route.collection
            != Collection::Favourite {
            Err(Outcome::Discard(Rejection::BodyMismatch))
        } else {
            Ok(
                Effect::InsertFavourite(
                    FavouriteRow {
                        did: record.did,
                        rkey: record.rkey,
                        post_did: f.subject_did,
                        post_rkey: f.subject_rkey,
                        created_at: f.created_at,
                        ingested_at: 0,
                    },
                ),
            )
        },
        (Operation::Upsert, RecordBody::Profile(p)) => if route.collection
            != Collection::Profile {
            Err(Outcome::Discard(Rejection::BodyMismatch))
        } else if record.rkey@ != "self"@ {
            Err(Outcome::Discard(Rejection::ProfileKey))
        } else {
            Ok(
                Effect::UpsertProfile(
                    ProfileRow {
                        did: record.did,
                        rkey: record.rkey,
                        display_name: p.display_name,
                        description: p.description,
                        pronouns: p.pronouns,
                        avatar_cid: p.avatar_cid,
                    },
                ),
            )
        },
        (Operation::Upsert, RecordBody::Label(l)) => if route.collection != Collection::Label {
            Err(Outcome::Discard(Rejection::BodyMismatch))
        } else {
            Ok(
                Effect::UpsertLabel(
                    LabelRow {
                        subject: l.subject,
                        rkey: record.rkey,
                        value: l.value,
                        reason: l.reason,
                        actor: record.did,
                        expires_at: l.expires_at,
                        created_at: l.created_at,
                    },
                ),
            )
        },
        (Operation::Upsert, RecordBody::Rule(u)) => if route.collection != Collection::Rule {
            Err(Outcome::Discard(Rejection::BodyMismatch))
        } else {
            Ok(
                Effect::UpsertRule(
                    RuleRow {
                        did: record.did,
                        rkey: record.rkey,
                        name: u.name,
                        description: u.description,
                        behaviour: u.behaviour,
                        created_at: u.created_at,
                        edited_at: None,
                        indexed_at: 0,
                    },
                ),
            )
        },
        _ => Err(Outcome::Discard(Rejection::BodyMismatch)),
    }
}

/// The plan of a routed record event: its own effect followed by the
/// advance of the account's bookmark to the event's revision, or the outcome
/// that commits nothing.
pub open spec fn record_plan(record: RecordEventData, route: Route, body: RecordBody) -> Result<
    Seq<Effect>,
    Outcome,
> {
    match record_effect(record, route, body) {
        Err(o) => Err(o),
        Ok(e) => Ok(seq![e, Effect::SetRev { did: record.did, rev: record.rev }]),
    }
}

/// Whether an outcome is the one a plan describes.
pub open spec fn outcome_matches(r: Outcome, plan: Result<Seq<Effect>, Outcome>) -> bool {
    match plan {
        Ok(es) => r matches Outcome::Apply(v) && v@ == es,
        Err(o) => r == o,
    }
}

fn post_effect(record: &RecordEventData, post: PostRecord, media: Result<Vec<u8>, FetchError>) -> (r: Result<Effect, Outcome>)
    ensures
        r == record_effect(
            *record,
            Route { collection: Collection::Post, operation: Operation::Upsert },
            RecordBody::Post { post, media },
        ),
{
    let key = match post_media_target(record, &post) {
        Err(e) => return Err(Outcome::Discard(e)),
        Ok(k) => k,
    };
    let bytes = match media {
        Err(FetchError::Upstream) => return Err(Outcome::Fail(FetchError::Upstream)),
        Err(e) => return Err(Outcome::Discard(Rejection::Fetch(e))),
        Ok(b) => b,
    };
    assert(key.content_id@ == declared_id(post));
    let info = match check_ingested_media(&key.content_id, bytes.as_slice()) {
        Err(e) => return Err(Outcome::Discard(Rejection::Media(e))),
        Ok(i) => i,
    };
    Ok(
        Effect::UpsertPost(
            PostRow {
                did: record.did.clone(),
                rkey: record.rkey.clone(),
                title: post.title,
                media_hash: post.media_cid,
                media_mime: info.media_type,
                media_alt: post.media_alt,
                media_width: info.width,
                media_height: info.height,
                tags: post.tags,
                languages: post.languages,
                created_at: post.created_at,
                edited_at: None,
                indexed_at: 0,
            },
        ),
    )
}

fn delete_effect(record: &RecordEventData, collection: Collection) -> (r: Effect)
    ensures
        Ok::<Effect, Outcome>(r) == record_effect(
            *record,
            Route { collection, operation: Operation::Delete },
            RecordBody::Deleted,
        ),
{
    match collection {
        Collection::Post => Effect::DeletePost { did: record.did.clone(), rkey: record.rkey.clone() },
        Collection::Favourite => Effect::DeleteFavourite {
            did: record.did.clone(),
            rkey: record.rkey.clone(),
        },
        Collection::Profile => Effect::DeleteProfile {
            did: record.did.clone(),
            rkey: record.rkey.clone(),
        },
        Collection::Label => Effect::DeleteLabel {
            actor: record.did.clone(),
            rkey: record.rkey.clone(),
        },
        Collection::Rule => Effect::DeleteRule { did: record.did.clone(), rkey: record.rkey.clone() },
    }
}

/// Plans a routed record event from its decoded body.
pub fn plan_record(record: &RecordEventData, route: Route, body: RecordBody) -> (r: Outcome)
    ensures
        outcome_matches(r, record_plan(*record, route, body)),
{
    let effect = match (route.operation, body) {
        (Operation::Delete, RecordBody::Deleted) => Ok(delete_effect(record, route.collection)),
        (Operation::Upsert, RecordBody::Post { post, media }) => {
            if route.collection != Collection::Post {
                Err(Outcome::Discard(Rejection::BodyMismatch))
            } else {
                post_effect(record, post, media)
            }
        },
        (Operation::Upsert, RecordBody::Favourite(f)) => {
            if route.collection != Collection::Favourite {
                Err(Outcome::Discard(Rejection::BodyMismatch))
            } else {
                Ok(
                    Effect::InsertFavourite(
                        FavouriteRow {
                            did: record.did.clone(),
                            rkey: record.rkey.clone(),
                            post_did: f.subject_did,
                            post_rkey: f.subject_rkey,
                            created_at: f.created_at,
                            ingested_at: 0,
                        },
                    ),
                )
            }
        },
        (Operation::Upsert, RecordBody::Profile(p)) => {
            if route.collection != Collection::Profile {
                Err(Outcome::Discard(Rejection::BodyMismatch))
            } else if !same_text(record.rkey.as_str(), "self") {
                Err(Outcome::Discard(Rejection::ProfileKey))
            } else {
                Ok(
                    Effect::UpsertProfile(
                        ProfileRow {
                            did: record.did.clone(),
                            rkey: record.rkey.clone(),
                            display_name: p.display_name,
                            description: p.description,
                            pronouns: p.pronouns,
                            avatar_cid: p.avatar_cid,
                        },
                    ),
                )
            }
        },
        (Operation::Upsert, RecordBody::Label(l)) => {
            if route.collection != Collection::Label {
                Err(Outcome::Discard(Rejection::BodyMismatch))
            } else {
                Ok(
                    Effect::UpsertLabel(
                        LabelRow {
                            subject: l.subject,
                            rkey: record.rkey.clone(),
                            value: l.value,
                            reason: l.reason,
                            actor: record.did.clone(),
                            expires_at: l.expires_at,
                            created_at: l.created_at,
                        },
                    ),
                )
            }
        },
        (Operation::Upsert, RecordBody::Rule(u)) => {
            if route.collection != Collection::Rule {
                Err(Outcome::Discard(Rejection::BodyMismatch))
            } else {
                Ok(
                    Effect::UpsertRule(
                        RuleRow {
                            did: record.did.clone(),
                            rkey: record.rkey.clone(),
                            name: u.name,
                            description: u.description,
                            behaviour: u.behaviour,
                            created_at: u.created_at,
                            edited_at: None,
                            indexed_at: 0,
                        },
                    ),
                )
            }
        },
        _ => Err(Outcome::Discard(Rejection::BodyMismatch)),
    };
    match effect {
        Err(o) => o,
        Ok(e) => {
            let mut v: Vec<Effect> = Vec::new();
            v.push(e);
            v.push(Effect::SetRev { did: record.did.clone(), rev: record.rev.clone() });
            assert(v@ == seq![e, Effect::SetRev { did: record.did, rev: record.rev }]);
            Outcome::Apply(v)
        },
    }
}

/// The effects of an identity event: a purge for a deleted or taken-down
/// account, otherwise an upsert of its identity fields with the origin host
/// that resolution gave.
pub open spec fn identity_plan(identity: IdentityEventData, origin_host: Option<String>) -> Seq<
    Effect,
> {
    if status_purges(identity.status) {
        seq![Effect::PurgeAccount { did: identity.did }]
    } else {
        seq![
            Effect::UpsertAccount {
                did: identity.did,
                handle: identity.handle,
                origin_host,
                is_active: identity.is_active,
                status: identity.status,
            },
        ]
    }
}

/// Whether an identity event needs the account's origin host resolved.
pub fn identity_needs_origin(identity: &IdentityEventData) -> (r: bool)
    ensures
        r == !status_purges(identity.status),
{
    !identity.status.purges_account()
}

/// Plans an identity event.
pub fn plan_identity(identity: &IdentityEventData, origin_host: Option<String>) -> (r: Vec<Effect>)
    ensures
        r@ == identity_plan(*identity, origin_host),
{
    let mut v: Vec<Effect> = Vec::new();
    if identity.status.purges_account() {
        v.push(Effect::PurgeAccount { did: identity.did.clone() });
    } else {
        v.push(
            Effect::UpsertAccount {
                did: identity.did.clone(),
                handle: identity.handle.clone(),
                origin_host,
                is_active: identity.is_active,
                status: identity.status,
            },
        );
    }
    assert(v@ == identity_plan(*identity, origin_host));
    v
}

/// A record whose route does not match its body, or a post whose key does
/// not bind its media, commits nothing; a post is applied only when its key
/// binds its declared media.
pub proof fn lemma_key_binding(record: RecordEventData, route: Route, body: RecordBody)
    ensures
        body matches RecordBody::Post { post, .. } ==> (record_plan(record, route, body) is Ok
            ==> key_binds(record.rkey@, post.media_cid@)),
        body matches RecordBody::Post { post, .. } ==> (!key_binds(record.rkey@, post.media_cid@)
            ==> record_plan(record, route, body) matches Err(Outcome::Discard(_))),
{
    if let RecordBody::Post { post, .. } = body {
        if !key_binds(record.rkey@, post.media_cid@) {
            assert(key_binding_check(record.rkey@, post.media_cid@) is Err);
        }
    }
}

/// Redelivery is safe: applying the plan of a record event a second time, at
/// any later time, leaves the projection exactly as the first application
/// left it.
pub proof fn lemma_redelivery_idempotent(
    s: StoreView,
    record: RecordEventData,
    route: Route,
    body: RecordBody,
    es: Seq<Effect>,
    n1: i64,
    n2: i64,
)
    requires
        record_plan(record, route, body) == Ok::<Seq<Effect>, Outcome>(es),
    ensures
        apply_effects(apply_effects(s, es, n1), es, n2) == apply_effects(s, es, n1),
{
    let e = record_effect(record, route, body)->Ok_0;
    assert(is_record_effect(e));
    lemma_record_then_rev_twice(s, e, record.did, record.rev, n1, n2);
}

/// Redelivery of an identity event is safe too: applying its plan a second
/// time leaves the projection as the first application left it.
pub proof fn lemma_identity_redelivery_idempotent(
    s: StoreView,
    identity: IdentityEventData,
    origin_host: Option<String>,
    n1: i64,
    n2: i64,
)
    ensures
        ({
            let es = identity_plan(identity, origin_host);
            apply_effects(apply_effects(s, es, n1), es, n2) == apply_effects(s, es, n1)
        }),
{
    let es = identity_plan(identity, origin_host);
    lemma_identity_effect_twice(s, es[0], n1, n2);
    assert(es == seq![es[0]]);
}

/// A post event whose plan applies leaves exactly one row under the event's
/// `(did, rkey)`: it holds the post's title and declared media identifier,
/// and the media type sniffed from the fetched bytes.
pub proof fn lemma_post_create_one_row(
    s: StoreView,
    record: RecordEventData,
    route: Route,
    post: PostRecord,
    media: Result<Vec<u8>, FetchError>,
    es: Seq<Effect>,
    now: i64,
)
    requires
        well_formed(s),
        record_plan(record, route, RecordBody::Post { post, media }) == Ok::<Seq<Effect>, Outcome>(es),
    ensures
        ({
            let t = apply_effects(s, es, now);
            &&& well_formed(t)
            &&& media is Ok
            &&& ingested_media_check(declared_id(post), media->Ok_0@) is Ok
            &&& exists|i: int|
                #![trigger t.posts[i]]
                0 <= i < t.posts.len() && t.posts[i].key() == (record.did@, record.rkey@)
                    && t.posts[i].title@ == post.title@ && t.posts[i].media_hash@ == post.media_cid@
                    && t.posts[i].media_mime == ingested_media_check(
                    declared_id(post),
                    media->Ok_0@,
                )->Ok_0.media_type && forall|j: int|
                    0 <= j < t.posts.len() && t.posts[j].key() == (record.did@, record.rkey@) ==> j
                        == i
        }),
{
    let info = ingested_media_check(declared_id(post), media->Ok_0@)->Ok_0;
    let row = post_row(record, post, info);
    assert(es == seq![
        Effect::UpsertPost(row),
        Effect::SetRev { did: record.did, rev: record.rev },
    ]);
    lemma_post_then_rev_one_row(s, row, record.did, record.rev, now);
}

impl Outcome {
    /// The effects to commit: those of an applied plan, none otherwise.
    pub fn into_effects(self) -> (r: Vec<Effect>)
        ensures
            self matches Outcome::Apply(v) ==> r@ == v@,
            !(self is Apply) ==> r@.len() == 0,
    {
        match self {
            Outcome::Apply(v) => v,
            _ => Vec::new(),
        }
    }

    /// How handling ended, as the connection sees it.
    pub fn disposition(&self) -> (r: EventDisposition)
        ensures
            self is Apply ==> r == EventDisposition::Committed,
            self is Discard ==> r == EventDisposition::Rejected,
            self is Fail ==> r == EventDisposition::Failed,
    {
        match self {
            Outcome::Apply(_) => EventDisposition::Committed,
            Outcome::Discard(_) => EventDisposition::Rejected,
            Outcome::Fail(_) => EventDisposition::Failed,
        }
    }
}

/// A record event whose collection has no handler is routed to the
/// configuration error, commits nothing (so no bookmark advances), and the
/// stream goes on to the next event.
pub proof fn lemma_unknown_collection(s: StoreView, record: RecordEventData, now: i64)
    requires
        collection_of(record.collection@) is None,
    ensures
        route_of(record) == Err::<Route, UnknownCollection>(UnknownCollection),
        apply_effects(s, Seq::<Effect>::empty(), now) == s,
        transition(
            ConnectionState::Streaming,
            ConnectionEvent::EventHandled(EventDisposition::UnknownCollection),
        ) == (ConnectionState::Streaming, ConnectionAction::Consume),
{
}

} // verus!
