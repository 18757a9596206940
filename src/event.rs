//! Events of the relay's stream and the closed table that routes a record
//! event's collection to its handlers.
use crate::status::IdentityEventStatus;
use crate::text::same_text;
use vstd::prelude::*;

verus! {

/// A record body as it came off the wire: kept opaque until its collection
/// has been routed and a collection-specific decode has run.
#[derive(Debug, Clone)]
pub struct RecordPayload {
    value: Vec<u8>,
}

impl RecordPayload {
    pub closed spec fn bytes(&self) -> Seq<u8> {
        self.value@
    }

    pub fn new(value: Vec<u8>) -> (r: RecordPayload)
        ensures
            r.bytes() == value@,
    {
        RecordPayload { value }
    }

    /// The undecoded bytes of the record.
    pub fn raw(&self) -> (r: &Vec<u8>)
        ensures
            r@ == self.bytes(),
    {
        &self.value
    }
}

/// What a record event does.
#[derive(Debug, Clone)]
pub enum RecordAction {
    Create { record: RecordPayload, cid: String },
    Update { record: RecordPayload, cid: String },
    Delete,
}

/// A mutation of one record in one account's repository.
#[derive(Debug, Clone)]
pub struct RecordEventData {
    pub live: bool,
    pub did: String,
    pub rev: String,
    pub collection: String,
    pub rkey: String,
    pub action: RecordAction,
}

/// A change of an account's identity or status.
#[derive(Debug, Clone)]
pub struct IdentityEventData {
    pub did: String,
    pub handle: String,
    pub is_active: bool,
    pub status: IdentityEventStatus,
}

/// The body of a stream event.
#[derive(Debug, Clone)]
pub enum EventData {
    Record { record: RecordEventData },
    Identity { identity: IdentityEventData },
}

/// A stream event with its monotonic id.
#[derive(Debug, Clone)]
pub struct Event {
    pub id: u64,
    pub data: EventData,
}

/// The collections this deployment projects.
#[derive(Debug, Clone, Copy, PartialEq, Eq, Structural)]
pub enum Collection {
    Post,
    Favourite,
    Profile,
    Label,
    Rule,
}

/// The identifier under which the relay names a collection.
pub open spec fn collection_nsid(c: Collection) -> Seq<char> {
    match c {
        Collection::Post => "net.gifdex.feed.post"@,
        Collection::Favourite => "net.gifdex.feed.favourite"@,
        Collection::Profile => "net.gifdex.actor.profile"@,
        Collection::Label => "net.gifdex.labeler.label"@,
        Collection::Rule => "net.gifdex.labeler.rule"@,
    }
}

/// The registered collection with a given identifier, if any.
pub open spec fn collection_of(nsid: Seq<char>) -> Option<Collection> {
    if nsid == collection_nsid(Collection::Post) {
        Some(Collection::Post)
    } else if nsid == collection_nsid(Collection::Favourite) {
        Some(Collection::Favourite)
    } else if nsid == collection_nsid(Collection::Profile) {
        Some(Collection::Profile)
    } else if nsid == collection_nsid(Collection::Label) {
        Some(Collection::Label)
    } else if nsid == collection_nsid(Collection::Rule) {
        Some(Collection::Rule)
    } else {
        None
    }
}

impl Collection {
    pub fn nsid(&self) -> (r: &'static str)
        ensures
            r@ == collection_nsid(*self),
    {
        match self {
            Collection::Post => "net.gifdex.feed.post",
            Collection::Favourite => "net.gifdex.feed.favourite",
            Collection::Profile => "net.gifdex.actor.profile",
            Collection::Label => "net.gifdex.labeler.label",
            Collection::Rule => "net.gifdex.labeler.rule",
        }
    }

    /// Looks a collection identifier up in the table.
    pub fn from_nsid(nsid: &str) -> (r: Option<Collection>)
        ensures
            r == collection_of(nsid@),
    {
        if same_text(nsid, "net.gifdex.feed.post") {
            Some(Collection::Post)
        } else if same_text(nsid, "net.gifdex.feed.favourite") {
            Some(Collection::Favourite)
        } else if same_text(nsid, "net.gifdex.actor.profile") {
            Some(Collection::Profile)
        } else if same_text(nsid, "net.gifdex.labeler.label") {
            Some(Collection::Label)
        } else if same_text(nsid, "net.gifdex.labeler.rule") {
            Some(Collection::Rule)
        } else {
            None
        }
    }
}

/// The identifiers of distinct collections differ, so the table gives every
/// collection a handler pair and each identifier leads back to its own
/// collection.
pub proof fn lemma_collection_table_complete(c: Collection)
    ensures
        collection_of(collection_nsid(c)) == Some(c),
{
    reveal_strlit("net.gifdex.feed.post");
    reveal_strlit("net.gifdex.feed.favourite");
    reveal_strlit("net.gifdex.actor.profile");
    reveal_strlit("net.gifdex.labeler.label");
    reveal_strlit("net.gifdex.labeler.rule");
    assert(collection_nsid(Collection::Post)[11] != collection_nsid(Collection::Label)[11]);
    assert(collection_nsid(Collection::Post)[11] != collection_nsid(Collection::Rule)[11]);
    assert(collection_nsid(Collection::Favourite)[11] != collection_nsid(Collection::Label)[11]);
    assert(collection_nsid(Collection::Favourite)[11] != collection_nsid(Collection::Rule)[11]);
    assert(collection_nsid(Collection::Label).len() != collection_nsid(Collection::Rule).len());
    assert(collection_nsid(Collection::Profile)[11] != collection_nsid(Collection::Post)[11]);
    assert(collection_nsid(Collection::Profile)[11] != collection_nsid(Collection::Favourite)[11]);
    assert(collection_nsid(Collection::Profile)[11] != collection_nsid(Collection::Label)[11]);
    assert(collection_nsid(Collection::Profile)[11] != collection_nsid(Collection::Rule)[11]);
    assert(collection_nsid(Collection::Post).len() != collection_nsid(Collection::Favourite).len());
}

/// Which handler of a collection's pair an event goes to.
#[derive(Debug, Clone, Copy, PartialEq, Eq, Structural)]
pub enum Operation {
    /// Create or update: the create-or-update handler.
    Upsert,
    /// Delete: the delete handler.
    Delete,
}

/// A routed record event.
#[derive(Debug, Clone, Copy, PartialEq, Eq, Structural)]
pub struct Route {
    pub collection: Collection,
    pub operation: Operation,
}

/// A record event whose collection has no entry in the table: a
/// configuration error of the deployment, not a rejection of the record.
#[derive(Debug, Clone, Copy, PartialEq, Eq, Structural)]
pub struct UnknownCollection;

/// The handler operation for a record action.
pub open spec fn operation_of(action: RecordAction) -> Operation {
    match action {
        RecordAction::Delete => Operation::Delete,
        _ => Operation::Upsert,
    }
}

/// The route of a record event.
pub open spec fn route_of(record: RecordEventData) -> Result<Route, UnknownCollection> {
    match collection_of(record.collection@) {
        None => Err(UnknownCollection),
        Some(c) => Ok(Route { collection: c, operation: operation_of(record.action) }),
    }
}

/// Routes a record event by its collection and action.
pub fn route(record: &RecordEventData) -> (r: Result<Route, UnknownCollection>)
    ensures
        r == route_of(*record),
{
    let collection = match Collection::from_nsid(record.collection.as_str()) {
        None => return Err(UnknownCollection),
        Some(c) => c,
    };
    let operation = match &record.action {
        RecordAction::Delete => Operation::Delete,
        _ => Operation::Upsert,
    };
    Ok(Route { collection, operation })
}

} // verus!
