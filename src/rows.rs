//! Rows of the relational projection and their comparison by content.
use crate::media::MediaType;
use crate::status::IdentityEventStatus;
use vstd::prelude::*;

verus! {

/// An account: identity, remote origin, status and progress bookmark.
#[derive(Debug, Clone)]
pub struct AccountRow {
    pub did: String,
    pub handle: String,
    pub origin_host: Option<String>,
    pub is_active: bool,
    pub status: IdentityEventStatus,
    pub rev: Option<String>,
}

/// A media-bearing post, keyed by `(did, rkey)`.
#[derive(Debug, Clone)]
pub struct PostRow {
    pub did: String,
    pub rkey: String,
    pub title: String,
    pub media_hash: String,
    pub media_mime: MediaType,
    pub media_alt: Option<String>,
    pub media_width: usize,
    pub media_height: usize,
    pub tags: Vec<String>,
    pub languages: Vec<String>,
    pub created_at: i64,
    pub edited_at: Option<i64>,
    pub indexed_at: i64,
}

/// A favourite of a post, keyed by the favouriting actor's `(did, rkey)`.
#[derive(Debug, Clone)]
pub struct FavouriteRow {
    pub did: String,
    pub rkey: String,
    pub post_did: String,
    pub post_rkey: String,
    pub created_at: i64,
    pub ingested_at: i64,
}

/// A moderation label, keyed by `(subject, rkey)`.
#[derive(Debug, Clone)]
pub struct LabelRow {
    pub subject: String,
    pub rkey: String,
    pub value: String,
    pub reason: Option<String>,
    pub actor: String,
    pub expires_at: Option<i64>,
    pub created_at: i64,
}

/// How a labeler rule acts on what it labels.
#[derive(Debug, Clone)]
pub enum RuleBehaviour {
    Annotate { default_setting: String, adult_content: bool },
    Moderate { takedown: bool },
}

/// A labeler rule, keyed by `(did, rkey)`.
#[derive(Debug, Clone)]
pub struct RuleRow {
    pub did: String,
    pub rkey: String,
    pub name: String,
    pub description: String,
    pub behaviour: RuleBehaviour,
    pub created_at: i64,
    pub edited_at: Option<i64>,
    pub indexed_at: i64,
}

/// The self-described profile of an account, keyed by `(did, rkey)`; its
/// record key is always `self`.
#[derive(Debug, Clone)]
pub struct ProfileRow {
    pub did: String,
    pub rkey: String,
    pub display_name: Option<String>,
    pub description: Option<String>,
    pub pronouns: Option<String>,
    pub avatar_cid: Option<String>,
}

/// A row with a two-part natural key.
pub trait Keyed {
    spec fn key(&self) -> (Seq<char>, Seq<char>);

    /// The account whose record wrote the row.
    spec fn author(&self) -> Seq<char>;

    fn author_part(&self) -> (r: &String)
        ensures
            r@ == self.author(),
    ;

    fn key_parts(&self) -> (r: (&String, &String))
        ensures
            r.0@ == self.key().0,
            r.1@ == self.key().1,
    ;
}

impl Keyed for PostRow {
    open spec fn author(&self) -> Seq<char> {
        self.did@
    }

    fn author_part(&self) -> (r: &String) {
        &self.did
    }

    open spec fn key(&self) -> (Seq<char>, Seq<char>) {
        (self.did@, self.rkey@)
    }

    fn key_parts(&self) -> (r: (&String, &String)) {
        (&self.did, &self.rkey)
    }
}

impl Keyed for ProfileRow {
    open spec fn author(&self) -> Seq<char> {
        self.did@
    }

    fn author_part(&self) -> (r: &String) {
        &self.did
    }

    open spec fn key(&self) -> (Seq<char>, Seq<char>) {
        (self.did@, self.rkey@)
    }

    fn key_parts(&self) -> (r: (&String, &String)) {
        (&self.did, &self.rkey)
    }
}

impl Keyed for FavouriteRow {
    open spec fn author(&self) -> Seq<char> {
        self.did@
    }

    fn author_part(&self) -> (r: &String) {
        &self.did
    }

    open spec fn key(&self) -> (Seq<char>, Seq<char>) {
        (self.did@, self.rkey@)
    }

    fn key_parts(&self) -> (r: (&String, &String)) {
        (&self.did, &self.rkey)
    }
}

impl Keyed for LabelRow {
    open spec fn author(&self) -> Seq<char> {
        self.actor@
    }

    fn author_part(&self) -> (r: &String) {
        &self.actor
    }

    open spec fn key(&self) -> (Seq<char>, Seq<char>) {
        (self.subject@, self.rkey@)
    }

    fn key_parts(&self) -> (r: (&String, &String)) {
        (&self.subject, &self.rkey)
    }
}

impl Keyed for RuleRow {
    open spec fn author(&self) -> Seq<char> {
        self.did@
    }

    fn author_part(&self) -> (r: &String) {
        &self.did
    }

    open spec fn key(&self) -> (Seq<char>, Seq<char>) {
        (self.did@, self.rkey@)
    }

    fn key_parts(&self) -> (r: (&String, &String)) {
        (&self.did, &self.rkey)
    }
}

/// The characters of an optional string.
pub open spec fn opt_text(o: Option<String>) -> Option<Seq<char>> {
    match o {
        Some(s) => Some(s@),
        None => None,
    }
}

/// The characters of each string of a list.
pub open spec fn texts(v: Vec<String>) -> Seq<Seq<char>> {
    v@.map_values(|s: String| s@)
}

/// Whether two optional strings hold the same text.
pub fn same_opt_text(a: &Option<String>, b: &Option<String>) -> (r: bool)
    ensures
        r == (opt_text(*a) == opt_text(*b)),
{
    match (a, b) {
        (Some(x), Some(y)) => *x == *y,
        (None, None) => true,
        _ => false,
    }
}

/// Whether two lists of strings hold the same texts in the same order.
pub fn same_texts(a: &Vec<String>, b: &Vec<String>) -> (r: bool)
    ensures
        r == (texts(*a) == texts(*b)),
{
    if a.len() != b.len() {
        assert(texts(*a).len() != texts(*b).len());
        return false;
    }
    let mut i: usize = 0;
    while i < a.len()
        invariant
            a@.len() == b@.len(),
            i <= a@.len(),
            forall|j: int| 0 <= j < i ==> a@[j]@ == b@[j]@,
        decreases a@.len() - i,
    {
        if a[i] != b[i] {
            assert(texts(*a)[i as int] != texts(*b)[i as int]);
            return false;
        }
        i = i + 1;
    }
    assert(texts(*a) =~= texts(*b));
    true
}

/// Two posts agree on everything an event can set.
pub open spec fn same_post(a: PostRow, b: PostRow) -> bool {
    &&& a.title@ == b.title@
    &&& a.media_hash@ == b.media_hash@
    &&& a.media_mime == b.media_mime
    &&& opt_text(a.media_alt) == opt_text(b.media_alt)
    &&& a.media_width == b.media_width
    &&& a.media_height == b.media_height
    &&& texts(a.tags) == texts(b.tags)
    &&& texts(a.languages) == texts(b.languages)
    &&& a.created_at == b.created_at
}

pub fn same_post_exec(a: &PostRow, b: &PostRow) -> (r: bool)
    ensures
        r == same_post(*a, *b),
{
    a.title == b.title && a.media_hash == b.media_hash && a.media_mime == b.media_mime
        && same_opt_text(&a.media_alt, &b.media_alt) && a.media_width == b.media_width
        && a.media_height == b.media_height && same_texts(&a.tags, &b.tags) && same_texts(
        &a.languages,
        &b.languages,
    ) && a.created_at == b.created_at
}

/// The texts and flags of a rule behaviour.
pub open spec fn behaviour_view(b: RuleBehaviour) -> (bool, Seq<char>, bool) {
    match b {
        RuleBehaviour::Annotate { default_setting, adult_content } => (
            true,
            default_setting@,
            adult_content,
        ),
        RuleBehaviour::Moderate { takedown } => (false, Seq::empty(), takedown),
    }
}

/// Two rules agree on everything an event can set.
pub open spec fn same_rule(a: RuleRow, b: RuleRow) -> bool {
    &&& a.name@ == b.name@
    &&& a.description@ == b.description@
    &&& behaviour_view(a.behaviour) == behaviour_view(b.behaviour)
    &&& a.created_at == b.created_at
}

pub fn same_rule_exec(a: &RuleRow, b: &RuleRow) -> (r: bool)
    ensures
        r == same_rule(*a, *b),
{
    let same_behaviour = match (&a.behaviour, &b.behaviour) {
        (
            RuleBehaviour::Annotate { default_setting: d1, adult_content: c1 },
            RuleBehaviour::Annotate { default_setting: d2, adult_content: c2 },
        ) => *d1 == *d2 && *c1 == *c2,
        (RuleBehaviour::Moderate { takedown: t1 }, RuleBehaviour::Moderate { takedown: t2 }) => *t1
            == *t2,
        _ => false,
    };
    a.name == b.name && a.description == b.description && same_behaviour && a.created_at
        == b.created_at
}

} // verus!
