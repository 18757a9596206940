//! The relational projection held in memory, the effects an event applies to
//! it, and their meaning.
use crate::rows::{
    same_post, same_post_exec, same_rule, same_rule_exec, AccountRow, FavouriteRow, Keyed,
    LabelRow, PostRow, ProfileRow, RuleRow,
};
use crate::status::IdentityEventStatus;
use vstd::prelude::*;

verus! {

/// Which rows of a keyed table a removal selects.
#[derive(Debug, Clone)]
pub enum Selector {
    /// The row with this key.
    Key(String, String),
    /// Every row whose key begins with this owner.
    Owner(String),
    /// The row with this record key written by this account.
    Authored(String, String),
}

pub open spec fn selects(sel: Selector, k: (Seq<char>, Seq<char>), author: Seq<char>) -> bool {
    match sel {
        Selector::Key(a, b) => k == (a@, b@),
        Selector::Owner(a) => k.0 == a@,
        Selector::Authored(a, b) => author == a@ && k.1 == b@,
    }
}

/// The rows that a removal keeps.
pub open spec fn kept<R: Keyed>(t: Seq<R>, sel: Selector) -> Seq<R> {
    t.filter(|r: R| !selects(sel, r.key(), r.author()))
}

fn selects_exec<R: Keyed>(sel: &Selector, r: &R) -> (b: bool)
    ensures
        b == selects(*sel, r.key(), r.author()),
{
    let (a, b) = r.key_parts();
    match sel {
        Selector::Key(x, y) => *a == *x && *b == *y,
        Selector::Owner(x) => *a == *x,
        Selector::Authored(x, y) => *r.author_part() == *x && *b == *y,
    }
}

/// Removes the selected rows, keeping the order of the others.
fn remove_where<R: Keyed>(t: &mut Vec<R>, sel: &Selector)
    ensures
        final(t)@ == kept(old(t)@, *sel),
{
    let ghost orig = t@;
    let ghost keep = |r: R| !selects(*sel, r.key(), r.author());
    let ghost mut j: int = 0;
    let mut i: usize = 0;
    while i < t.len()
        invariant
            0 <= j <= orig.len(),
            i <= t@.len(),
            keep == (|r: R| !selects(*sel, r.key(), r.author())),
            t@.subrange(0, i as int) == orig.subrange(0, j).filter(keep),
            t@.subrange(i as int, t@.len() as int) == orig.subrange(j, orig.len() as int),
        decreases t@.len() - i,
    {
        let ghost before = t@;
        assert(before.subrange(i as int, before.len() as int).len() == orig.subrange(
            j,
            orig.len() as int,
        ).len());
        assert(j < orig.len());
        assert(orig.subrange(0, j + 1).drop_last() == orig.subrange(0, j));
        assert(orig.subrange(0, j + 1).last() == orig[j]);
        reveal(Seq::filter);
        assert(orig.subrange(0, j + 1).filter(keep) == if keep(orig[j]) {
            orig.subrange(0, j).filter(keep).push(orig[j])
        } else {
            orig.subrange(0, j).filter(keep)
        });
        assert(before[i as int] == before.subrange(i as int, before.len() as int)[0]);
        assert(orig[j] == orig.subrange(j, orig.len() as int)[0]);
        if selects_exec(sel, &t[i]) {
            t.remove(i);
            assert(t@.subrange(0, i as int) == before.subrange(0, i as int));
            assert(t@.subrange(i as int, t@.len() as int) == before.subrange(
                i + 1,
                before.len() as int,
            ));
        } else {
            assert(t@.subrange(0, i + 1) == before.subrange(0, i as int).push(before[i as int]));
            i = i + 1;
        }
        assert(orig.subrange(j + 1, orig.len() as int) == orig.subrange(j, orig.len() as int).subrange(
            1,
            orig.len() - j,
        ));
        proof {
            j = j + 1;
        }
    }
    assert(t@ == t@.subrange(0, i as int));
    assert(orig.subrange(0, j) == orig);
}

/// Position of the first row with key `k`.
#[verifier::opaque]
pub open spec fn first_with_key<R: Keyed>(t: Seq<R>, k: (Seq<char>, Seq<char>)) -> Option<int> {
    if exists|i: int|
        0 <= i < t.len() && t[i].key() == k && forall|j: int| 0 <= j < i ==> t[j].key() != k {
        Some(
            choose|i: int|
                0 <= i < t.len() && t[i].key() == k && forall|j: int| 0 <= j < i ==> t[j].key() != k,
        )
    } else {
        None
    }
}

/// Finds the first row with key `(a, b)`.
fn find_key<R: Keyed>(t: &Vec<R>, a: &String, b: &String) -> (r: Option<usize>)
    ensures
        r matches Some(i) ==> i < t@.len() && first_with_key(t@, (a@, b@)) == Some(i as int),
        r is None ==> first_with_key(t@, (a@, b@)) is None,
{
    proof {
        reveal(first_with_key);
    }
    let ghost k = (a@, b@);
    let mut i: usize = 0;
    while i < t.len()
        invariant
            i <= t@.len(),
            k == (a@, b@),
            forall|j: int| 0 <= j < i ==> t@[j].key() != k,
        decreases t@.len() - i,
    {
        let (x, y) = t[i].key_parts();
        if *x == *a && *y == *b {
            proof {
                reveal(first_with_key);
                assert(t@[i as int].key() == k);
                let c = choose|c: int|
                    0 <= c < t@.len() && t@[c].key() == k && forall|j: int|
                        0 <= j < c ==> t@[j].key() != k;
                if c < i {
                    assert(t@[c].key() != k);
                } else if c > i {
                    assert(t@[i as int].key() != k);
                }
            }
            return Some(i);
        }
        i = i + 1;
    }
    proof {
        reveal(first_with_key);
    }
    None
}

/// Position of the account with identity `did`.
#[verifier::opaque]
pub open spec fn account_index(t: Seq<AccountRow>, did: Seq<char>) -> Option<int> {
    if exists|i: int|
        0 <= i < t.len() && t[i].did@ == did && forall|j: int| 0 <= j < i ==> t[j].did@ != did {
        Some(
            choose|i: int|
                0 <= i < t.len() && t[i].did@ == did && forall|j: int|
                    0 <= j < i ==> t[j].did@ != did,
        )
    } else {
        None
    }
}

fn find_account(t: &Vec<AccountRow>, did: &String) -> (r: Option<usize>)
    ensures
        r matches Some(i) ==> i < t@.len() && account_index(t@, did@) == Some(i as int),
        r is None ==> account_index(t@, did@) is None,
{
    proof {
        reveal(account_index);
    }
    let mut i: usize = 0;
    while i < t.len()
        invariant
            i <= t@.len(),
            forall|j: int| 0 <= j < i ==> t@[j].did@ != did@,
        decreases t@.len() - i,
    {
        if t[i].did == *did {
            proof {
                reveal(account_index);
                let c = choose|c: int|
                    0 <= c < t@.len() && t@[c].did@ == did@ && forall|j: int|
                        0 <= j < c ==> t@[j].did@ != did@;
                if c < i {
                    assert(t@[c].did@ != did@);
                } else if c > i {
                    assert(t@[i as int].did@ != did@);
                }
            }
            return Some(i);
        }
        i = i + 1;
    }
    proof {
        reveal(account_index);
    }
    None
}

/// One change to the projection.
#[derive(Debug, Clone)]
pub enum Effect {
    /// Insert the account or overwrite its handle, origin, activity and
    /// status; the bookmark is kept.
    UpsertAccount {
        did: String,
        handle: String,
        origin_host: Option<String>,
        is_active: bool,
        status: IdentityEventStatus,
    },
    /// Remove the account with its posts, favourites and profile; labels and
    /// rules stay.
    PurgeAccount { did: String },
    /// Set an existing account's progress bookmark.
    SetRev { did: String, rev: String },
    /// Insert the post or overwrite its content.
    UpsertPost(PostRow),
    DeletePost { did: String, rkey: String },
    /// Insert the favourite unless one with its key exists.
    InsertFavourite(FavouriteRow),
    DeleteFavourite { did: String, rkey: String },
    /// Insert the profile or overwrite it.
    UpsertProfile(ProfileRow),
    DeleteProfile { did: String, rkey: String },
    /// Insert the label or overwrite its value, reason, actor and expiry.
    UpsertLabel(LabelRow),
    /// Remove the label with this record key that this account wrote.
    DeleteLabel { actor: String, rkey: String },
    /// Insert the rule or overwrite its content.
    UpsertRule(RuleRow),
    DeleteRule { did: String, rkey: String },
}

/// The tables of the projection.
pub struct StoreView {
    pub accounts: Seq<AccountRow>,
    pub posts: Seq<PostRow>,
    pub favourites: Seq<FavouriteRow>,
    pub profiles: Seq<ProfileRow>,
    pub labels: Seq<LabelRow>,
    pub rules: Seq<RuleRow>,
}

/// The accounts after an identity upsert.
pub open spec fn accounts_upserted(
    t: Seq<AccountRow>,
    did: String,
    handle: String,
    origin_host: Option<String>,
    is_active: bool,
    status: IdentityEventStatus,
) -> Seq<AccountRow> {
    match account_index(t, did@) {
        Some(i) => t.update(
            i,
            AccountRow { handle, origin_host, is_active, status, ..t[i] },
        ),
        None => t.push(AccountRow { did, handle, origin_host, is_active, status, rev: None }),
    }
}

/// The accounts after a bookmark update: an absent account stays absent.
pub open spec fn accounts_with_rev(t: Seq<AccountRow>, did: Seq<char>, rev: String) -> Seq<
    AccountRow,
> {
    match account_index(t, did) {
        Some(i) => t.update(i, AccountRow { rev: Some(rev), ..t[i] }),
        None => t,
    }
}

/// The accounts without `did`.
pub open spec fn accounts_without(t: Seq<AccountRow>, did: Seq<char>) -> Seq<AccountRow> {
    t.filter(other_account(did))
}

/// Holds of every account but `did`.
pub open spec fn other_account(did: Seq<char>) -> spec_fn(AccountRow) -> bool {
    |a: AccountRow| a.did@ != did
}

/// The posts after an upsert: an unchanged post is left as it is, a changed
/// one is overwritten and stamped as edited, a new one is stamped as indexed.
pub open spec fn posts_upserted(t: Seq<PostRow>, row: PostRow, now: i64) -> Seq<PostRow> {
    match first_with_key(t, row.key()) {
        Some(i) => if same_post(t[i], row) {
            t
        } else {
            t.update(i, PostRow { indexed_at: t[i].indexed_at, edited_at: Some(now), ..row })
        },
        None => t.push(PostRow { indexed_at: now, edited_at: None, ..row }),
    }
}

/// The favourites after an insert that does nothing on a duplicate key.
pub open spec fn favourites_inserted(t: Seq<FavouriteRow>, row: FavouriteRow, now: i64) -> Seq<
    FavouriteRow,
> {
    match first_with_key(t, row.key()) {
        Some(_) => t,
        None => t.push(FavouriteRow { ingested_at: now, ..row }),
    }
}

/// The profiles after an upsert: the new profile replaces an existing one.
pub open spec fn profiles_upserted(t: Seq<ProfileRow>, row: ProfileRow) -> Seq<ProfileRow> {
    match first_with_key(t, row.key()) {
        Some(i) => t.update(i, row),
        None => t.push(row),
    }
}

/// The labels after an upsert: an existing label keeps its creation time.
pub open spec fn labels_upserted(t: Seq<LabelRow>, row: LabelRow) -> Seq<LabelRow> {
    match first_with_key(t, row.key()) {
        Some(i) => t.update(i, LabelRow { created_at: t[i].created_at, ..row }),
        None => t.push(row),
    }
}

/// The rules after an upsert, as for posts.
pub open spec fn rules_upserted(t: Seq<RuleRow>, row: RuleRow, now: i64) -> Seq<RuleRow> {
    match first_with_key(t, row.key()) {
        Some(i) => if same_rule(t[i], row) {
            t
        } else {
            t.update(i, RuleRow { indexed_at: t[i].indexed_at, edited_at: Some(now), ..row })
        },
        None => t.push(RuleRow { indexed_at: now, edited_at: None, ..row }),
    }
}

/// The projection after one effect, applied at time `now`.
#[verifier::opaque]
pub open spec fn apply_effect(s: StoreView, e: Effect, now: i64) -> StoreView {
    match e {
        Effect::UpsertAccount { did, handle, origin_host, is_active, status } => StoreView {
            accounts: accounts_upserted(s.accounts, did, handle, origin_host, is_active, status),
            ..s
        },
        Effect::PurgeAccount { did } => StoreView {
            accounts: accounts_without(s.accounts, did@),
            posts: kept(s.posts, Selector::Owner(did)),
            favourites: kept(s.favourites, Selector::Owner(did)),
            profiles: kept(s.profiles, Selector::Owner(did)),
            ..s
        },
        Effect::SetRev { did, rev } => StoreView {
            accounts: accounts_with_rev(s.accounts, did@, rev),
            ..s
        },
        Effect::UpsertPost(row) => StoreView { posts: posts_upserted(s.posts, row, now), ..s },
        Effect::DeletePost { did, rkey } => StoreView {
            posts: kept(s.posts, Selector::Key(did, rkey)),
            ..s
        },
        Effect::InsertFavourite(row) => StoreView {
            favourites: favourites_inserted(s.favourites, row, now),
            ..s
        },
        Effect::DeleteFavourite { did, rkey } => StoreView {
            favourites: kept(s.favourites, Selector::Key(did, rkey)),
            ..s
        },
        Effect::UpsertProfile(row) => StoreView {
            profiles: profiles_upserted(s.profiles, row),
            ..s
        },
        Effect::DeleteProfile { did, rkey } => StoreView {
            profiles: kept(s.profiles, Selector::Key(did, rkey)),
            ..s
        },
        Effect::UpsertLabel(row) => StoreView { labels: labels_upserted(s.labels, row), ..s },
        Effect::DeleteLabel { actor, rkey } => StoreView {
            labels: kept(s.labels, Selector::Authored(actor, rkey)),
            ..s
        },
        Effect::UpsertRule(row) => StoreView { rules: rules_upserted(s.rules, row, now), ..s },
        Effect::DeleteRule { did, rkey } => StoreView {
            rules: kept(s.rules, Selector::Key(did, rkey)),
            ..s
        },
    }
}

/// The projection after a sequence of effects, applied in order.
pub open spec fn apply_effects(s: StoreView, es: Seq<Effect>, now: i64) -> StoreView
    decreases es.len(),
{
    if es.len() == 0 {
        s
    } else {
        apply_effect(apply_effects(s, es.drop_last(), now), es.last(), now)
    }
}

/// The relational projection, held in memory.
pub struct Store {
    accounts: Vec<AccountRow>,
    posts: Vec<PostRow>,
    favourites: Vec<FavouriteRow>,
    profiles: Vec<ProfileRow>,
    labels: Vec<LabelRow>,
    rules: Vec<RuleRow>,
}

impl View for Store {
    type V = StoreView;

    closed spec fn view(&self) -> StoreView {
        StoreView {
            accounts: self.accounts@,
            posts: self.posts@,
            favourites: self.favourites@,
            profiles: self.profiles@,
            labels: self.labels@,
            rules: self.rules@,
        }
    }
}

impl Store {
    /// An empty projection.
    pub fn new() -> (r: Store)
        ensures
            r@.accounts.len() == 0,
            r@.posts.len() == 0,
            r@.favourites.len() == 0,
            r@.profiles.len() == 0,
            r@.labels.len() == 0,
            r@.rules.len() == 0,
            well_formed(r@),
    {
        Store {
            accounts: Vec::new(),
            posts: Vec::new(),
            favourites: Vec::new(),
            profiles: Vec::new(),
            labels: Vec::new(),
            rules: Vec::new(),
        }
    }

    pub fn accounts(&self) -> (r: &Vec<AccountRow>)
        ensures
            r@ == self@.accounts,
    {
        &self.accounts
    }

    pub fn posts(&self) -> (r: &Vec<PostRow>)
        ensures
            r@ == self@.posts,
    {
        &self.posts
    }

    pub fn favourites(&self) -> (r: &Vec<FavouriteRow>)
        ensures
            r@ == self@.favourites,
    {
        &self.favourites
    }

    pub fn profiles(&self) -> (r: &Vec<ProfileRow>)
        ensures
            r@ == self@.profiles,
    {
        &self.profiles
    }

    pub fn labels(&self) -> (r: &Vec<LabelRow>)
        ensures
            r@ == self@.labels,
    {
        &self.labels
    }

    pub fn rules(&self) -> (r: &Vec<RuleRow>)
        ensures
            r@ == self@.rules,
    {
        &self.rules
    }

    /// The account with identity `did`, if any.
    pub fn account(&self, did: &String) -> (r: Option<&AccountRow>)
        ensures
            match account_index(self@.accounts, did@) {
                Some(i) => r == Some(&self@.accounts[i]),
                None => r is None,
            },
    {
        match find_account(&self.accounts, did) {
            Some(i) => Some(&self.accounts[i]),
            None => None,
        }
    }

    /// The post with key `(did, rkey)`, if any.
    pub fn post(&self, did: &String, rkey: &String) -> (r: Option<&PostRow>)
        ensures
            match first_with_key(self@.posts, (did@, rkey@)) {
                Some(i) => r == Some(&self@.posts[i]),
                None => r is None,
            },
    {
        match find_key(&self.posts, did, rkey) {
            Some(i) => Some(&self.posts[i]),
            None => None,
        }
    }

    /// Applies one effect at time `now`.
    pub fn apply(&mut self, e: Effect, now: i64)
        requires
            well_formed(old(self)@),
        ensures
            final(self)@ == apply_effect(old(self)@, e, now),
            well_formed(final(self)@),
    {
        proof {
            lemma_effect_keeps_well_formed(self@, e, now);
        }
        reveal(apply_effect);
        match e {
            Effect::UpsertAccount { did, handle, origin_host, is_active, status } => {
                upsert_account(&mut self.accounts, did, handle, origin_host, is_active, status);
            },
            Effect::PurgeAccount { did } => {
                remove_accounts(&mut self.accounts, &did);
                let sel = Selector::Owner(did);
                remove_where(&mut self.posts, &sel);
                remove_where(&mut self.favourites, &sel);
                remove_where(&mut self.profiles, &sel);
            },
            Effect::SetRev { did, rev } => {
                set_rev(&mut self.accounts, &did, rev);
            },
            Effect::UpsertPost(row) => {
                upsert_post(&mut self.posts, row, now);
            },
            Effect::DeletePost { did, rkey } => {
                remove_where(&mut self.posts, &Selector::Key(did, rkey));
            },
            Effect::InsertFavourite(row) => {
                insert_favourite(&mut self.favourites, row, now);
            },
            Effect::DeleteFavourite { did, rkey } => {
                remove_where(&mut self.favourites, &Selector::Key(did, rkey));
            },
            Effect::UpsertProfile(row) => {
                upsert_profile(&mut self.profiles, row);
            },
            Effect::DeleteProfile { did, rkey } => {
                remove_where(&mut self.profiles, &Selector::Key(did, rkey));
            },
            Effect::UpsertLabel(row) => {
                upsert_label(&mut self.labels, row);
            },
            Effect::DeleteLabel { actor, rkey } => {
                remove_where(&mut self.labels, &Selector::Authored(actor, rkey));
            },
            Effect::UpsertRule(row) => {
                upsert_rule(&mut self.rules, row, now);
            },
            Effect::DeleteRule { did, rkey } => {
                remove_where(&mut self.rules, &Selector::Key(did, rkey));
            },
        }
    }

    /// Applies all effects of one event, in order, as one unit at time `now`.
    pub fn commit(&mut self, effects: Vec<Effect>, now: i64)
        requires
            well_formed(old(self)@),
        ensures
            final(self)@ == apply_effects(old(self)@, effects@, now),
            well_formed(final(self)@),
    {
        let ghost all = effects@;
        let mut rest = effects;
        let ghost mut done: int = 0;
        while rest.len() > 0
            invariant
                0 <= done <= all.len(),
                rest@ == all.subrange(done, all.len() as int),
                self@ == apply_effects(old(self)@, all.subrange(0, done), now),
                well_formed(self@),
            decreases rest@.len(),
        {
            let e = rest.remove(0);
            assert(all.subrange(0, done + 1).drop_last() == all.subrange(0, done));
            assert(e == all[done]);
            self.apply(e, now);
            assert(rest@ == all.subrange(done + 1, all.len() as int));
            proof {
                done = done + 1;
            }
        }
        assert(all.subrange(0, done) == all);
    }
}

#[verifier::rlimit(40)]
fn upsert_account(
    t: &mut Vec<AccountRow>,
    did: String,
    handle: String,
    origin_host: Option<String>,
    is_active: bool,
    status: IdentityEventStatus,
)
    ensures
        final(t)@ == accounts_upserted(old(t)@, did, handle, origin_host, is_active, status),
{
    match find_account(t, &did) {
        Some(i) => {
            let ghost before = t@;
            let old_row = t.remove(i);
            let row = AccountRow { handle, origin_host, is_active, status, ..old_row };
            t.insert(i, row);
            assert(t@ == before.update(i as int, row));
        },
        None => {
            t.push(AccountRow { did, handle, origin_host, is_active, status, rev: None });
        },
    }
}

#[verifier::rlimit(40)]
fn set_rev(t: &mut Vec<AccountRow>, did: &String, rev: String)
    ensures
        final(t)@ == accounts_with_rev(old(t)@, did@, rev),
{
    match find_account(t, did) {
        Some(i) => {
            let ghost before = t@;
            let old_row = t.remove(i);
            let row = AccountRow { rev: Some(rev), ..old_row };
            t.insert(i, row);
            assert(t@ == before.update(i as int, row));
        },
        None => {},
    }
}

fn upsert_post(t: &mut Vec<PostRow>, row: PostRow, now: i64)
    ensures
        final(t)@ == posts_upserted(old(t)@, row, now),
{
    match find_key(t, &row.did, &row.rkey) {
        Some(i) => {
            if !same_post_exec(&t[i], &row) {
                let ghost before = t@;
                let old_row = t.remove(i);
                let new_row = PostRow { indexed_at: old_row.indexed_at, edited_at: Some(now), ..row };
                t.insert(i, new_row);
                assert(t@ == before.update(i as int, new_row));
            }
        },
        None => {
            t.push(PostRow { indexed_at: now, edited_at: None, ..row });
        },
    }
}

fn insert_favourite(t: &mut Vec<FavouriteRow>, row: FavouriteRow, now: i64)
    ensures
        final(t)@ == favourites_inserted(old(t)@, row, now),
{
    match find_key(t, &row.did, &row.rkey) {
        Some(_) => {},
        None => {
            t.push(FavouriteRow { ingested_at: now, ..row });
        },
    }
}

fn upsert_profile(t: &mut Vec<ProfileRow>, row: ProfileRow)
    ensures
        final(t)@ == profiles_upserted(old(t)@, row),
{
    match find_key(t, &row.did, &row.rkey) {
        Some(i) => {
            let ghost before = t@;
            t.remove(i);
            t.insert(i, row);
            assert(t@ == before.update(i as int, row));
        },
        None => {
            t.push(row);
        },
    }
}

fn upsert_label(t: &mut Vec<LabelRow>, row: LabelRow)
    ensures
        final(t)@ == labels_upserted(old(t)@, row),
{
    match find_key(t, &row.subject, &row.rkey) {
        Some(i) => {
            let ghost before = t@;
            let old_row = t.remove(i);
            let new_row = LabelRow { created_at: old_row.created_at, ..row };
            t.insert(i, new_row);
            assert(t@ == before.update(i as int, new_row));
        },
        None => {
            t.push(row);
        },
    }
}

fn upsert_rule(t: &mut Vec<RuleRow>, row: RuleRow, now: i64)
    ensures
        final(t)@ == rules_upserted(old(t)@, row, now),
{
    match find_key(t, &row.did, &row.rkey) {
        Some(i) => {
            if !same_rule_exec(&t[i], &row) {
                let ghost before = t@;
                let old_row = t.remove(i);
                let new_row = RuleRow { indexed_at: old_row.indexed_at, edited_at: Some(now), ..row };
                t.insert(i, new_row);
                assert(t@ == before.update(i as int, new_row));
            }
        },
        None => {
            t.push(RuleRow { indexed_at: now, edited_at: None, ..row });
        },
    }
}

fn remove_accounts(t: &mut Vec<AccountRow>, did: &String)
    ensures
        final(t)@ == accounts_without(old(t)@, did@),
{
    let ghost orig = t@;
    let ghost keep = other_account(did@);
    let ghost mut j: int = 0;
    let mut i: usize = 0;
    while i < t.len()
        invariant
            0 <= j <= orig.len(),
            i <= t@.len(),
            keep == other_account(did@),
            t@.subrange(0, i as int) == orig.subrange(0, j).filter(keep),
            t@.subrange(i as int, t@.len() as int) == orig.subrange(j, orig.len() as int),
        decreases t@.len() - i,
    {
        let ghost before = t@;
        assert(before.subrange(i as int, before.len() as int).len() == orig.subrange(
            j,
            orig.len() as int,
        ).len());
        assert(j < orig.len());
        assert(orig.subrange(0, j + 1).drop_last() == orig.subrange(0, j));
        assert(orig.subrange(0, j + 1).last() == orig[j]);
        reveal(Seq::filter);
        assert(orig.subrange(0, j + 1).filter(keep) == if keep(orig[j]) {
            orig.subrange(0, j).filter(keep).push(orig[j])
        } else {
            orig.subrange(0, j).filter(keep)
        });
        assert(before[i as int] == before.subrange(i as int, before.len() as int)[0]);
        assert(orig[j] == orig.subrange(j, orig.len() as int)[0]);
        if t[i].did == *did {
            t.remove(i);
            assert(t@.subrange(0, i as int) == before.subrange(0, i as int));
            assert(t@.subrange(i as int, t@.len() as int) == before.subrange(
                i + 1,
                before.len() as int,
            ));
        } else {
            assert(t@.subrange(0, i + 1) == before.subrange(0, i as int).push(before[i as int]));
            i = i + 1;
        }
        assert(orig.subrange(j + 1, orig.len() as int) == orig.subrange(j, orig.len() as int).subrange(
            1,
            orig.len() - j,
        ));
        proof {
            j = j + 1;
        }
    }
    assert(t@ == t@.subrange(0, i as int));
    assert(orig.subrange(0, j) == orig);
}

/// Filtering twice by the same predicate is filtering once.
pub proof fn lemma_filter_twice<A>(t: Seq<A>, p: spec_fn(A) -> bool)
    ensures
        t.filter(p).filter(p) == t.filter(p),
    decreases t.len(),
{
    reveal(Seq::filter);
    if t.len() > 0 {
        lemma_filter_twice(t.drop_last(), p);
        let u = t.drop_last().filter(p);
        if p(t.last()) {
            assert(u.push(t.last()).drop_last() == u);
            assert(u.push(t.last()).last() == t.last());
        }
    }
}

/// Removing the same rows twice removes them once.
pub proof fn lemma_kept_twice<R: Keyed>(t: Seq<R>, sel: Selector)
    ensures
        kept(kept(t, sel), sel) == kept(t, sel),
{
    lemma_filter_twice(t, |r: R| !selects(sel, r.key(), r.author()));
}

/// Removing an account twice removes it once.
pub proof fn lemma_accounts_without_twice(t: Seq<AccountRow>, did: Seq<char>)
    ensures
        accounts_without(accounts_without(t, did), did) == accounts_without(t, did),
{
    lemma_filter_twice(t, other_account(did));
}

/// Where some row has key `k`, a first such row exists.
proof fn lemma_first_exists<R: Keyed>(t: Seq<R>, k: (Seq<char>, Seq<char>), i: int)
    requires
        0 <= i < t.len(),
        t[i].key() == k,
    ensures
        first_with_key(t, k) is Some,
    decreases i,
{
    reveal(first_with_key);
    if exists|j: int| 0 <= j < i && t[j].key() == k {
        let j = choose|j: int| 0 <= j < i && t[j].key() == k;
        lemma_first_exists(t, k, j);
    } else {
        assert(0 <= i < t.len() && t[i].key() == k && forall|j: int| 0 <= j < i ==> t[j].key() != k);
    }
}

/// Where some account has identity `did`, a first such account exists.
proof fn lemma_account_exists(t: Seq<AccountRow>, did: Seq<char>, i: int)
    requires
        0 <= i < t.len(),
        t[i].did@ == did,
    ensures
        account_index(t, did) is Some,
    decreases i,
{
    reveal(account_index);
    if exists|j: int| 0 <= j < i && t[j].did@ == did {
        let j = choose|j: int| 0 <= j < i && t[j].did@ == did;
        lemma_account_exists(t, did, j);
    } else {
        assert(0 <= i < t.len() && t[i].did@ == did && forall|j: int| 0 <= j < i ==> t[j].did@ != did);
    }
}

/// After a row with key `k` is written at the first position holding `k`, or
/// appended where none did, that position is where `k` is first found.
proof fn lemma_first_after_write<R: Keyed>(t: Seq<R>, k: (Seq<char>, Seq<char>), row: R)
    requires
        row.key() == k,
    ensures
        match first_with_key(t, k) {
            Some(i) => 0 <= i < t.len() && t[i].key() == k && first_with_key(t.update(i, row), k)
                == Some(i),
            None => first_with_key(t.push(row), k) == Some(t.len() as int),
        },
{
    reveal(first_with_key);
    match first_with_key(t, k) {
        Some(i) => {
            let u = t.update(i, row);
            assert(0 <= i < t.len() && t[i].key() == k && forall|j: int| 0 <= j < i ==> t[j].key() != k);
            assert(u[i].key() == k);
            let c = choose|c: int|
                0 <= c < u.len() && u[c].key() == k && forall|j: int| 0 <= j < c ==> u[j].key() != k;
            assert(0 <= i < u.len() && u[i].key() == k && forall|j: int| 0 <= j < i ==> u[j].key() != k);
            if c < i {
                assert(u[c] == t[c]);
            } else if c > i {
                assert(u[i].key() != k);
            }
        },
        None => {
            let u = t.push(row);
            let n = t.len() as int;
            assert(u[n].key() == k);
            assert(forall|j: int| 0 <= j < n ==> u[j] == t[j]);
            assert forall|j: int| 0 <= j < n implies t[j].key() != k by {
                if t[j].key() == k {
                    lemma_first_exists(t, k, j);
                }
            }
            let c = choose|c: int|
                0 <= c < u.len() && u[c].key() == k && forall|j: int| 0 <= j < c ==> u[j].key() != k;
            assert(0 <= n < u.len() && u[n].key() == k && forall|j: int| 0 <= j < n ==> u[j].key() != k);
            if c < n {
                assert(t[c].key() == k);
            } else if c > n {
                assert(u[n].key() != k);
            }
        },
    }
}

/// Upserting the same post twice is upserting it once.
pub proof fn lemma_posts_upserted_twice(t: Seq<PostRow>, row: PostRow, n1: i64, n2: i64)
    ensures
        posts_upserted(posts_upserted(t, row, n1), row, n2) == posts_upserted(t, row, n1),
{
    let k = row.key();
    match first_with_key(t, k) {
        Some(i) => {
            if !same_post(t[i], row) {
                let w = PostRow { indexed_at: t[i].indexed_at, edited_at: Some(n1), ..row };
                lemma_first_after_write(t, k, w);
                assert(t.update(i, w)[i] == w);
            }
        },
        None => {
            let w = PostRow { indexed_at: n1, edited_at: None, ..row };
            lemma_first_after_write(t, k, w);
            assert(t.push(w)[t.len() as int] == w);
        },
    }
}

/// Inserting the same favourite twice is inserting it once.
pub proof fn lemma_favourites_inserted_twice(t: Seq<FavouriteRow>, row: FavouriteRow, n1: i64, n2: i64)
    ensures
        favourites_inserted(favourites_inserted(t, row, n1), row, n2) == favourites_inserted(t, row, n1),
{
    let k = row.key();
    if first_with_key(t, k) is None {
        let w = FavouriteRow { ingested_at: n1, ..row };
        lemma_first_after_write(t, k, w);
    }
}

/// Upserting the same profile twice is upserting it once.
pub proof fn lemma_profiles_upserted_twice(t: Seq<ProfileRow>, row: ProfileRow)
    ensures
        profiles_upserted(profiles_upserted(t, row), row) == profiles_upserted(t, row),
{
    let k = row.key();
    lemma_first_after_write(t, k, row);
    match first_with_key(t, k) {
        Some(i) => {
            assert(t.update(i, row).update(i, row) == t.update(i, row));
        },
        None => {
            let n = t.len() as int;
            assert(t.push(row).update(n, row) == t.push(row));
        },
    }
}

/// Upserting the same label twice is upserting it once.
pub proof fn lemma_labels_upserted_twice(t: Seq<LabelRow>, row: LabelRow)
    ensures
        labels_upserted(labels_upserted(t, row), row) == labels_upserted(t, row),
{
    let k = row.key();
    match first_with_key(t, k) {
        Some(i) => {
            let w = LabelRow { created_at: t[i].created_at, ..row };
            lemma_first_after_write(t, k, w);
            let u = t.update(i, w);
            assert(u[i] == w);
            assert(u.update(i, LabelRow { created_at: u[i].created_at, ..row }) == u);
        },
        None => {
            lemma_first_after_write(t, k, row);
            let u = t.push(row);
            let n = t.len() as int;
            assert(u[n] == row);
            assert(u.update(n, LabelRow { created_at: u[n].created_at, ..row }) == u);
        },
    }
}

/// Upserting the same rule twice is upserting it once.
pub proof fn lemma_rules_upserted_twice(t: Seq<RuleRow>, row: RuleRow, n1: i64, n2: i64)
    ensures
        rules_upserted(rules_upserted(t, row, n1), row, n2) == rules_upserted(t, row, n1),
{
    let k = row.key();
    match first_with_key(t, k) {
        Some(i) => {
            if !same_rule(t[i], row) {
                let w = RuleRow { indexed_at: t[i].indexed_at, edited_at: Some(n1), ..row };
                lemma_first_after_write(t, k, w);
                assert(t.update(i, w)[i] == w);
            }
        },
        None => {
            let w = RuleRow { indexed_at: n1, edited_at: None, ..row };
            lemma_first_after_write(t, k, w);
            assert(t.push(w)[t.len() as int] == w);
        },
    }
}

/// Setting the same bookmark twice is setting it once.
pub proof fn lemma_accounts_with_rev_twice(t: Seq<AccountRow>, did: Seq<char>, rev: String)
    ensures
        accounts_with_rev(accounts_with_rev(t, did, rev), did, rev) == accounts_with_rev(t, did, rev),
{
    reveal(account_index);
    if let Some(i) = account_index(t, did) {
        let w = AccountRow { rev: Some(rev), ..t[i] };
        let u = t.update(i, w);
        assert(0 <= i < t.len() && t[i].did@ == did && forall|j: int| 0 <= j < i ==> t[j].did@ != did);
        let c = choose|c: int|
            0 <= c < u.len() && u[c].did@ == did && forall|j: int| 0 <= j < c ==> u[j].did@ != did;
        assert(0 <= i < u.len() && u[i].did@ == did && forall|j: int| 0 <= j < i ==> u[j].did@ != did);
        if c < i {
            assert(u[c] == t[c]);
        } else if c > i {
            assert(u[i].did@ != did);
        }
        assert(account_index(u, did) == Some(i));
        assert(u[i] == w);
        assert(u.update(i, AccountRow { rev: Some(rev), ..u[i] }) == u);
    }
}

/// Whether an effect changes one record table and leaves accounts alone.
pub open spec fn is_record_effect(e: Effect) -> bool {
    !(e is UpsertAccount || e is PurgeAccount || e is SetRev)
}

/// An effect on a record table followed by a bookmark update, applied a
/// second time, changes nothing more.
pub proof fn lemma_record_then_rev_twice(s: StoreView, e: Effect, did: String, rev: String, n1: i64, n2: i64)
    requires
        is_record_effect(e),
    ensures
        ({
            let es = seq![e, Effect::SetRev { did, rev }];
            apply_effects(apply_effects(s, es, n1), es, n2) == apply_effects(s, es, n1)
        }),
{
    let r = Effect::SetRev { did, rev };
    let es = seq![e, r];
    assert(es.drop_last() == seq![e]);
    assert(seq![e].drop_last() == Seq::<Effect>::empty());
    let s1 = apply_effect(s, e, n1);
    let s2 = apply_effect(s1, r, n1);
    let s3 = apply_effect(s2, e, n2);
    let s4 = apply_effect(s3, r, n2);
    assert(seq![e].last() == e);
    assert(es.last() == r);
    assert(apply_effects(s, Seq::<Effect>::empty(), n1) == s);
    assert(apply_effects(s2, Seq::<Effect>::empty(), n2) == s2);
    assert(apply_effects(s, seq![e], n1) == s1);
    assert(apply_effects(s, es, n1) == s2);
    assert(apply_effects(s2, seq![e], n2) == s3);
    assert(apply_effects(s2, es, n2) == s4);
    assert(s2 == StoreView { accounts: accounts_with_rev(s1.accounts, did@, rev), ..s1 }) by {
        reveal(apply_effect);
    }
    assert(s4 == StoreView { accounts: accounts_with_rev(s3.accounts, did@, rev), ..s3 }) by {
        reveal(apply_effect);
    }
    lemma_record_effect_twice(s, s2, e, n1, n2);
    lemma_accounts_with_rev_twice(s1.accounts, did@, rev);
}

/// A record-table effect applied again to a projection that differs from the
/// first result only in its accounts gives that projection back.
proof fn lemma_record_effect_twice(s: StoreView, s2: StoreView, e: Effect, n1: i64, n2: i64)
    requires
        is_record_effect(e),
        s2 == (StoreView { accounts: s2.accounts, ..apply_effect(s, e, n1) }),
    ensures
        apply_effect(s2, e, n2) == (StoreView { accounts: s2.accounts, ..apply_effect(s, e, n1) }),
        apply_effect(s, e, n1).accounts == s.accounts,
{
    match e {
        Effect::UpsertPost(row) => {
            reveal(apply_effect);
            lemma_posts_upserted_twice(s.posts, row, n1, n2);
        },
        Effect::DeletePost { did, rkey } => {
            reveal(apply_effect);
            lemma_kept_twice(s.posts, Selector::Key(did, rkey));
        },
        Effect::InsertFavourite(row) => {
            reveal(apply_effect);
            lemma_favourites_inserted_twice(s.favourites, row, n1, n2);
        },
        Effect::DeleteFavourite { did, rkey } => {
            reveal(apply_effect);
            lemma_kept_twice(s.favourites, Selector::Key(did, rkey));
        },
        Effect::UpsertProfile(row) => {
            reveal(apply_effect);
            lemma_profiles_upserted_twice(s.profiles, row);
        },
        Effect::DeleteProfile { did, rkey } => {
            reveal(apply_effect);
            lemma_kept_twice(s.profiles, Selector::Key(did, rkey));
        },
        Effect::UpsertLabel(row) => {
            reveal(apply_effect);
            lemma_labels_upserted_twice(s.labels, row);
        },
        Effect::DeleteLabel { actor, rkey } => {
            reveal(apply_effect);
            lemma_kept_twice(s.labels, Selector::Authored(actor, rkey));
        },
        Effect::UpsertRule(row) => {
            reveal(apply_effect);
            lemma_rules_upserted_twice(s.rules, row, n1, n2);
        },
        Effect::DeleteRule { did, rkey } => {
            reveal(apply_effect);
            lemma_kept_twice(s.rules, Selector::Key(did, rkey));
        },
        _ => {},
    }
}

/// The position of an account holds that account.
proof fn lemma_account_found(t: Seq<AccountRow>, did: Seq<char>)
    ensures
        account_index(t, did) matches Some(i) ==> 0 <= i < t.len() && t[i].did@ == did,
{
    reveal(account_index);
}

/// After an account with identity `did` is written at its position, or
/// appended where there was none, that position is where it is found.
proof fn lemma_account_after_write(t: Seq<AccountRow>, did: Seq<char>, row: AccountRow)
    requires
        row.did@ == did,
    ensures
        match account_index(t, did) {
            Some(i) => 0 <= i < t.len() && t[i].did@ == did && account_index(t.update(i, row), did)
                == Some(i),
            None => account_index(t.push(row), did) == Some(t.len() as int),
        },
{
    reveal(account_index);
    let (u, i) = match account_index(t, did) {
        Some(i) => {
            assert(0 <= i < t.len() && t[i].did@ == did && forall|j: int|
                0 <= j < i ==> t[j].did@ != did);
            (t.update(i, row), i)
        },
        None => {
            assert forall|j: int| 0 <= j < t.len() implies t[j].did@ != did by {
                if t[j].did@ == did {
                    lemma_account_exists(t, did, j);
                }
            }
            (t.push(row), t.len() as int)
        },
    };
    assert(0 <= i < u.len() && u[i].did@ == did && forall|j: int| 0 <= j < i ==> u[j].did@ != did);
    let c = choose|c: int|
        0 <= c < u.len() && u[c].did@ == did && forall|j: int| 0 <= j < c ==> u[j].did@ != did;
    if c < i {
        assert(u[c].did@ != did);
    } else if c > i {
        assert(u[i].did@ != did);
    }
}

/// Upserting the same identity twice is upserting it once.
pub proof fn lemma_accounts_upserted_twice(
    t: Seq<AccountRow>,
    did: String,
    handle: String,
    origin_host: Option<String>,
    is_active: bool,
    status: IdentityEventStatus,
)
    ensures
        accounts_upserted(
            accounts_upserted(t, did, handle, origin_host, is_active, status),
            did,
            handle,
            origin_host,
            is_active,
            status,
        ) == accounts_upserted(t, did, handle, origin_host, is_active, status),
{
    match account_index(t, did@) {
        Some(i) => {
            lemma_account_found(t, did@);
            let w = AccountRow { handle, origin_host, is_active, status, ..t[i] };
            lemma_account_after_write(t, did@, w);
            let u = t.update(i, w);
            assert(u[i] == w);
            assert(u.update(i, AccountRow { handle, origin_host, is_active, status, ..u[i] }) == u);
        },
        None => {
            let w = AccountRow { did, handle, origin_host, is_active, status, rev: None };
            lemma_account_after_write(t, did@, w);
            let u = t.push(w);
            let n = t.len() as int;
            assert(u[n] == w);
            assert(u.update(n, AccountRow { handle, origin_host, is_active, status, ..u[n] }) == u);
        },
    }
}

/// An identity effect applied a second time, at any later time, changes
/// nothing more.
pub proof fn lemma_identity_effect_twice(s: StoreView, e: Effect, n1: i64, n2: i64)
    requires
        e is UpsertAccount || e is PurgeAccount,
    ensures
        apply_effects(apply_effects(s, seq![e], n1), seq![e], n2) == apply_effects(s, seq![e], n1),
{
    assert(seq![e].drop_last() == Seq::<Effect>::empty());
    assert(seq![e].last() == e);
    let s1 = apply_effect(s, e, n1);
    assert(apply_effects(s, Seq::<Effect>::empty(), n1) == s);
    assert(apply_effects(s1, Seq::<Effect>::empty(), n2) == s1);
    assert(apply_effects(s, seq![e], n1) == s1);
    assert(apply_effects(s1, seq![e], n2) == apply_effect(s1, e, n2));
    match e {
        Effect::UpsertAccount { did, handle, origin_host, is_active, status } => {
            assert(s1 == (StoreView {
                accounts: accounts_upserted(s.accounts, did, handle, origin_host, is_active, status),
                ..s
            })) by {
                reveal(apply_effect);
            }
            assert(apply_effect(s1, e, n2) == (StoreView {
                accounts: accounts_upserted(s1.accounts, did, handle, origin_host, is_active, status),
                ..s1
            })) by {
                reveal(apply_effect);
            }
            lemma_accounts_upserted_twice(s.accounts, did, handle, origin_host, is_active, status);
        },
        Effect::PurgeAccount { did } => {
            assert(s1 == (StoreView {
                accounts: accounts_without(s.accounts, did@),
                posts: kept(s.posts, Selector::Owner(did)),
                favourites: kept(s.favourites, Selector::Owner(did)),
                profiles: kept(s.profiles, Selector::Owner(did)),
                ..s
            })) by {
                reveal(apply_effect);
            }
            assert(apply_effect(s1, e, n2) == (StoreView {
                accounts: accounts_without(s1.accounts, did@),
                posts: kept(s1.posts, Selector::Owner(did)),
                favourites: kept(s1.favourites, Selector::Owner(did)),
                profiles: kept(s1.profiles, Selector::Owner(did)),
                ..s1
            })) by {
                reveal(apply_effect);
            }
            lemma_accounts_without_twice(s.accounts, did@);
            lemma_kept_twice(s.posts, Selector::Owner(did));
            lemma_kept_twice(s.favourites, Selector::Owner(did));
            lemma_kept_twice(s.profiles, Selector::Owner(did));
        },
        _ => {},
    }
}

/// No two rows of a keyed table share a key.
pub open spec fn keys_unique<R: Keyed>(t: Seq<R>) -> bool {
    forall|i: int, j: int|
        #![trigger t[i], t[j]]
        0 <= i < t.len() && 0 <= j < t.len() && i != j ==> t[i].key() != t[j].key()
}

/// No two accounts share an identity.
pub open spec fn dids_unique(t: Seq<AccountRow>) -> bool {
    forall|i: int, j: int|
        #![trigger t[i], t[j]]
        0 <= i < t.len() && 0 <= j < t.len() && i != j ==> t[i].did@ != t[j].did@
}

/// Every table is unique on its natural key.
pub open spec fn well_formed(s: StoreView) -> bool {
    &&& dids_unique(s.accounts)
    &&& keys_unique(s.posts)
    &&& keys_unique(s.favourites)
    &&& keys_unique(s.profiles)
    &&& keys_unique(s.labels)
    &&& keys_unique(s.rules)
}

/// Removing rows keeps keys unique.
proof fn lemma_filter_keys_unique<R: Keyed>(t: Seq<R>, p: spec_fn(R) -> bool)
    requires
        keys_unique(t),
    ensures
        keys_unique(t.filter(p)),
    decreases t.len(),
{
    reveal(Seq::filter);
    if t.len() > 0 {
        let u = t.drop_last();
        assert forall|i: int, j: int| 0 <= i < u.len() && 0 <= j < u.len() && i != j implies u[i].key()
            != u[j].key() by {
            assert(u[i] == t[i] && u[j] == t[j]);
        }
        lemma_filter_keys_unique(u, p);
        let f = u.filter(p);
        if p(t.last()) {
            let n = t.len() - 1;
            assert forall|i: int| 0 <= i < f.len() implies f[i].key() != t.last().key() by {
                assert(f.contains(f[i]));
                u.lemma_filter_contains_rev(p, f[i]);
                let j = choose|j: int| 0 <= j < u.len() && u[j] == f[i];
                assert(t[j] == u[j]);
                assert(t[n] == t.last());
            }
            let g = f.push(t.last());
            assert forall|i: int, j: int| 0 <= i < g.len() && 0 <= j < g.len() && i != j implies g[i].key()
                != g[j].key() by {
                if i < f.len() && j < f.len() {
                    assert(g[i] == f[i] && g[j] == f[j]);
                } else if i < f.len() {
                    assert(g[i] == f[i]);
                } else {
                    assert(g[j] == f[j]);
                }
            }
        }
    }
}

/// Removing accounts keeps identities unique.
proof fn lemma_filter_dids_unique(t: Seq<AccountRow>, p: spec_fn(AccountRow) -> bool)
    requires
        dids_unique(t),
    ensures
        dids_unique(t.filter(p)),
    decreases t.len(),
{
    reveal(Seq::filter);
    if t.len() > 0 {
        let u = t.drop_last();
        assert forall|i: int, j: int| 0 <= i < u.len() && 0 <= j < u.len() && i != j implies u[i].did@
            != u[j].did@ by {
            assert(u[i] == t[i] && u[j] == t[j]);
        }
        lemma_filter_dids_unique(u, p);
        let f = u.filter(p);
        if p(t.last()) {
            let n = t.len() - 1;
            assert forall|i: int| 0 <= i < f.len() implies f[i].did@ != t.last().did@ by {
                assert(f.contains(f[i]));
                u.lemma_filter_contains_rev(p, f[i]);
                let j = choose|j: int| 0 <= j < u.len() && u[j] == f[i];
                assert(t[j] == u[j]);
                assert(t[n] == t.last());
            }
            let g = f.push(t.last());
            assert forall|i: int, j: int| 0 <= i < g.len() && 0 <= j < g.len() && i != j implies g[i].did@
                != g[j].did@ by {
                if i < f.len() && j < f.len() {
                    assert(g[i] == f[i] && g[j] == f[j]);
                } else if i < f.len() {
                    assert(g[i] == f[i]);
                } else {
                    assert(g[j] == f[j]);
                }
            }
        }
    }
}

/// Writing a row at the first position of its key, or appending it where
/// the key is absent, keeps keys unique.
proof fn lemma_write_keys_unique<R: Keyed>(t: Seq<R>, k: (Seq<char>, Seq<char>), row: R)
    requires
        keys_unique(t),
        row.key() == k,
    ensures
        match first_with_key(t, k) {
            Some(i) => keys_unique(t.update(i, row)),
            None => keys_unique(t.push(row)),
        },
{
    lemma_first_after_write(t, k, row);
    match first_with_key(t, k) {
        Some(i) => {
            let u = t.update(i, row);
            assert forall|a: int, b: int| 0 <= a < u.len() && 0 <= b < u.len() && a != b implies u[a].key()
                != u[b].key() by {
                if a == i {
                    assert(u[b] == t[b]);
                } else if b == i {
                    assert(u[a] == t[a]);
                } else {
                    assert(u[a] == t[a] && u[b] == t[b]);
                }
            }
        },
        None => {
            assert forall|j: int| 0 <= j < t.len() implies t[j].key() != k by {
                if t[j].key() == k {
                    lemma_first_exists(t, k, j);
                }
            }
            let u = t.push(row);
            assert forall|a: int, b: int| 0 <= a < u.len() && 0 <= b < u.len() && a != b implies u[a].key()
                != u[b].key() by {
                if a < t.len() && b < t.len() {
                    assert(u[a] == t[a] && u[b] == t[b]);
                } else if a < t.len() {
                    assert(u[a] == t[a]);
                } else {
                    assert(u[b] == t[b]);
                }
            }
        },
    }
}

/// Writing an account at the position of its identity, or appending it where
/// the identity is absent, keeps identities unique.
proof fn lemma_write_dids_unique(t: Seq<AccountRow>, did: Seq<char>, row: AccountRow)
    requires
        dids_unique(t),
        row.did@ == did,
    ensures
        match account_index(t, did) {
            Some(i) => dids_unique(t.update(i, row)),
            None => dids_unique(t.push(row)),
        },
{
    lemma_account_after_write(t, did, row);
    match account_index(t, did) {
        Some(i) => {
            let u = t.update(i, row);
            assert forall|a: int, b: int| 0 <= a < u.len() && 0 <= b < u.len() && a != b implies u[a].did@
                != u[b].did@ by {
                if a == i {
                    assert(u[b] == t[b]);
                } else if b == i {
                    assert(u[a] == t[a]);
                } else {
                    assert(u[a] == t[a] && u[b] == t[b]);
                }
            }
        },
        None => {
            assert forall|j: int| 0 <= j < t.len() implies t[j].did@ != did by {
                if t[j].did@ == did {
                    lemma_account_exists(t, did, j);
                }
            }
            let u = t.push(row);
            assert forall|a: int, b: int| 0 <= a < u.len() && 0 <= b < u.len() && a != b implies u[a].did@
                != u[b].did@ by {
                if a < t.len() && b < t.len() {
                    assert(u[a] == t[a] && u[b] == t[b]);
                } else if a < t.len() {
                    assert(u[a] == t[a]);
                } else {
                    assert(u[b] == t[b]);
                }
            }
        },
    }
}

/// Every effect keeps every table unique on its natural key.
pub proof fn lemma_effect_keeps_well_formed(s: StoreView, e: Effect, now: i64)
    requires
        well_formed(s),
    ensures
        well_formed(apply_effect(s, e, now)),
{
    match e {
        Effect::UpsertAccount { did, handle, origin_host, is_active, status } => {
            reveal(apply_effect);
            lemma_account_found(s.accounts, did@);
            match account_index(s.accounts, did@) {
                Some(i) => lemma_write_dids_unique(
                    s.accounts,
                    did@,
                    AccountRow { handle, origin_host, is_active, status, ..s.accounts[i] },
                ),
                None => lemma_write_dids_unique(
                    s.accounts,
                    did@,
                    AccountRow { did, handle, origin_host, is_active, status, rev: None },
                ),
            }
        },
        Effect::PurgeAccount { did } => {
            reveal(apply_effect);
            lemma_filter_dids_unique(s.accounts, other_account(did@));
            let sel = Selector::Owner(did);
            lemma_filter_keys_unique(s.posts, |r: PostRow| !selects(sel, r.key(), r.author()));
            lemma_filter_keys_unique(s.favourites, |r: FavouriteRow| !selects(sel, r.key(), r.author()));
            lemma_filter_keys_unique(s.profiles, |r: ProfileRow| !selects(sel, r.key(), r.author()));
        },
        Effect::SetRev { did, rev } => {
            reveal(apply_effect);
            lemma_account_found(s.accounts, did@);
            if let Some(i) = account_index(s.accounts, did@) {
                lemma_write_dids_unique(s.accounts, did@, AccountRow { rev: Some(rev), ..s.accounts[i] });
            }
        },
        Effect::UpsertPost(row) => {
            reveal(apply_effect);
            let k = row.key();
            lemma_first_after_write(s.posts, k, row);
            match first_with_key(s.posts, k) {
                Some(i) => lemma_write_keys_unique(
                    s.posts,
                    k,
                    PostRow { indexed_at: s.posts[i].indexed_at, edited_at: Some(now), ..row },
                ),
                None => lemma_write_keys_unique(s.posts, k, PostRow { indexed_at: now, edited_at: None, ..row }),
            }
        },
        Effect::DeletePost { did, rkey } => {
            reveal(apply_effect);
            let sel = Selector::Key(did, rkey);
            lemma_filter_keys_unique(s.posts, |r: PostRow| !selects(sel, r.key(), r.author()));
        },
        Effect::InsertFavourite(row) => {
            reveal(apply_effect);
            lemma_write_keys_unique(s.favourites, row.key(), FavouriteRow { ingested_at: now, ..row });
        },
        Effect::DeleteFavourite { did, rkey } => {
            reveal(apply_effect);
            let sel = Selector::Key(did, rkey);
            lemma_filter_keys_unique(s.favourites, |r: FavouriteRow| !selects(sel, r.key(), r.author()));
        },
        Effect::UpsertProfile(row) => {
            reveal(apply_effect);
            lemma_write_keys_unique(s.profiles, row.key(), row);
        },
        Effect::DeleteProfile { did, rkey } => {
            reveal(apply_effect);
            let sel = Selector::Key(did, rkey);
            lemma_filter_keys_unique(s.profiles, |r: ProfileRow| !selects(sel, r.key(), r.author()));
        },
        Effect::UpsertLabel(row) => {
            reveal(apply_effect);
            let k = row.key();
            lemma_first_after_write(s.labels, k, row);
            match first_with_key(s.labels, k) {
                Some(i) => lemma_write_keys_unique(
                    s.labels,
                    k,
                    LabelRow { created_at: s.labels[i].created_at, ..row },
                ),
                None => lemma_write_keys_unique(s.labels, k, row),
            }
        },
        Effect::DeleteLabel { actor, rkey } => {
            reveal(apply_effect);
            let sel = Selector::Authored(actor, rkey);
            lemma_filter_keys_unique(s.labels, |r: LabelRow| !selects(sel, r.key(), r.author()));
        },
        Effect::UpsertRule(row) => {
            reveal(apply_effect);
            let k = row.key();
            lemma_first_after_write(s.rules, k, row);
            match first_with_key(s.rules, k) {
                Some(i) => lemma_write_keys_unique(
                    s.rules,
                    k,
                    RuleRow { indexed_at: s.rules[i].indexed_at, edited_at: Some(now), ..row },
                ),
                None => lemma_write_keys_unique(s.rules, k, RuleRow { indexed_at: now, edited_at: None, ..row }),
            }
        },
        Effect::DeleteRule { did, rkey } => {
            reveal(apply_effect);
            let sel = Selector::Key(did, rkey);
            lemma_filter_keys_unique(s.rules, |r: RuleRow| !selects(sel, r.key(), r.author()));
        },
    }
}

/// A post upsert followed by a bookmark update leaves exactly one row under
/// the post's key, holding the post's title, media identifier and media type.
pub proof fn lemma_post_then_rev_one_row(s: StoreView, row: PostRow, did: String, rev: String, now: i64)
    requires
        well_formed(s),
    ensures
        ({
            let t = apply_effects(s, seq![Effect::UpsertPost(row), Effect::SetRev { did, rev }], now);
            &&& well_formed(t)
            &&& exists|i: int|
                #![trigger t.posts[i]]
                0 <= i < t.posts.len() && t.posts[i].key() == row.key() && t.posts[i].title@
                    == row.title@ && t.posts[i].media_hash@ == row.media_hash@
                    && t.posts[i].media_mime == row.media_mime && forall|j: int|
                    0 <= j < t.posts.len() && t.posts[j].key() == row.key() ==> j == i
        }),
{
    let e = Effect::UpsertPost(row);
    let r = Effect::SetRev { did, rev };
    let es = seq![e, r];
    assert(es.drop_last() == seq![e]);
    assert(seq![e].drop_last() == Seq::<Effect>::empty());
    assert(seq![e].last() == e);
    assert(es.last() == r);
    let s1 = apply_effect(s, e, now);
    let s2 = apply_effect(s1, r, now);
    assert(apply_effects(s, Seq::<Effect>::empty(), now) == s);
    assert(apply_effects(s, seq![e], now) == s1);
    assert(apply_effects(s, es, now) == s2);
    lemma_effect_keeps_well_formed(s, e, now);
    lemma_effect_keeps_well_formed(s1, r, now);
    assert(s1.posts == posts_upserted(s.posts, row, now)) by {
        reveal(apply_effect);
    }
    assert(s2.posts == s1.posts) by {
        reveal(apply_effect);
    }
    let k = row.key();
    lemma_first_after_write(s.posts, k, row);
    let i = match first_with_key(s.posts, k) {
        Some(i) => {
            if !same_post(s.posts[i], row) {
                let w = PostRow { indexed_at: s.posts[i].indexed_at, edited_at: Some(now), ..row };
                assert(s.posts.update(i, w)[i] == w);
            }
            i
        },
        None => {
            let w = PostRow { indexed_at: now, edited_at: None, ..row };
            assert(s.posts.push(w)[s.posts.len() as int] == w);
            s.posts.len() as int
        },
    };
    let t = s2;
    assert(0 <= i < t.posts.len() && t.posts[i].key() == row.key());
    assert(forall|j: int| 0 <= j < t.posts.len() && t.posts[j].key() == row.key() ==> j == i);
}

} // verus!
