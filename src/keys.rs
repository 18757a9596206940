//! Identifier syntax (account identifiers and timestamp identifiers) and the
//! `<resource-id>:<content-hash>` record keys of media-bearing records.
use crate::content_id::{decoded_content_id, ContentId};
use crate::text::{find_char, first_index_of, same_text, split_first, split_once};
use vstd::prelude::*;

verus! {

/// Length of a timestamp identifier.
pub const TID_LEN: usize = 13;

/// Longest accepted account identifier.
pub const MAX_DID_LEN: usize = 2048;

/// First character of a timestamp identifier: `2`-`7` or `a`-`j`.
pub open spec fn is_tid_lead(c: char) -> bool {
    (50 <= c as u32 && c as u32 <= 55) || (97 <= c as u32 && c as u32 <= 106)
}

/// Any other character of a timestamp identifier: `2`-`7` or `a`-`z`.
pub open spec fn is_tid_char(c: char) -> bool {
    (50 <= c as u32 && c as u32 <= 55) || (97 <= c as u32 && c as u32 <= 122)
}

/// A timestamp identifier: 13 characters of sortable base32 whose first
/// character keeps the top bit clear.
pub open spec fn is_tid(s: Seq<char>) -> bool {
    s.len() == TID_LEN && is_tid_lead(s[0]) && forall|i: int| 1 <= i < s.len() ==> is_tid_char(
        s[i],
    )
}

/// Whether a string is a timestamp identifier.
pub fn valid_tid(s: &str) -> (r: bool)
    ensures
        r == is_tid(s@),
{
    let n = s.unicode_len();
    if n != TID_LEN {
        return false;
    }
    let c0 = s.get_char(0) as u32;
    if !((50 <= c0 && c0 <= 55) || (97 <= c0 && c0 <= 106)) {
        return false;
    }
    let mut i: usize = 1;
    while i < n
        invariant
            n == s@.len(),
            1 <= i <= n,
            forall|j: int| 1 <= j < i ==> is_tid_char(s@[j]),
        decreases n - i,
    {
        let c = s.get_char(i) as u32;
        if !((50 <= c && c <= 55) || (97 <= c && c <= 122)) {
            return false;
        }
        i = i + 1;
    }
    true
}

/// A lowercase ASCII letter.
pub open spec fn is_lower(c: char) -> bool {
    97 <= c as u32 && c as u32 <= 122
}

/// A character allowed in the method-specific part of an account identifier:
/// ASCII letters, digits and `.`, `_`, `:`, `%`, `-`.
pub open spec fn is_did_char(c: char) -> bool {
    let u = c as u32;
    (65 <= u && u <= 90) || (97 <= u && u <= 122) || (48 <= u && u <= 57) || u == 46 || u == 95
        || u == 58 || u == 37 || u == 45
}

/// An account identifier: `did:`, a lowercase method name, `:`, and a
/// non-empty method-specific part that does not end in `:` or `%`; at most
/// 2048 characters.
pub open spec fn is_did(s: Seq<char>) -> bool {
    &&& s.len() <= MAX_DID_LEN
    &&& s.len() >= 4 && s.subrange(0, 4) == "did:"@
    &&& exists|m: int|
        #![trigger s[m]]
        5 <= m < s.len() - 1 && s[m] == ':' && (forall|i: int| 4 <= i < m ==> is_lower(s[i])) && (
        forall|i: int| m < i < s.len() ==> is_did_char(s[i])) && s.last() != ':' && s.last()
            != '%'
}

/// Whether a string is an account identifier.
pub fn valid_did(s: &str) -> (r: bool)
    ensures
        r == is_did(s@),
{
    proof {
        reveal_strlit("did:");
    }
    let n = s.unicode_len();
    if n > MAX_DID_LEN || n < 4 {
        return false;
    }
    if s.get_char(0) != 'd' || s.get_char(1) != 'i' || s.get_char(2) != 'd' || s.get_char(3)
        != ':' {
        assert(s@.subrange(0, 4)[0] == s@[0]);
        assert(s@.subrange(0, 4)[1] == s@[1]);
        assert(s@.subrange(0, 4)[2] == s@[2]);
        assert(s@.subrange(0, 4)[3] == s@[3]);
        return false;
    }
    assert(s@.subrange(0, 4) == "did:"@);
    // the method name: lowercase letters up to the next ':'
    let mut m: usize = 4;
    while m < n && is_lower_exec(s.get_char(m))
        invariant
            n == s@.len(),
            4 <= m <= n,
            forall|i: int| 4 <= i < m ==> is_lower(s@[i]),
        decreases n - m,
    {
        m = m + 1;
    }
    if m == 4 || m >= n || s.get_char(m) != ':' || m + 1 >= n {
        proof {
            if is_did(s@) {
                let k = choose|k: int|
                    #![trigger s@[k]]
                    5 <= k < s@.len() - 1 && s@[k] == ':' && (forall|i: int|
                        4 <= i < k ==> is_lower(s@[i])) && (forall|i: int|
                        k < i < s@.len() ==> is_did_char(s@[i])) && s@.last() != ':'
                        && s@.last() != '%';
                if k < m {
                    assert(is_lower(s@[k]));
                } else if k > m {
                    assert(is_lower(s@[m as int]));
                }
            }
        }
        return false;
    }
    let last = s.get_char(n - 1);
    if last == ':' || last == '%' {
        return false;
    }
    let mut i: usize = m + 1;
    while i < n
        invariant
            n == s@.len(),
            4 < m < i <= n,
            s@[m as int] == ':',
            forall|j: int| 4 <= j < m ==> is_lower(s@[j]),
            forall|j: int| m < j < i ==> is_did_char(s@[j]),
        decreases n - i,
    {
        if !is_did_char_exec(s.get_char(i)) {
            proof {
                if is_did(s@) {
                    let k = choose|k: int|
                        #![trigger s@[k]]
                        5 <= k < s@.len() - 1 && s@[k] == ':' && (forall|j: int|
                            4 <= j < k ==> is_lower(s@[j])) && (forall|j: int|
                            k < j < s@.len() ==> is_did_char(s@[j])) && s@.last() != ':'
                            && s@.last() != '%';
                    if k < m {
                        assert(is_lower(s@[k]));
                    } else if k > m {
                        assert(is_lower(s@[m as int]));
                    } else {
                        assert(is_did_char(s@[i as int]));
                    }
                }
            }
            return false;
        }
        i = i + 1;
    }
    assert(s@[m as int] == ':');
    true
}

fn is_lower_exec(c: char) -> (r: bool)
    ensures
        r == is_lower(c),
{
    let u = c as u32;
    97 <= u && u <= 122
}

fn is_did_char_exec(c: char) -> (r: bool)
    ensures
        r == is_did_char(c),
{
    let u = c as u32;
    (65 <= u && u <= 90) || (97 <= u && u <= 122) || (48 <= u && u <= 57) || u == 46 || u == 95
        || u == 58 || u == 37 || u == 45
}

/// The two parts of a record key around its first `:`.
pub open spec fn split_key(rkey: Seq<char>) -> Option<(Seq<char>, Seq<char>)> {
    match first_index_of(rkey, ':') {
        Some(i) => Some((rkey.subrange(0, i), rkey.subrange(i + 1, rkey.len() as int))),
        None => None,
    }
}

/// Why a media record key was refused.
#[derive(Debug, Clone, Copy, PartialEq, Eq, Structural)]
pub enum KeyError {
    /// The key has no `:` separating resource id and content hash.
    MissingSeparator,
    /// The resource id is not a timestamp identifier.
    InvalidResourceId,
    /// The content hash does not decode as a content identifier.
    InvalidContentId,
    /// The record declares no decodable media content identifier.
    InvalidDeclaredId,
    /// The key's content hash differs from the record's declared media hash.
    ContentMismatch,
}

/// A parsed `<resource-id>:<content-hash>` key.
#[derive(Debug, Clone)]
pub struct MediaKey {
    pub resource_id: String,
    pub content_text: String,
    pub content_id: ContentId,
}

/// The outcome of parsing a media record key.
pub open spec fn media_key_check(rkey: Seq<char>) -> Result<(), KeyError> {
    match split_key(rkey) {
        None => Err(KeyError::MissingSeparator),
        Some((tid, cid)) => if !is_tid(tid) {
            Err(KeyError::InvalidResourceId)
        } else if decoded_content_id(cid) is None {
            Err(KeyError::InvalidContentId)
        } else {
            Ok(())
        },
    }
}

/// Parses a `<resource-id>:<content-hash>` record key.
pub fn parse_media_key(rkey: &str) -> (r: Result<MediaKey, KeyError>)
    ensures
        r is Ok <==> media_key_check(rkey@) is Ok,
        r matches Err(e) ==> media_key_check(rkey@) == Err::<(), KeyError>(e),
        r matches Ok(k) ==> split_key(rkey@) == Some((k.resource_id@, k.content_text@))
            && decoded_content_id(k.content_text@) == Some(
            (k.content_id.version, k.content_id.codec, k.content_id.hash_code, k.content_id.digest@),
        ),
{
    let n = rkey.unicode_len();
    let sep = match find_char(rkey, ':') {
        Some(i) => i,
        None => return Err(KeyError::MissingSeparator),
    };
    let tid = rkey.substring_char(0, sep);
    let cid_text = rkey.substring_char(sep + 1, n);
    if !valid_tid(tid) {
        return Err(KeyError::InvalidResourceId);
    }
    match ContentId::parse(cid_text) {
        None => Err(KeyError::InvalidContentId),
        Some(content_id) => Ok(
            MediaKey {
                resource_id: String::from_str(tid),
                content_text: String::from_str(cid_text),
                content_id,
            },
        ),
    }
}

/// Whether a media record key binds the record's declared media identifier:
/// the resource id is a timestamp identifier and the key's content hash
/// decodes to the same identifier as the declared one.
pub open spec fn key_binds(rkey: Seq<char>, declared: Seq<char>) -> bool {
    match split_key(rkey) {
        None => false,
        Some((tid, cid)) => is_tid(tid) && decoded_content_id(cid) is Some && decoded_content_id(
            declared,
        ) == decoded_content_id(cid),
    }
}

/// The outcome of checking a media record key against the declared media
/// identifier.
pub open spec fn key_binding_check(rkey: Seq<char>, declared: Seq<char>) -> Result<(), KeyError> {
    match media_key_check(rkey) {
        Err(e) => Err(e),
        Ok(()) => match (decoded_content_id(declared), split_key(rkey)) {
            (None, _) => Err(KeyError::InvalidDeclaredId),
            (Some(d), Some((_, cid))) => if Some(d) == decoded_content_id(cid) {
                Ok(())
            } else {
                Err(KeyError::ContentMismatch)
            },
            (Some(_), None) => Err(KeyError::MissingSeparator),
        },
    }
}

/// Checks that a media-bearing record's key is `<resource-id>:<content-hash>`
/// with the content hash equal to the record's declared media identifier.
pub fn check_key_binding(rkey: &str, declared: &str) -> (r: Result<MediaKey, KeyError>)
    ensures
        r is Ok <==> key_binds(rkey@, declared@),
        r is Ok <==> key_binding_check(rkey@, declared@) is Ok,
        r matches Err(e) ==> key_binding_check(rkey@, declared@) == Err::<(), KeyError>(e),
        r matches Ok(k) ==> split_key(rkey@) == Some((k.resource_id@, k.content_text@))
            && decoded_content_id(declared@) == Some(
            (k.content_id.version, k.content_id.codec, k.content_id.hash_code, k.content_id.digest@),
        ),
{
    let key = match parse_media_key(rkey) {
        Ok(k) => k,
        Err(e) => return Err(e),
    };
    match ContentId::parse(declared) {
        None => Err(KeyError::InvalidDeclaredId),
        Some(d) => if d.same_as(&key.content_id) {
            Ok(key)
        } else {
            Err(KeyError::ContentMismatch)
        },
    }
}

/// The account and record key named by an `at://<did>/<collection>/<rkey>`
/// record URI: three non-empty parts, the last holding no further `/`.
pub open spec fn at_uri_parts(uri: Seq<char>) -> Option<(Seq<char>, Seq<char>)> {
    if uri.len() >= 5 && uri.subrange(0, 5) == "at://"@ {
        match split_first(uri.subrange(5, uri.len() as int), '/') {
            Some((did, tail)) => match split_first(tail, '/') {
                Some((collection, rkey)) => if did.len() > 0 && collection.len() > 0 && rkey.len()
                    > 0 && first_index_of(rkey, '/') is None {
                    Some((did, rkey))
                } else {
                    None
                },
                None => None,
            },
            None => None,
        }
    } else {
        None
    }
}

/// Reads the account and record key of the record a URI names.
pub fn parse_at_uri(uri: &str) -> (r: Option<(String, String)>)
    ensures
        match r {
            Some((did, rkey)) => at_uri_parts(uri@) == Some((did@, rkey@)),
            None => at_uri_parts(uri@) is None,
        },
{
    let n = uri.unicode_len();
    if n < 5 {
        return None;
    }
    if !same_text(uri.substring_char(0, 5), "at://") {
        return None;
    }
    let rest = uri.substring_char(5, n);
    let (did, tail) = match split_once(rest, '/') {
        Some(p) => p,
        None => return None,
    };
    let (collection, rkey) = match split_once(tail, '/') {
        Some(p) => p,
        None => return None,
    };
    if did.unicode_len() == 0 || collection.unicode_len() == 0 || rkey.unicode_len() == 0 {
        return None;
    }
    if find_char(rkey, '/').is_some() {
        return None;
    }
    Some((String::from_str(did), String::from_str(rkey)))
}

} // verus!
