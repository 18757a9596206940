//! Media serving: request validation, the remote blob path, the integrity
//! gate on fetched bytes and the mapping of failures to HTTP statuses.
use crate::content_id::{decoded_content_id, hash_supported, sha256_of, ContentIdView};
use crate::fetch::FetchError;
use crate::keys::{is_did, media_key_check, parse_media_key, valid_did, KeyError, MediaKey};
use crate::media::{check_served_media, served_media_check, sniff_check, MediaError, MediaType};
use vstd::prelude::*;

verus! {

/// Seconds a served blob may be cached.
pub const CACHE_MAX_AGE_SECS: u64 = 604800;

/// Why a media request was not served.
#[derive(Debug, Clone, Copy, PartialEq, Eq, Structural)]
pub enum ServeError {
    /// The account identifier is malformed.
    InvalidDid,
    /// The record key is malformed.
    InvalidKey(KeyError),
    /// No post with this key is stored.
    PostNotFound,
    /// The account's origin host is unknown.
    OriginUnknown,
    /// The store could not be queried.
    StoreFailure,
    /// The remote origin could not deliver the blob.
    Upstream(FetchError),
    /// The delivered bytes failed the integrity or type check.
    Integrity(MediaError),
}

/// The HTTP status of a serving failure: 422 for malformed identifiers, 404
/// for unknown records or origins, 500 for the store, 502 for the remote
/// origin and for content that fails verification.
pub open spec fn serve_status(e: ServeError) -> u16 {
    match e {
        ServeError::InvalidDid => 422,
        ServeError::InvalidKey(_) => 422,
        ServeError::PostNotFound => 404,
        ServeError::OriginUnknown => 404,
        ServeError::StoreFailure => 500,
        ServeError::Upstream(_) => 502,
        ServeError::Integrity(_) => 502,
    }
}

impl ServeError {
    pub fn status_code(&self) -> (r: u16)
        ensures
            r == serve_status(*self),
    {
        match self {
            ServeError::InvalidDid => 422,
            ServeError::InvalidKey(_) => 422,
            ServeError::PostNotFound => 404,
            ServeError::OriginUnknown => 404,
            ServeError::StoreFailure => 500,
            ServeError::Upstream(_) => 502,
            ServeError::Integrity(_) => 502,
        }
    }
}

/// The outcome of validating a media request's path.
pub open spec fn request_check(did: Seq<char>, rkey: Seq<char>) -> Result<(), ServeError> {
    if !is_did(did) {
        Err(ServeError::InvalidDid)
    } else {
        match media_key_check(rkey) {
            Err(e) => Err(ServeError::InvalidKey(e)),
            Ok(()) => Ok(()),
        }
    }
}

/// Validates the account identifier and the `<resource-id>:<content-hash>`
/// key of a media request.
pub fn parse_media_request(did: &str, rkey: &str) -> (r: Result<MediaKey, ServeError>)
    ensures
        r is Ok <==> request_check(did@, rkey@) is Ok,
        r matches Err(e) ==> request_check(did@, rkey@) == Err::<(), ServeError>(e),
        r matches Ok(k) ==> crate::keys::split_key(rkey@) == Some(
            (k.resource_id@, k.content_text@),
        ),
        r matches Ok(k) ==> decoded_content_id(k.content_text@) == Some(
            (k.content_id.version, k.content_id.codec, k.content_id.hash_code, k.content_id.digest@),
        ),
{
    if !valid_did(did) {
        return Err(ServeError::InvalidDid);
    }
    match parse_media_key(rkey) {
        Err(e) => Err(ServeError::InvalidKey(e)),
        Ok(k) => Ok(k),
    }
}

/// Path and query of the remote origin's blob endpoint for a blob.
pub open spec fn blob_path_text(did: Seq<char>, cid: Seq<char>) -> Seq<char> {
    "/xrpc/com.atproto.sync.getBlob?did="@ + did + "&cid="@ + cid
}

/// Builds the path and query of the remote origin's blob endpoint.
pub fn blob_path(did: &str, cid: &str) -> (r: String)
    ensures
        r@ == blob_path_text(did@, cid@),
{
    let mut p = String::from_str("/xrpc/com.atproto.sync.getBlob?did=");
    p.append(did);
    p.append("&cid=");
    p.append(cid);
    p
}

/// The value of the content-disposition header for a post's title.
pub open spec fn disposition_text(title: Seq<char>) -> Seq<char> {
    "attachment; filename=\""@ + title + "\""@
}

/// Builds the content-disposition header offering the blob as a download
/// named after the post.
pub fn content_disposition(title: &str) -> (r: String)
    ensures
        r@ == disposition_text(title@),
{
    let mut d = String::from_str("attachment; filename=\"");
    d.append(title);
    d.append("\"");
    d
}

/// Verified bytes ready to be served, with their sniffed media type.
#[derive(Debug)]
pub struct ServedMedia {
    pub media_type: MediaType,
    pub body: Vec<u8>,
}

/// The outcome of the integrity gate on a fetch.
pub open spec fn gate(claimed: ContentIdView, fetched: Result<Seq<u8>, FetchError>) -> Result<
    MediaType,
    ServeError,
> {
    match fetched {
        Err(e) => Err(ServeError::Upstream(e)),
        Ok(b) => match served_media_check(claimed, b) {
            Err(e) => Err(ServeError::Integrity(e)),
            Ok(t) => Ok(t),
        },
    }
}

/// The fetch outcome with its bytes as a sequence.
pub open spec fn fetched_view(fetched: Result<Vec<u8>, FetchError>) -> Result<Seq<u8>, FetchError> {
    match fetched {
        Ok(b) => Ok(b@),
        Err(e) => Err(e),
    }
}

/// Releases fetched bytes only if they match the identifier in the request's
/// key and sniff as an allowed type; the type served is the sniffed one.
pub fn serve_media(key: &MediaKey, fetched: Result<Vec<u8>, FetchError>) -> (r: Result<
    ServedMedia,
    ServeError,
>)
    ensures
        match gate(key.content_id@, fetched_view(fetched)) {
            Ok(t) => (r matches Ok(m) && m.media_type == t && fetched_view(fetched) == Ok::<
                Seq<u8>,
                FetchError,
            >(m.body@)),
            Err(e) => r == Err::<ServedMedia, ServeError>(e),
        },
{
    let bytes = match fetched {
        Err(e) => return Err(ServeError::Upstream(e)),
        Ok(b) => b,
    };
    match check_served_media(&key.content_id, bytes.as_slice()) {
        Err(e) => Err(ServeError::Integrity(e)),
        Ok(t) => Ok(ServedMedia { media_type: t, body: bytes }),
    }
}

/// Fetched bytes are served exactly when the identifier in the request's key
/// names a supported hash, the recomputed digest equals its digest and the
/// bytes sniff as an allowed type; every other fetched body is a gateway
/// failure, and where a changed body has a different digest, at most one of
/// the two is served.
pub proof fn lemma_serving_gate(claimed: ContentIdView, body: Seq<u8>, altered: Seq<u8>)
    requires
        sha256_of(body) != sha256_of(altered),
    ensures
        gate(claimed, Ok(body)) is Ok <==> (hash_supported(claimed.hash_code) && sha256_of(body)
            == claimed.digest && sniff_check(body) is Ok),
        gate(claimed, Ok(body)) matches Err(e) ==> serve_status(e) == 502,
        !(gate(claimed, Ok(body)) is Ok && gate(claimed, Ok(altered)) is Ok),
{
}

/// What a CDN link points at.
#[derive(Debug, Clone)]
pub enum CdnMediaType {
    Avatar { did: String, cid: String },
    PostMedia { did: String, rkey: String, thumbnail: bool },
}

/// The path of a CDN link.
pub open spec fn cdn_path_text(m: CdnMediaType) -> Seq<char> {
    match m {
        CdnMediaType::Avatar { did, cid } => "/avatar/"@ + did@ + "/"@ + cid@,
        CdnMediaType::PostMedia { did, rkey, .. } => "/media/"@ + did@ + "/"@ + rkey@,
    }
}

impl CdnMediaType {
    /// Builds the path of the CDN link, to be joined to the CDN's base URL.
    pub fn path(&self) -> (r: String)
        ensures
            r@ == cdn_path_text(*self),
    {
        match self {
            CdnMediaType::Avatar { did, cid } => {
                let mut p = String::from_str("/avatar/");
                p.append(did.as_str());
                p.append("/");
                p.append(cid.as_str());
                p
            },
            CdnMediaType::PostMedia { did, rkey, .. } => {
                let mut p = String::from_str("/media/");
                p.append(did.as_str());
                p.append("/");
                p.append(rkey.as_str());
                p
            },
        }
    }
}

} // verus!
