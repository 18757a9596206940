//! Self-describing content identifiers and the integrity check that
//! recomputes an identifier's digest over a byte buffer.
use multihash_codetable::MultihashDigest;
use vstd::prelude::*;

verus! {

/// Multicodec code of the SHA2-256 hash function.
pub const SHA2_256: u64 = 0x12;

/// Length in bytes of a SHA2-256 digest.
pub const SHA2_256_LEN: usize = 32;

/// A content identifier: version, content codec and multihash (hash
/// function code and digest).
#[derive(Debug, Clone, PartialEq, Eq)]
pub struct ContentId {
    pub version: u64,
    pub codec: u64,
    pub hash_code: u64,
    pub digest: Vec<u8>,
}

/// The fields of a content identifier as plain values.
pub struct ContentIdView {
    pub version: u64,
    pub codec: u64,
    pub hash_code: u64,
    pub digest: Seq<u8>,
}

impl View for ContentId {
    type V = ContentIdView;

    open spec fn view(&self) -> ContentIdView {
        ContentIdView {
            version: self.version,
            codec: self.codec,
            hash_code: self.hash_code,
            digest: self.digest@,
        }
    }
}

/// Version, codec, hash code and digest of the identifier that a textual
/// (multibase) identifier decodes to, or `None` where it does not decode.
pub uninterp spec fn decoded_content_id(text: Seq<char>) -> Option<(u64, u64, u64, Seq<u8>)>;

/// The SHA2-256 digest of a byte sequence.
pub uninterp spec fn sha256_of(data: Seq<u8>) -> Seq<u8>;

/// Relies on `cid::Cid::try_from(&str)`: decodes a textual identifier
/// (base58 for version 0, any multibase otherwise); a version 0 identifier
/// always carries the dag-pb codec and a 32-byte SHA2-256 digest, and digests
/// never exceed 64 bytes.
#[verifier::external_body]
fn decode_content_id(text: &str) -> (r: Option<ContentId>)
    ensures
        r is Some <==> decoded_content_id(text@) is Some,
        r matches Some(c) ==> decoded_content_id(text@) == Some(
            (c.version, c.codec, c.hash_code, c.digest@),
        ),
        r matches Some(c) ==> c.version <= 1 && c.digest@.len() <= 64,
        r matches Some(c) ==> (c.version == 0 ==> c.codec == 0x70 && c.hash_code == SHA2_256
            && c.digest@.len() == 32),
{
    match cid::Cid::try_from(text) {
        Ok(c) => Some(
            ContentId {
                version: u64::from(c.version()),
                codec: c.codec(),
                hash_code: c.hash().code(),
                digest: c.hash().digest().to_vec(),
            },
        ),
        Err(_) => None,
    }
}

/// Relies on `multihash_codetable::Code::Sha2_256.digest`: the SHA2-256
/// digest of the input, 32 bytes long.
#[verifier::external_body]
fn sha256_digest(data: &[u8]) -> (r: Vec<u8>)
    ensures
        r@ == sha256_of(data@),
        r@.len() == SHA2_256_LEN,
{
    multihash_codetable::Code::Sha2_256.digest(data).digest().to_vec()
}

impl ContentId {
    /// Decodes a textual identifier.
    pub fn parse(text: &str) -> (r: Option<ContentId>)
        ensures
            r is Some <==> decoded_content_id(text@) is Some,
            r matches Some(c) ==> decoded_content_id(text@) == Some(
                (c.version, c.codec, c.hash_code, c.digest@),
            ),
    {
        decode_content_id(text)
    }

    /// Field-by-field equality.
    pub fn same_as(&self, other: &ContentId) -> (r: bool)
        ensures
            r == same_id(self@, other@),
    {
        if self.version != other.version || self.codec != other.codec || self.hash_code
            != other.hash_code {
            return false;
        }
        same_bytes(&self.digest, &other.digest)
    }
}

/// Two identifiers are the same when all their fields are.
pub open spec fn same_id(a: ContentIdView, b: ContentIdView) -> bool {
    a.version == b.version && a.codec == b.codec && a.hash_code == b.hash_code && a.digest
        == b.digest
}

/// Whether two byte sequences are equal.
pub fn same_bytes(a: &[u8], b: &[u8]) -> (r: bool)
    ensures
        r == (a@ == b@),
{
    if a.len() != b.len() {
        return false;
    }
    let mut i: usize = 0;
    while i < a.len()
        invariant
            a@.len() == b@.len(),
            i <= a@.len(),
            a@.subrange(0, i as int) == b@.subrange(0, i as int),
        decreases a@.len() - i,
    {
        if a[i] != b[i] {
            assert(a@[i as int] != b@[i as int]);
            return false;
        }
        assert(a@.subrange(0, i + 1) == a@.subrange(0, i as int).push(a@[i as int]));
        assert(b@.subrange(0, i + 1) == b@.subrange(0, i as int).push(b@[i as int]));
        i = i + 1;
    }
    assert(a@ == a@.subrange(0, a@.len() as int));
    assert(b@ == b@.subrange(0, b@.len() as int));
    true
}

/// Why content failed its integrity check.
#[derive(Debug, Clone, Copy, PartialEq, Eq, Structural)]
pub enum IntegrityError {
    /// The identifier names a hash function this library does not compute.
    UnsupportedHash,
    /// The recomputed identifier differs from the claimed one.
    DigestMismatch,
}

/// Whether a hash function code is one this library recomputes.
pub open spec fn hash_supported(code: u64) -> bool {
    code == SHA2_256
}

/// The digest of `data` under the hash function named by `code`, where supported.
pub open spec fn recompute(code: u64, data: Seq<u8>) -> Option<Seq<u8>> {
    if hash_supported(code) {
        Some(sha256_of(data))
    } else {
        None
    }
}

/// Outcome of checking a claimed identifier against a recomputed digest.
pub open spec fn digest_check(claimed: ContentIdView, computed: Seq<u8>) -> Result<(), IntegrityError> {
    if !hash_supported(claimed.hash_code) {
        Err(IntegrityError::UnsupportedHash)
    } else if computed == claimed.digest {
        Ok(())
    } else {
        Err(IntegrityError::DigestMismatch)
    }
}

/// Outcome of verifying `data` against a claimed identifier.
pub open spec fn integrity(claimed: ContentIdView, data: Seq<u8>) -> Result<(), IntegrityError> {
    match recompute(claimed.hash_code, data) {
        None => Err(IntegrityError::UnsupportedHash),
        Some(d) => digest_check(claimed, d),
    }
}

/// Compares a claimed identifier with the identifier rebuilt from the same
/// version and codec and a digest computed with the claimed hash function.
pub fn check_digest(claimed: &ContentId, computed: &Vec<u8>) -> (r: Result<(), IntegrityError>)
    ensures
        r == digest_check(claimed@, computed@),
{
    if claimed.hash_code != SHA2_256 {
        return Err(IntegrityError::UnsupportedHash);
    }
    let rebuilt = ContentId {
        version: claimed.version,
        codec: claimed.codec,
        hash_code: SHA2_256,
        digest: computed.clone(),
    };
    if rebuilt.same_as(claimed) {
        Ok(())
    } else {
        Err(IntegrityError::DigestMismatch)
    }
}

/// Verifies `data` against a claimed identifier: the hash function must be
/// supported and the recomputed digest must equal the claimed one.
pub fn verify(claimed: &ContentId, data: &[u8]) -> (r: Result<(), IntegrityError>)
    ensures
        r == integrity(claimed@, data@),
        r is Ok <==> (hash_supported(claimed.hash_code) && recompute(claimed.hash_code, data@)
            == Some(claimed.digest@)),
{
    if claimed.hash_code != SHA2_256 {
        return Err(IntegrityError::UnsupportedHash);
    }
    let computed = sha256_digest(data);
    check_digest(claimed, &computed)
}

/// Verification succeeds exactly when the hash function is supported and the
/// recomputed digest equals the claimed digest; and where a change to the
/// bytes changes their digest, at most one of the two versions verifies.
pub proof fn lemma_integrity(claimed: ContentIdView, data: Seq<u8>, altered: Seq<u8>)
    requires
        sha256_of(data) != sha256_of(altered),
    ensures
        integrity(claimed, data) is Ok <==> (hash_supported(claimed.hash_code) && recompute(
            claimed.hash_code,
            data,
        ) == Some(claimed.digest)),
        !(integrity(claimed, data) is Ok && integrity(claimed, altered) is Ok),
{
}

} // verus!
