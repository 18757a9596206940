//! The streaming fetch guard: accumulates a remote body chunk by chunk under
//! a hard byte ceiling and, on the ingestion path, rejects unrecognised or
//! disallowed formats as early as the leading bytes allow.
use crate::media::{sniff_check, sniff_media_type, MediaError};
use vstd::prelude::*;

verus! {

/// Largest body accepted from a remote origin: 10 MiB.
pub const MAX_BLOB_SIZE: usize = 10 * 1024 * 1024;

/// Bytes needed before format detection is attempted.
pub const DETECT_MIN: usize = 32;

/// Bytes after which a body whose format is still unknown is abandoned.
pub const DETECT_LIMIT: usize = 32 * 1024;

/// Seconds allowed for a remote media fetch.
pub const FETCH_TIMEOUT_SECS: u64 = 10;

/// Why a guarded fetch was abandoned.
#[derive(Debug, Clone, Copy, PartialEq, Eq, Structural)]
pub enum FetchError {
    /// The body would exceed the byte ceiling.
    TooLarge,
    /// The leading bytes show a format that is not accepted.
    Rejected(MediaError),
    /// No format was recognised within the detection window.
    FormatUndetected,
    /// The remote origin failed, answered with a non-success status or timed out.
    Upstream,
}

/// Accumulates a remote body under a byte ceiling.
pub struct FetchGuard {
    buffer: Vec<u8>,
    ceiling: usize,
    detect: bool,
    detected: bool,
}

/// The detection outcome once `data` has been accumulated: `Ok(false)`
/// while no format is known and the body may still go on, `Ok(true)` once an
/// accepted format is recognised, or the error that ends the fetch.
pub open spec fn detection_step(data: Seq<u8>) -> Result<bool, FetchError> {
    if data.len() < DETECT_MIN {
        Ok(false)
    } else {
        match sniff_check(data) {
            Ok(_) => Ok(true),
            Err(MediaError::UnrecognizedFormat) => if data.len() > DETECT_LIMIT {
                Err(FetchError::FormatUndetected)
            } else {
                Ok(false)
            },
            Err(e) => Err(FetchError::Rejected(e)),
        }
    }
}

impl FetchGuard {
    /// The bytes accumulated so far.
    pub closed spec fn data(&self) -> Seq<u8> {
        self.buffer@
    }

    /// The byte ceiling.
    pub closed spec fn limit(&self) -> usize {
        self.ceiling
    }

    /// Whether format detection runs on this fetch.
    pub closed spec fn detecting(&self) -> bool {
        self.detect
    }

    /// Whether an accepted format has been detected.
    pub closed spec fn format_known(&self) -> bool {
        self.detected
    }

    /// The accumulated bytes never exceed the ceiling.
    pub closed spec fn wf(&self) -> bool {
        self.buffer@.len() <= self.ceiling
    }

    /// A guard for the media-serving path: ceiling only.
    pub fn new(ceiling: usize) -> (r: FetchGuard)
        ensures
            r.wf(),
            r.data() == Seq::<u8>::empty(),
            r.limit() == ceiling,
            !r.detecting(),
            !r.format_known(),
    {
        FetchGuard { buffer: Vec::new(), ceiling, detect: false, detected: false }
    }

    /// A guard for the ingestion path: ceiling and early format detection.
    pub fn with_detection(ceiling: usize) -> (r: FetchGuard)
        ensures
            r.wf(),
            r.data() == Seq::<u8>::empty(),
            r.limit() == ceiling,
            r.detecting(),
            !r.format_known(),
    {
        FetchGuard { buffer: Vec::new(), ceiling, detect: true, detected: false }
    }

    /// Number of bytes accumulated.
    pub fn len(&self) -> (r: usize)
        ensures
            r == self.data().len(),
    {
        self.buffer.len()
    }

    /// Takes the next chunk of the body. A chunk that would carry the body
    /// past the ceiling is refused and nothing of it is kept; otherwise it is
    /// appended, and on a detecting guard the format is checked once enough
    /// bytes are in.
    pub fn push_chunk(&mut self, chunk: &[u8]) -> (r: Result<(), FetchError>)
        requires
            old(self).wf(),
        ensures
            final(self).wf(),
            final(self).limit() == old(self).limit(),
            final(self).detecting() == old(self).detecting(),
            final(self).data().len() <= final(self).limit(),
            old(self).data().len() + chunk@.len() > old(self).limit() ==> r == Err::<(), FetchError>(
                FetchError::TooLarge,
            ) && final(self).data() == old(self).data() && final(self).format_known() == old(
                self,
            ).format_known(),
            old(self).data().len() + chunk@.len() <= old(self).limit() ==> final(self).data()
                == old(self).data() + chunk@,
            old(self).data().len() + chunk@.len() <= old(self).limit() && (!old(self).detecting()
                || old(self).format_known()) ==> r is Ok && final(self).format_known() == old(
                self,
            ).format_known(),
            old(self).data().len() + chunk@.len() <= old(self).limit() && old(self).detecting()
                && !old(self).format_known() ==> match detection_step(old(self).data() + chunk@) {
                Ok(known) => r is Ok && final(self).format_known() == known,
                Err(e) => r == Err::<(), FetchError>(e),
            },
    {
        if chunk.len() > self.ceiling - self.buffer.len() {
            return Err(FetchError::TooLarge);
        }
        let ghost before = self.buffer@;
        let mut i: usize = 0;
        while i < chunk.len()
            invariant
                self.buffer@ == before + chunk@.subrange(0, i as int),
                before.len() + chunk@.len() <= self.ceiling,
                i <= chunk@.len(),
                self.ceiling == old(self).ceiling,
                self.detect == old(self).detect,
                self.detected == old(self).detected,
            decreases chunk@.len() - i,
        {
            self.buffer.push(chunk[i]);
            assert(chunk@.subrange(0, i + 1) == chunk@.subrange(0, i as int).push(chunk@[i as int]));
            i = i + 1;
        }
        assert(chunk@.subrange(0, chunk@.len() as int) == chunk@);
        if !self.detect || self.detected {
            return Ok(());
        }
        if self.buffer.len() < DETECT_MIN {
            return Ok(());
        }
        match sniff_media_type(self.buffer.as_slice()) {
            Ok(_) => {
                self.detected = true;
                Ok(())
            },
            Err(MediaError::UnrecognizedFormat) => {
                if self.buffer.len() > DETECT_LIMIT {
                    Err(FetchError::FormatUndetected)
                } else {
                    Ok(())
                }
            },
            Err(e) => Err(FetchError::Rejected(e)),
        }
    }

    /// Ends the body: yields the accumulated bytes, unless a detecting guard
    /// never recognised an accepted format.
    pub fn finish(self) -> (r: Result<Vec<u8>, FetchError>)
        requires
            self.wf(),
        ensures
            self.detecting() && !self.format_known() ==> r == Err::<Vec<u8>, FetchError>(
                FetchError::FormatUndetected,
            ),
            !(self.detecting() && !self.format_known()) ==> (r matches Ok(b) && b@ == self.data()),
            r matches Ok(b) ==> b@.len() <= self.limit(),
    {
        if self.detect && !self.detected {
            Err(FetchError::FormatUndetected)
        } else {
            Ok(self.buffer)
        }
    }
}

} // verus!
