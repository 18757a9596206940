//! Media type sniffing from magic bytes, the media allow-list and image
//! dimension checks.
use crate::content_id::{integrity, verify, ContentId, ContentIdView, IntegrityError};
use crate::text::same_text;
use vstd::prelude::*;

verus! {

/// Largest accepted width or height of an image, in pixels.
pub const MAX_DIMENSION: usize = 10_000;

/// The media types this service accepts.
#[derive(Debug, Clone, Copy, PartialEq, Eq, Structural)]
pub enum MediaType {
    Gif,
    Webp,
}

/// The MIME name of a media type.
pub open spec fn media_type_name(t: MediaType) -> Seq<char> {
    match t {
        MediaType::Gif => "image/gif"@,
        MediaType::Webp => "image/webp"@,
    }
}

/// The allow-listed media type that a MIME name denotes, if any.
pub open spec fn allowed_media_type(mime: Seq<char>) -> Option<MediaType> {
    if mime == "image/gif"@ {
        Some(MediaType::Gif)
    } else if mime == "image/webp"@ {
        Some(MediaType::Webp)
    } else {
        None
    }
}

impl MediaType {
    pub fn as_str(&self) -> (r: &'static str)
        ensures
            r@ == media_type_name(*self),
    {
        match self {
            MediaType::Gif => "image/gif",
            MediaType::Webp => "image/webp",
        }
    }

    /// The allow-listed media type named by a MIME string.
    pub fn from_mime(mime: &str) -> (r: Option<MediaType>)
        ensures
            r == allowed_media_type(mime@),
    {
        if same_text(mime, "image/gif") {
            Some(MediaType::Gif)
        } else if same_text(mime, "image/webp") {
            Some(MediaType::Webp)
        } else {
            None
        }
    }
}

/// The MIME type that magic-byte detection assigns to a buffer, if any.
pub uninterp spec fn sniffed_mime(data: Seq<u8>) -> Option<Seq<char>>;

/// Width and height read from an image header, if the header is recognised.
pub uninterp spec fn header_dimensions(data: Seq<u8>) -> Option<(usize, usize)>;

/// Relies on `infer::get` and `Type::mime_type`: the MIME type recognised
/// from the buffer's leading magic bytes.
#[verifier::external_body]
fn detect_mime(data: &[u8]) -> (r: Option<String>)
    ensures
        r is Some <==> sniffed_mime(data@) is Some,
        r matches Some(m) ==> sniffed_mime(data@) == Some(m@),
{
    infer::get(data).map(|t| t.mime_type().to_string())
}

/// Relies on `imagesize::blob_size`: the width and height stored in a
/// recognised image header.
#[verifier::external_body]
fn read_dimensions(data: &[u8]) -> (r: Option<(usize, usize)>)
    ensures
        r == header_dimensions(data@),
{
    imagesize::blob_size(data).ok().map(|s| (s.width, s.height))
}

/// Why media was refused.
#[derive(Debug, Clone, Copy, PartialEq, Eq, Structural)]
pub enum MediaError {
    /// The content does not match its identifier.
    Integrity(IntegrityError),
    /// No format was recognised from the leading bytes.
    UnrecognizedFormat,
    /// A format was recognised but it is not on the allow-list.
    DisallowedType,
    /// The image header gives no dimensions.
    UnknownDimensions,
    /// A dimension exceeds the largest accepted size.
    DimensionsTooLarge,
    /// A dimension is zero.
    EmptyDimensions,
}

/// The outcome of sniffing a buffer's media type.
pub open spec fn sniff_check(data: Seq<u8>) -> Result<MediaType, MediaError> {
    match sniffed_mime(data) {
        None => Err(MediaError::UnrecognizedFormat),
        Some(m) => match allowed_media_type(m) {
            None => Err(MediaError::DisallowedType),
            Some(t) => Ok(t),
        },
    }
}

/// Sniffs the media type from the buffer's magic bytes and requires it to be
/// on the allow-list; a caller-declared type plays no part.
pub fn sniff_media_type(data: &[u8]) -> (r: Result<MediaType, MediaError>)
    ensures
        r == sniff_check(data@),
{
    match detect_mime(data) {
        None => Err(MediaError::UnrecognizedFormat),
        Some(m) => match MediaType::from_mime(m.as_str()) {
            None => Err(MediaError::DisallowedType),
            Some(t) => Ok(t),
        },
    }
}

/// The outcome of checking image dimensions.
pub open spec fn dimension_check(width: usize, height: usize) -> Result<(), MediaError> {
    if width > MAX_DIMENSION || height > MAX_DIMENSION {
        Err(MediaError::DimensionsTooLarge)
    } else if width == 0 || height == 0 {
        Err(MediaError::EmptyDimensions)
    } else {
        Ok(())
    }
}

/// Requires both dimensions to be positive and at most the largest size.
pub fn check_dimensions(width: usize, height: usize) -> (r: Result<(), MediaError>)
    ensures
        r == dimension_check(width, height),
{
    if width > MAX_DIMENSION || height > MAX_DIMENSION {
        Err(MediaError::DimensionsTooLarge)
    } else if width == 0 || height == 0 {
        Err(MediaError::EmptyDimensions)
    } else {
        Ok(())
    }
}

/// What is known of verified media.
#[derive(Debug, Clone, Copy, PartialEq, Eq, Structural)]
pub struct MediaInfo {
    pub media_type: MediaType,
    pub width: usize,
    pub height: usize,
}

/// The outcome of the full check of served media: integrity first, then the
/// sniffed type.
pub open spec fn served_media_check(claimed: ContentIdView, data: Seq<u8>) -> Result<
    MediaType,
    MediaError,
> {
    match integrity(claimed, data) {
        Err(e) => Err(MediaError::Integrity(e)),
        Ok(()) => sniff_check(data),
    }
}

/// Checks bytes about to be served: they must match the claimed identifier
/// and sniff as an allowed media type.
pub fn check_served_media(claimed: &ContentId, data: &[u8]) -> (r: Result<MediaType, MediaError>)
    ensures
        r == served_media_check(claimed@, data@),
{
    match verify(claimed, data) {
        Err(e) => Err(MediaError::Integrity(e)),
        Ok(()) => sniff_media_type(data),
    }
}

/// The outcome of the full check of ingested media: integrity, sniffed type,
/// then dimensions.
pub open spec fn ingested_media_check(claimed: ContentIdView, data: Seq<u8>) -> Result<
    MediaInfo,
    MediaError,
> {
    match served_media_check(claimed, data) {
        Err(e) => Err(e),
        Ok(t) => match header_dimensions(data) {
            None => Err(MediaError::UnknownDimensions),
            Some((w, h)) => match dimension_check(w, h) {
                Err(e) => Err(e),
                Ok(()) => Ok(MediaInfo { media_type: t, width: w, height: h }),
            },
        },
    }
}

/// Checks media fetched for an ingested record: it must match the claimed
/// identifier, sniff as an allowed type and have acceptable dimensions.
pub fn check_ingested_media(claimed: &ContentId, data: &[u8]) -> (r: Result<MediaInfo, MediaError>)
    ensures
        r == ingested_media_check(claimed@, data@),
{
    let media_type = match check_served_media(claimed, data) {
        Err(e) => return Err(e),
        Ok(t) => t,
    };
    match read_dimensions(data) {
        None => Err(MediaError::UnknownDimensions),
        Some((width, height)) => match check_dimensions(width, height) {
            Err(e) => Err(e),
            Ok(()) => Ok(MediaInfo { media_type, width, height }),
        },
    }
}

} // verus!
