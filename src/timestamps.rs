//! Record timestamps: RFC 3339 date-times as seconds since the Unix epoch.
//! Every table keeps its times in this one unit, so the creation times of
//! posts, favourites, labels and rules compare directly with each other and
//! with the indexing times the store stamps.
use vstd::prelude::*;

verus! {

/// Seconds since the Unix epoch of an RFC 3339 date-time, or `None` where
/// the text is not one.
pub uninterp spec fn rfc3339_epoch_seconds(text: Seq<char>) -> Option<i64>;

/// Relies on `chrono::DateTime::parse_from_rfc3339` followed by
/// `DateTime::timestamp`: the instant the text denotes, offset included, in
/// whole seconds since the epoch.
#[verifier::external_body]
fn parse_rfc3339(text: &str) -> (r: Option<i64>)
    ensures
        r == rfc3339_epoch_seconds(text@),
{
    chrono::DateTime::parse_from_rfc3339(text).ok().map(|d| d.timestamp())
}

/// The creation or expiry time a record states, in seconds since the epoch.
pub fn record_timestamp(text: &str) -> (r: Option<i64>)
    ensures
        r == rfc3339_epoch_seconds(text@),
{
    parse_rfc3339(text)
}

/// An optional stated time: absent stays absent, present must parse.
pub open spec fn optional_timestamp(text: Option<Seq<char>>) -> Result<Option<i64>, ()> {
    match text {
        None => Ok(None),
        Some(t) => match rfc3339_epoch_seconds(t) {
            Some(s) => Ok(Some(s)),
            None => Err(()),
        },
    }
}

/// Reads an optional stated time.
pub fn optional_record_timestamp(text: &Option<String>) -> (r: Result<Option<i64>, ()>)
    ensures
        r == optional_timestamp(
            match text {
                Some(s) => Some(s@),
                None => None,
            },
        ),
{
    match text {
        None => Ok(None),
        Some(t) => match parse_rfc3339(t.as_str()) {
            Some(s) => Ok(Some(s)),
            None => Err(()),
        },
    }
}

} // verus!
