//! The two coordinators' join steps and the mapping from a combined status
//! to an HTTP status code.
//!
//! Both coordinators share one algorithm: launch the two backend operations
//! independently, wait for both regardless of individual failure, and derive
//! the aggregate from the gathered outcomes with [`crate::outcome::combine`].
//! The launching and waiting is asynchronous I/O and lives in the binary;
//! what stands here is everything the join decides.

use vstd::prelude::*;
use crate::outcome::{CombinedResult, Outcome, Status, spec_combine, spec_status, spec_value_of};
use crate::record::Record;

verus! {

/// Response envelope of an insert: only the assembly time, as a
/// millisecond epoch integer.
#[derive(Clone, Copy, Debug, PartialEq, Eq, Structural)]
pub struct InsertResponse {
    pub time_ms: u64,
}

/// Response envelope of a single-backend read: the assembly time and the
/// data that came back, `None` when that backend failed.
#[derive(Clone, Debug, PartialEq)]
pub struct ReadResponse<T> {
    pub time_ms: u64,
    pub data: Option<T>,
}

/// Response envelope of the configuration echo: the assembly time and the
/// effective startup configuration.
#[derive(Clone, Debug, PartialEq)]
pub struct RootResponse {
    pub time_ms: u64,
    pub config: crate::config::Args,
}

/// HTTP status for a created resource.
pub const STATUS_CREATED: u16 = 201;

/// HTTP status for a server-side failure.
pub const STATUS_SERVER_ERROR: u16 = 500;

/// The transport-level code a combined status maps to: "created" when all
/// sub-operations succeeded, "server error" otherwise.
pub open spec fn spec_http_status(s: Status) -> u16 {
    match s {
        Status::AllSucceeded => STATUS_CREATED,
        Status::PartialFailure => STATUS_SERVER_ERROR,
    }
}

/// Maps a combined status to its HTTP status code.
pub fn http_status(s: Status) -> (c: u16)
    ensures
        c == spec_http_status(s),
{
    match s {
        Status::AllSucceeded => STATUS_CREATED,
        Status::PartialFailure => STATUS_SERVER_ERROR,
    }
}

/// Join step of the dual-write coordinator. `doc_ack` and `search_ack` are
/// the outcomes of the two concurrent write attempts (each carrying the
/// backend's raw acknowledgement bytes); the result is `AllSucceeded`
/// exactly when both writes succeeded, and carries whatever each side
/// acknowledged.
pub fn write_result(doc_ack: Outcome<Vec<u8>>, search_ack: Outcome<Vec<u8>>, now_ms: u64) -> (r:
    CombinedResult<Vec<u8>, Vec<u8>>)
    ensures
        r == spec_combine(doc_ack, search_ack, now_ms),
        r.status == spec_status(doc_ack is Success, search_ack is Success),
{
    crate::outcome::combine(doc_ack, search_ack, now_ms)
}

/// Join step of the dual-read coordinator. `docs` is the outcome of the
/// most-recent-records query against the document store, `search` the
/// outcome of the default query against the search index (its raw response
/// bytes). A failed side's value defaults to `None` while the other side's
/// real data is still returned, so only the status tells "both empty" from
/// "one side unreachable".
pub fn read_result(docs: Outcome<Vec<Record>>, search: Outcome<Vec<u8>>, now_ms: u64) -> (r:
    CombinedResult<Vec<Record>, Vec<u8>>)
    ensures
        r == spec_combine(docs, search, now_ms),
        r.doc_value == spec_value_of(docs),
        r.search_value == spec_value_of(search),
{
    crate::outcome::combine(docs, search, now_ms)
}

/// The code a single-backend operation maps to: "created" on success,
/// "server error" on failure.
pub open spec fn spec_single_status(ok: bool) -> u16 {
    if ok {
        STATUS_CREATED
    } else {
        STATUS_SERVER_ERROR
    }
}

/// Decision step of a single-backend insert endpoint: the status code
/// reflects the one outcome, and the body carries only the time.
pub fn single_write_result<T>(o: &Outcome<T>, now_ms: u64) -> (r: (u16, InsertResponse))
    ensures
        r.0 == spec_single_status(*o is Success),
        r.1.time_ms == now_ms,
{
    let code = match o {
        Outcome::Success(_) => STATUS_CREATED,
        Outcome::Failure(_) => STATUS_SERVER_ERROR,
    };
    (code, InsertResponse { time_ms: now_ms })
}

/// Decision step of a single-backend read endpoint: the status code
/// reflects the one outcome, and the body carries the data that came
/// back, with `None` standing for the failed side.
pub fn single_read_result<T>(o: Outcome<T>, now_ms: u64) -> (r: (u16, ReadResponse<T>))
    ensures
        r.0 == spec_single_status(o is Success),
        r.1.time_ms == now_ms,
        r.1.data == spec_value_of(o),
{
    let (code, data) = match o {
        Outcome::Success(v) => (STATUS_CREATED, Some(v)),
        Outcome::Failure(_) => (STATUS_SERVER_ERROR, None),
    };
    (code, ReadResponse { time_ms: now_ms, data })
}

} // verus!
