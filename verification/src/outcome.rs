//! Outcomes of single backend operations and their aggregation into a
//! combined result.
//!
//! The combined status is a pure function of the gathered outcomes: it is
//! `PartialFailure` if and only if at least one constituent outcome failed,
//! and it is computed once, after both sub-operations have completed.

use vstd::prelude::*;

verus! {

/// The kind of failure a backend operation or the startup phase can report.
#[derive(Clone, Copy, Debug, PartialEq, Eq, Structural)]
pub enum ErrorKind {
    /// Backend unreachable, or the attempt timed out.
    ConnectionError,
    /// The backend answered with an error response.
    BackendError,
    /// A response body could not be converted to the expected shape.
    SerializationError,
    /// Missing or invalid startup configuration.
    ConfigError,
}

/// Structured description of a failure, recorded in an outcome instead of
/// being raised.
#[derive(Clone, Debug)]
pub struct ErrorInfo {
    pub kind: ErrorKind,
    pub message: String,
}

/// Error carried up to the handler layer when a request cannot be served.
#[derive(Clone, Debug)]
pub struct AppError {
    pub info: ErrorInfo,
}

impl AppError {
    pub fn new(kind: ErrorKind, message: String) -> (r: AppError)
        ensures
            r.info.kind == kind,
            r.info.message == message,
    {
        AppError { info: ErrorInfo { kind, message } }
    }
}

/// What one backend operation produced: a value on success, an error
/// description on failure. Failures are data, never panics.
#[derive(Clone, Debug)]
pub enum Outcome<T> {
    Success(T),
    Failure(ErrorInfo),
}

/// Aggregate status of a combined result.
#[derive(Clone, Copy, Debug, PartialEq, Eq, Structural)]
pub enum Status {
    AllSucceeded,
    PartialFailure,
}

/// The aggregate of two joined sub-operations: a status, the time the
/// result was assembled, and each backend's value, with `None` standing
/// for the side that failed.
#[derive(Clone, Debug)]
pub struct CombinedResult<A, B> {
    pub status: Status,
    pub time_ms: u64,
    pub doc_value: Option<A>,
    pub search_value: Option<B>,
}

/// The status both coordinators derive: every failure degrades the whole
/// result, and only a fully successful pair counts as success.
pub open spec fn spec_status(doc_ok: bool, search_ok: bool) -> Status {
    if doc_ok && search_ok {
        Status::AllSucceeded
    } else {
        Status::PartialFailure
    }
}

/// The value kept from one outcome: the successful value, or `None`.
pub open spec fn spec_value_of<T>(o: Outcome<T>) -> Option<T> {
    match o {
        Outcome::Success(v) => Some(v),
        Outcome::Failure(_) => None,
    }
}

/// The combined result assembled from two joined outcomes at a given time.
pub open spec fn spec_combine<A, B>(
    doc: Outcome<A>,
    search: Outcome<B>,
    now_ms: u64,
) -> CombinedResult<A, B> {
    CombinedResult {
        status: spec_status(doc is Success, search is Success),
        time_ms: now_ms,
        doc_value: spec_value_of(doc),
        search_value: spec_value_of(search),
    }
}

/// The shared join step of both coordinators: given the two outcomes that
/// the concurrent sub-operations produced, build the combined result.
///
/// The status is `AllSucceeded` exactly when both outcomes succeeded; each
/// side's value is kept on success and replaced by `None` on failure, so a
/// caller can always tell "empty" from "unreachable" via the status alone.
pub fn combine<A, B>(doc: Outcome<A>, search: Outcome<B>, now_ms: u64) -> (r: CombinedResult<
    A,
    B,
>)
    ensures
        r == spec_combine(doc, search, now_ms),
        r.status == Status::AllSucceeded <==> (doc is Success && search is Success),
{
    let doc_ok = match &doc {
        Outcome::Success(_) => true,
        Outcome::Failure(_) => false,
    };
    let search_ok = match &search {
        Outcome::Success(_) => true,
        Outcome::Failure(_) => false,
    };
    let status = if doc_ok && search_ok {
        Status::AllSucceeded
    } else {
        Status::PartialFailure
    };
    let doc_value = match doc {
        Outcome::Success(v) => Some(v),
        Outcome::Failure(_) => None,
    };
    let search_value = match search {
        Outcome::Success(v) => Some(v),
        Outcome::Failure(_) => None,
    };
    CombinedResult { status, time_ms: now_ms, doc_value, search_value }
}

/// A combined result's status is `PartialFailure` if and only if at least
/// one constituent outcome failed: a pure function of the gathered
/// outcomes, never re-derived mid-flight.
pub proof fn lemma_status_iff_any_failure<A, B>(doc: Outcome<A>, search: Outcome<B>, now_ms: u64)
    ensures
        spec_combine(doc, search, now_ms).status == Status::PartialFailure <==> (doc is Failure
            || search is Failure),
{
}

/// A failed document-store side alone already degrades the combined result:
/// the aggregation still returns normally, with `PartialFailure`.
pub proof fn lemma_doc_failure_is_partial<A, B>(doc: Outcome<A>, search: Outcome<B>, now_ms: u64)
    requires
        doc is Failure,
    ensures
        spec_combine(doc, search, now_ms).status == Status::PartialFailure,
        spec_combine(doc, search, now_ms).search_value == spec_value_of(search),
{
}

/// With both backends healthy the combined result is always `AllSucceeded`.
pub proof fn lemma_both_healthy_all_succeeded<A, B>(
    doc: Outcome<A>,
    search: Outcome<B>,
    now_ms: u64,
)
    requires
        doc is Success,
        search is Success,
    ensures
        spec_combine(doc, search, now_ms).status == Status::AllSucceeded,
{
}

/// Reading is idempotent at the aggregation level: two joins over the same
/// pair of outcomes yield the same status and the same values, whatever the
/// two assembly times were.
pub proof fn lemma_combine_idempotent<A, B>(
    doc: Outcome<A>,
    search: Outcome<B>,
    t1: u64,
    t2: u64,
)
    ensures
        spec_combine(doc, search, t1).status == spec_combine(doc, search, t2).status,
        spec_combine(doc, search, t1).doc_value == spec_combine(doc, search, t2).doc_value,
        spec_combine(doc, search, t1).search_value == spec_combine(doc, search, t2).search_value,
{
}

} // verus!
