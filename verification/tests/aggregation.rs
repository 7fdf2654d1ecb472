use dualstore::coordinator::{http_status, read_result, write_result, STATUS_CREATED, STATUS_SERVER_ERROR};
use dualstore::outcome::{combine, ErrorInfo, ErrorKind, Outcome, Status};
use dualstore::record::Record;

fn conn_err() -> ErrorInfo {
    ErrorInfo { kind: ErrorKind::ConnectionError, message: String::from("connection refused") }
}

#[test]
fn both_healthy_is_all_succeeded() {
    let doc: Outcome<Vec<u8>> = Outcome::Success(b"ack-doc".to_vec());
    let search: Outcome<Vec<u8>> = Outcome::Success(b"ack-search".to_vec());
    let r = write_result(doc, search, 1700000000000);
    assert_eq!(r.status, Status::AllSucceeded);
    assert_eq!(r.time_ms, 1700000000000);
    assert_eq!(r.doc_value, Some(b"ack-doc".to_vec()));
    assert_eq!(r.search_value, Some(b"ack-search".to_vec()));
    assert_eq!(http_status(r.status), STATUS_CREATED);
}

#[test]
fn doc_store_unreachable_is_partial_failure() {
    let doc: Outcome<Vec<u8>> = Outcome::Failure(conn_err());
    let search: Outcome<Vec<u8>> = Outcome::Success(b"ok".to_vec());
    let r = write_result(doc, search, 42);
    assert_eq!(r.status, Status::PartialFailure);
    assert_eq!(r.doc_value, None);
    assert_eq!(r.search_value, Some(b"ok".to_vec()));
    assert_eq!(http_status(r.status), STATUS_SERVER_ERROR);
}

#[test]
fn search_index_unreachable_is_partial_failure() {
    let doc: Outcome<Vec<u8>> = Outcome::Success(b"ok".to_vec());
    let search: Outcome<Vec<u8>> = Outcome::Failure(conn_err());
    let r = write_result(doc, search, 42);
    assert_eq!(r.status, Status::PartialFailure);
    assert_eq!(r.doc_value, Some(b"ok".to_vec()));
    assert_eq!(r.search_value, None);
}

#[test]
fn both_failed_is_partial_failure() {
    let doc: Outcome<u32> = Outcome::Failure(conn_err());
    let search: Outcome<u32> = Outcome::Failure(ErrorInfo {
        kind: ErrorKind::SerializationError,
        message: String::from("body was not valid json"),
    });
    let r = combine(doc, search, 0);
    assert_eq!(r.status, Status::PartialFailure);
    assert_eq!(r.doc_value, None);
    assert_eq!(r.search_value, None);
}

#[test]
fn read_twice_same_outcomes_is_identical() {
    let recs = vec![Record { id: b"id-1".to_vec(), payload: b"pay-1".to_vec() }];
    let docs1: Outcome<Vec<Record>> = Outcome::Success(recs.clone());
    let docs2: Outcome<Vec<Record>> = Outcome::Success(recs);
    let search1: Outcome<Vec<u8>> = Outcome::Success(b"{\"hits\":[]}".to_vec());
    let search2: Outcome<Vec<u8>> = Outcome::Success(b"{\"hits\":[]}".to_vec());
    let r1 = read_result(docs1, search1, 10);
    let r2 = read_result(docs2, search2, 20);
    assert_eq!(r1.status, r2.status);
    assert_eq!(r1.doc_value, r2.doc_value);
    assert_eq!(r1.search_value, r2.search_value);
}

#[test]
fn read_keeps_surviving_side() {
    let recs = vec![
        Record { id: b"a".to_vec(), payload: b"1".to_vec() },
        Record { id: b"b".to_vec(), payload: b"2".to_vec() },
    ];
    let docs: Outcome<Vec<Record>> = Outcome::Success(recs.clone());
    let search: Outcome<Vec<u8>> = Outcome::Failure(conn_err());
    let r = read_result(docs, search, 5);
    assert_eq!(r.status, Status::PartialFailure);
    assert_eq!(r.doc_value, Some(recs));
    assert_eq!(r.search_value, None);
}
