use dualstore::coordinator::{http_status, read_result, write_result};
use dualstore::json::{render_insert_body, render_read_body, render_search_doc, search_query_body};
use dualstore::outcome::{ErrorInfo, ErrorKind, Outcome, Status};
use dualstore::record::Record;

fn unreachable_err() -> ErrorInfo {
    ErrorInfo { kind: ErrorKind::ConnectionError, message: String::from("no route to host") }
}

#[test]
fn insert_body_is_a_time_envelope() {
    assert_eq!(render_insert_body(0), b"{\"time\":0}".to_vec());
    assert_eq!(render_insert_body(1700000000123), b"{\"time\":1700000000123}".to_vec());
    assert_eq!(render_insert_body(u64::MAX), b"{\"time\":18446744073709551615}".to_vec());
}

#[test]
fn insert_with_both_backends_healthy_is_created() {
    let doc: Outcome<Vec<u8>> = Outcome::Success(b"ack".to_vec());
    let search: Outcome<Vec<u8>> = Outcome::Success(b"ack".to_vec());
    let r = write_result(doc, search, 1700000000123);
    assert_eq!(http_status(r.status), 201);
    assert_eq!(render_insert_body(r.time_ms), b"{\"time\":1700000000123}".to_vec());
}

#[test]
fn read_with_search_down_keeps_the_three_records() {
    let records = vec![
        Record { id: b"id-1".to_vec(), payload: b"alpha".to_vec() },
        Record { id: b"id-2".to_vec(), payload: b"beta".to_vec() },
        Record { id: b"id-3".to_vec(), payload: b"gamma".to_vec() },
    ];
    let docs: Outcome<Vec<Record>> = Outcome::Success(records);
    let search: Outcome<Vec<u8>> = Outcome::Failure(unreachable_err());
    let r = read_result(docs, search, 99);
    assert_eq!(http_status(r.status), 500);
    let body = String::from_utf8(render_read_body(&r)).unwrap();
    assert_eq!(
        body,
        "{\"time\":99,\"mongo\":[\
         {\"_id\":\"id-1\",\"data\":\"alpha\"},\
         {\"_id\":\"id-2\",\"data\":\"beta\"},\
         {\"_id\":\"id-3\",\"data\":\"gamma\"}\
         ],\"es\":null}"
    );
}

#[test]
fn read_with_both_sides_healthy_embeds_the_search_answer() {
    let records = vec![Record { id: b"a".to_vec(), payload: b"p".to_vec() }];
    let docs: Outcome<Vec<Record>> = Outcome::Success(records);
    let search: Outcome<Vec<u8>> = Outcome::Success(b"{\"hits\":{\"total\":1}}".to_vec());
    let r = read_result(docs, search, 7);
    assert_eq!(r.status, Status::AllSucceeded);
    let body = String::from_utf8(render_read_body(&r)).unwrap();
    assert_eq!(
        body,
        "{\"time\":7,\"mongo\":[{\"_id\":\"a\",\"data\":\"p\"}],\"es\":{\"hits\":{\"total\":1}}}"
    );
}

#[test]
fn read_with_both_sides_down_is_all_null() {
    let docs: Outcome<Vec<Record>> = Outcome::Failure(unreachable_err());
    let search: Outcome<Vec<u8>> = Outcome::Failure(unreachable_err());
    let r = read_result(docs, search, 3);
    let body = String::from_utf8(render_read_body(&r)).unwrap();
    assert_eq!(body, "{\"time\":3,\"mongo\":null,\"es\":null}");
}

#[test]
fn read_with_no_records_is_an_empty_array_not_null() {
    let docs: Outcome<Vec<Record>> = Outcome::Success(vec![]);
    let search: Outcome<Vec<u8>> = Outcome::Failure(unreachable_err());
    let r = read_result(docs, search, 3);
    let body = String::from_utf8(render_read_body(&r)).unwrap();
    assert_eq!(body, "{\"time\":3,\"mongo\":[],\"es\":null}");
}

#[test]
fn search_doc_escapes_its_payload() {
    let body = String::from_utf8(render_search_doc(b"a\"b\\c\nd", 5)).unwrap();
    assert_eq!(body, "{\"data\":\"a\\\"b\\\\c\\u000ad\",\"time\":5}");
}

#[test]
fn search_doc_plain_payload() {
    let body = String::from_utf8(render_search_doc(b"q0FbX1", 1234)).unwrap();
    assert_eq!(body, "{\"data\":\"q0FbX1\",\"time\":1234}");
}

#[test]
fn search_query_sorts_by_time_descending() {
    let q = String::from_utf8(search_query_body()).unwrap();
    assert_eq!(q, "{\"sort\":[{\"time\":{\"order\":\"desc\"}}]}");
}

#[test]
fn record_ids_are_escaped_too() {
    let records = vec![Record { id: b"a\"b".to_vec(), payload: b"\x01".to_vec() }];
    let docs: Outcome<Vec<Record>> = Outcome::Success(records);
    let search: Outcome<Vec<u8>> = Outcome::Failure(unreachable_err());
    let r = read_result(docs, search, 1);
    let body = String::from_utf8(render_read_body(&r)).unwrap();
    assert_eq!(body, "{\"time\":1,\"mongo\":[{\"_id\":\"a\\\"b\",\"data\":\"\\u0001\"}],\"es\":null}");
}
