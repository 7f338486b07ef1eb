use classistant_server::db::{DataEntry, Database};
use classistant_server::encoding::{decode_blob, encode_blob};
use classistant_server::http_api::data::{
    decode_entries, delete_batch, encode_entries, get_batch, modify_batch, DeleteBatchRequest,
    EncodedEntry, GetBatchRequest, ModifyBatchRequest,
};
use classistant_server::http_api::error_response;
use classistant_server::result::Error;

fn encoded(key: &str, data: &str, encryption: &str) -> EncodedEntry {
    EncodedEntry { key: key.to_string(), data: data.to_string(), encryption: encryption.to_string() }
}

fn texts(entries: &[EncodedEntry]) -> Vec<(String, String, String)> {
    entries.iter().map(|e| (e.key.clone(), e.data.clone(), e.encryption.clone())).collect()
}

fn keys(names: &[&str]) -> Vec<String> {
    names.iter().map(|k| k.to_string()).collect()
}

#[test]
fn error_kinds_map_to_status_and_reason() {
    let cases = [
        (Error::InvalidArgument, 400, "invalid argument"),
        (Error::AuthenticationFailed, 401, "authentication failed"),
        (Error::PermissionDenied, 403, "permission denied"),
        (Error::DuplicateIdentity, 409, "identity already registered"),
        (Error::BackendError, 500, "backend error"),
        (Error::FatalBackendInconsistency, 500, "backend broke its contract"),
        (Error::Unauthenticated, 401, "not authenticated"),
        (Error::Expired, 401, "session expired"),
        (Error::BadRequest, 400, "bad request"),
    ];
    for (kind, status, reason) in cases {
        assert_eq!(kind.status(), status);
        assert_eq!(kind.reason(), reason);
        let response = error_response(kind);
        assert_eq!(response.status, status);
        assert_eq!(response.reason, reason);
    }
}

#[test]
fn encode_entries_gives_standard_base64() {
    let entries = vec![
        DataEntry { key: "a".to_string(), data: b"hello".to_vec(), encryption: b"world".to_vec() },
        DataEntry { key: "b".to_string(), data: Vec::new(), encryption: vec![0xfb, 0xff] },
    ];
    assert_eq!(
        texts(&encode_entries(&entries)),
        vec![
            ("a".to_string(), "aGVsbG8=".to_string(), "d29ybGQ=".to_string()),
            ("b".to_string(), "".to_string(), "+/8=".to_string()),
        ]
    );
    assert!(encode_entries(&Vec::new()).is_empty());
}

#[test]
fn decode_entries_gives_the_bytes() {
    let decoded = decode_entries(&vec![encoded("a", "aGVsbG8=", "d29ybGQ="), encoded("b", "", "+/8=")]);
    let decoded = match decoded {
        Ok(entries) => entries,
        Err(e) => panic!("{:?}", e),
    };
    assert_eq!(decoded.len(), 2);
    assert_eq!(decoded[0].key, "a");
    assert_eq!(decoded[0].data, b"hello".to_vec());
    assert_eq!(decoded[0].encryption, b"world".to_vec());
    assert_eq!(decoded[1].key, "b");
    assert_eq!(decoded[1].data, Vec::<u8>::new());
    assert_eq!(decoded[1].encryption, vec![0xfb, 0xff]);
}

#[test]
fn decode_entries_fails_on_any_bad_text() {
    assert!(matches!(decode_entries(&vec![encoded("a", "aGVsb", "")]), Err(Error::BadRequest)));
    assert!(matches!(decode_entries(&vec![encoded("a", "", "a b")]), Err(Error::BadRequest)));
    assert!(matches!(
        decode_entries(&vec![encoded("a", "aGVsbG8=", ""), encoded("b", "-_8=", "")]),
        Err(Error::BadRequest)
    ));
    assert!(matches!(decode_entries(&Vec::new()), Ok(v) if v.is_empty()));
}

#[test]
fn requests_without_session_are_refused() {
    let mut db = Database::new();
    let put = modify_batch(None, &mut db, ModifyBatchRequest { entries: vec![encoded("a", "aGVsbG8=", "")] });
    let put = put.err().unwrap();
    assert_eq!((put.status, put.reason.as_str()), (401, "not authenticated"));
    let got = get_batch(None, &db, GetBatchRequest { keys: keys(&["a"]) }).err().unwrap();
    assert_eq!((got.status, got.reason.as_str()), (401, "not authenticated"));
    let gone = delete_batch(None, &mut db, DeleteBatchRequest { keys: keys(&["a"]) }).err().unwrap();
    assert_eq!((gone.status, gone.reason.as_str()), (401, "not authenticated"));
    assert!(db.data_get_batch(0, keys(&["a"])).unwrap().is_empty());
}

#[test]
fn modify_then_get_round_trips_through_base64() {
    let mut db = Database::new();
    let put = modify_batch(
        Some(3),
        &mut db,
        ModifyBatchRequest { entries: vec![encoded("a", "aGVsbG8=", "d29ybGQ="), encoded("b", "", "+/8=")] },
    );
    assert_eq!(put.ok().unwrap().modified, keys(&["a", "b"]));
    let stored = db.data_get_batch(3, keys(&["a"])).unwrap();
    assert_eq!(stored[0].data, b"hello".to_vec());
    assert_eq!(stored[0].encryption, b"world".to_vec());
    let got = get_batch(Some(3), &db, GetBatchRequest { keys: keys(&["b", "missing", "a"]) }).ok().unwrap();
    assert_eq!(
        texts(&got.ret),
        vec![
            ("b".to_string(), "".to_string(), "+/8=".to_string()),
            ("a".to_string(), "aGVsbG8=".to_string(), "d29ybGQ=".to_string()),
        ]
    );
    let other = get_batch(Some(4), &db, GetBatchRequest { keys: keys(&["a", "b"]) }).ok().unwrap();
    assert!(other.ret.is_empty());
}

#[test]
fn modify_with_bad_text_writes_nothing() {
    let mut db = Database::new();
    let put = modify_batch(
        Some(3),
        &mut db,
        ModifyBatchRequest { entries: vec![encoded("a", "aGVsbG8=", ""), encoded("b", "%%%", "")] },
    );
    let failed = put.err().unwrap();
    assert_eq!((failed.status, failed.reason.as_str()), (400, "bad request"));
    assert!(db.data_get_batch(3, keys(&["a", "b"])).unwrap().is_empty());
}

#[test]
fn delete_is_idempotent_for_the_transport() {
    let mut db = Database::new();
    modify_batch(Some(3), &mut db, ModifyBatchRequest { entries: vec![encoded("a", "aGVsbG8=", "")] })
        .ok()
        .unwrap();
    assert!(delete_batch(Some(3), &mut db, DeleteBatchRequest { keys: keys(&["a", "b"]) }).is_ok());
    assert!(delete_batch(Some(3), &mut db, DeleteBatchRequest { keys: keys(&["a", "b"]) }).is_ok());
    let got = get_batch(Some(3), &db, GetBatchRequest { keys: keys(&["a"]) }).ok().unwrap();
    assert!(got.ret.is_empty());
}

#[test]
fn blobs_travel_as_standard_base64() {
    assert_eq!(encode_blob(b"hello"), "aGVsbG8=");
    assert_eq!(encode_blob(b""), "");
    assert_eq!(encode_blob(&[0xfb, 0xff, 0xfe]), "+//+");
    assert_eq!(decode_blob("aGVsbG8="), Ok(b"hello".to_vec()));
    assert_eq!(decode_blob(""), Ok(Vec::new()));
    assert_eq!(decode_blob("+//+"), Ok(vec![0xfb, 0xff, 0xfe]));
    assert_eq!(decode_blob("-__-"), Err(Error::BadRequest));
    assert_eq!(decode_blob("aGVsbG8=\n"), Err(Error::BadRequest));
}
