use classistant_server::app_api::{api_191017, api_191103, route, select_version, ApiVersion, Operation};
use classistant_server::auth_hash::auth_id_hash;
use classistant_server::console::{parse_command, Command, COMMAND_HUAJI, COMMAND_STOP};
use classistant_server::db::{DataEntry, Database};
use classistant_server::result::Error;

const ALL: [Operation; 10] = [
    Operation::RegisterUserByNickname,
    Operation::LoginByAuthId,
    Operation::GroupCreate,
    Operation::GroupDelete,
    Operation::GroupTransferOwner,
    Operation::DataGetBatch,
    Operation::DataModifyBatch,
    Operation::DataDeleteBatch,
    Operation::FormTypeCreate,
    Operation::FormTypeGet,
];

#[test]
fn version_names() {
    assert_eq!(api_191017::VERSION, "2019-10-17");
    assert_eq!(api_191103::VERSION, "2019-11-03");
    assert_eq!(ApiVersion::V191017.name(), "2019-10-17");
    assert_eq!(ApiVersion::V191103.name(), "2019-11-03");
}

#[test]
fn version_is_selected_by_its_name_only() {
    assert_eq!(select_version(Some("2019-10-17")), Ok(ApiVersion::V191017));
    assert_eq!(select_version(Some("2019-11-03")), Ok(ApiVersion::V191103));
    assert_eq!(select_version(None), Err(Error::BadRequest));
    assert_eq!(select_version(Some("")), Err(Error::BadRequest));
    assert_eq!(select_version(Some("2019-10-18")), Err(Error::BadRequest));
    assert_eq!(select_version(Some("2019-11-03 ")), Err(Error::BadRequest));
    assert_eq!(select_version(Some("2019-10-1")), Err(Error::BadRequest));
}

#[test]
fn later_version_holds_every_operation_of_the_earlier() {
    for op in ALL {
        assert!(ApiVersion::V191103.supports(op));
        if ApiVersion::V191017.supports(op) {
            assert!(ApiVersion::V191103.supports(op));
        }
    }
    assert!(ApiVersion::V191017.supports(Operation::RegisterUserByNickname));
    assert!(ApiVersion::V191017.supports(Operation::LoginByAuthId));
    assert!(ApiVersion::V191017.supports(Operation::GroupCreate));
    assert!(ApiVersion::V191017.supports(Operation::GroupDelete));
    assert!(!ApiVersion::V191017.supports(Operation::GroupTransferOwner));
    assert!(!ApiVersion::V191017.supports(Operation::DataGetBatch));
    assert!(!ApiVersion::V191017.supports(Operation::DataModifyBatch));
    assert!(!ApiVersion::V191017.supports(Operation::DataDeleteBatch));
    assert!(!ApiVersion::V191017.supports(Operation::FormTypeCreate));
    assert!(!ApiVersion::V191017.supports(Operation::FormTypeGet));
}

#[test]
fn route_refuses_before_any_operation_runs() {
    assert_eq!(route(Some("2019-10-17"), Operation::GroupCreate), Ok(ApiVersion::V191017));
    assert_eq!(route(Some("2019-11-03"), Operation::GroupCreate), Ok(ApiVersion::V191103));
    assert_eq!(route(Some("2019-11-03"), Operation::FormTypeGet), Ok(ApiVersion::V191103));
    assert_eq!(route(Some("2019-10-17"), Operation::FormTypeGet), Err(Error::BadRequest));
    assert_eq!(route(Some("2019-10-17"), Operation::GroupTransferOwner), Err(Error::BadRequest));
    assert_eq!(route(None, Operation::GroupCreate), Err(Error::BadRequest));
    assert_eq!(route(Some("2020-01-01"), Operation::GroupCreate), Err(Error::BadRequest));
}

#[test]
fn create_and_delete_agree_across_versions() {
    let mut old = Database::new();
    let mut new = Database::new();
    for owner in [0u64, 5, 6, 5] {
        assert_eq!(api_191017::group_create(&mut old, owner), api_191103::group_create(&mut new, owner));
    }
    for (group, user) in [(1u64, 6u64), (1, 5), (1, 5), (2, 6), (3, 0), (9, 5), (0, 0)] {
        assert_eq!(
            api_191017::group_delete(&mut old, group, user),
            api_191103::group_delete(&mut new, group, user)
        );
    }
    assert_eq!(api_191017::group_create(&mut old, 8), Ok(4));
    assert_eq!(api_191103::group_create(&mut new, 8), Ok(4));
}

#[test]
fn register_and_login_agree_across_versions() {
    let mut old = Database::new();
    let mut new = Database::new();
    for (name, hash) in [("alice", "aGVsbG8="), ("alice", "aGVsbG8="), ("bob", "!"), ("bob", "")] {
        assert_eq!(
            api_191017::register_user_by_nickname(&mut old, name, hash),
            api_191103::register_user_by_nickname(&mut new, name, hash)
        );
    }
    for (name, hash) in [("alice", "aGVsbG8="), ("alice", "aGVsbG8h"), ("bob", ""), ("carol", "!")] {
        assert_eq!(
            api_191017::login_by_auth_id(&old, name, hash),
            api_191103::login_by_auth_id(&new, name, hash)
        );
    }
}

#[test]
fn register_by_nickname_then_login_returns_same_id() {
    let mut db = Database::new();
    let id = api_191103::register_user_by_nickname(&mut db, "alice", "aGVsbG8=").unwrap();
    assert_eq!(id, 1);
    assert_eq!(api_191103::login_by_auth_id(&db, "alice", "aGVsbG8="), Ok(1));
    assert_eq!(api_191017::login_by_auth_id(&db, "alice", "aGVsbG8="), Ok(1));
    assert_eq!(api_191103::login_by_auth_id(&db, "alice", "aGVsbG8h"), Err(Error::AuthenticationFailed));
    assert_eq!(api_191103::login_by_auth_id(&db, "Alice", "aGVsbG8="), Err(Error::AuthenticationFailed));
    assert_eq!(
        api_191103::register_user_by_nickname(&mut db, "alice", "d29ybGQ="),
        Err(Error::DuplicateIdentity)
    );
    assert_eq!(api_191103::register_user_by_nickname(&mut db, "bob", "d29ybGQ="), Ok(2));
}

#[test]
fn register_stores_the_decoded_hash_under_the_fingerprint() {
    let mut db = Database::new();
    assert_eq!(api_191017::register_user_by_nickname(&mut db, "alice", "aGVsbG8="), Ok(1));
    let mut fingerprint = Vec::new();
    auth_id_hash("alice", &mut fingerprint);
    assert_eq!(db.login_by_auth_id(&fingerprint, b"hello"), Ok(1));
    assert_eq!(db.login_by_auth_id(&fingerprint, b"aGVsbG8="), Err(Error::AuthenticationFailed));
    assert_eq!(db.login_by_auth_id(b"alice", b"hello"), Err(Error::AuthenticationFailed));
}

#[test]
fn hash_that_is_not_base64_is_a_bad_request() {
    let mut db = Database::new();
    assert_eq!(api_191103::register_user_by_nickname(&mut db, "alice", "not base64!"), Err(Error::BadRequest));
    assert_eq!(api_191103::register_user_by_nickname(&mut db, "alice", "a"), Err(Error::BadRequest));
    assert_eq!(api_191103::register_user_by_nickname(&mut db, "alice", "aGVsbG8= "), Err(Error::BadRequest));
    assert_eq!(api_191103::login_by_auth_id(&db, "alice", "***"), Err(Error::BadRequest));
    assert_eq!(api_191103::register_user_by_nickname(&mut db, "alice", "aGVsbG8="), Ok(1));
    assert_eq!(api_191103::login_by_auth_id(&db, "alice", "aGVsbG8=="), Err(Error::BadRequest));
}

#[test]
fn hash_text_without_padding_is_the_same_hash() {
    let mut db = Database::new();
    assert_eq!(api_191103::register_user_by_nickname(&mut db, "alice", "aGVsbG8="), Ok(1));
    assert_eq!(api_191103::login_by_auth_id(&db, "alice", "aGVsbG8"), Ok(1));
}

#[test]
fn empty_hash_text_is_the_empty_hash() {
    let mut db = Database::new();
    assert_eq!(api_191103::register_user_by_nickname(&mut db, "", ""), Ok(1));
    assert_eq!(api_191103::login_by_auth_id(&db, "", ""), Ok(1));
}

#[test]
fn later_version_transfers_groups() {
    let mut db = Database::new();
    let g = api_191103::group_create(&mut db, 5).unwrap();
    assert_eq!(api_191103::group_transfer_owner(&mut db, g, 5, 9), Ok(()));
    assert_eq!(api_191103::group_delete(&mut db, g, 5), Err(Error::PermissionDenied));
    assert_eq!(api_191017::group_delete(&mut db, g, 9), Ok(()));
    assert_eq!(api_191103::group_delete(&mut db, g, 5), Err(Error::PermissionDenied));
}

#[test]
fn later_version_keeps_data_and_form_types() {
    let mut db = Database::new();
    let entry = DataEntry { key: "a".to_string(), data: vec![1, 2], encryption: vec![3] };
    assert_eq!(api_191103::data_modify_batch(&mut db, 4, vec![entry]), Ok(vec!["a".to_string()]));
    let got = api_191103::data_get_batch(&db, 4, vec!["a".to_string(), "b".to_string()]).unwrap();
    assert_eq!(got.len(), 1);
    assert_eq!((got[0].key.as_str(), &got[0].data, &got[0].encryption), ("a", &vec![1u8, 2], &vec![3u8]));
    assert_eq!(api_191103::data_delete_batch(&mut db, 4, vec!["a".to_string()]), Ok(()));
    assert_eq!(api_191103::data_delete_batch(&mut db, 4, vec!["a".to_string()]), Ok(()));
    assert!(api_191103::data_get_batch(&db, 4, vec!["a".to_string()]).unwrap().is_empty());
    let form = api_191103::form_type_create(&mut db, "4", "body", "quiz", b"x").unwrap();
    assert_eq!(api_191103::form_type_get(&db, 4, form), Ok(("4".to_string(), "body".to_string(), b"x".to_vec())));
    assert_eq!(api_191103::form_type_get(&db, 5, form), Err(Error::PermissionDenied));
}

#[test]
fn console_commands() {
    assert_eq!(COMMAND_STOP, "stop");
    assert_eq!(COMMAND_HUAJI, "huaji");
    assert_eq!(parse_command("stop"), Command::Stop);
    assert_eq!(parse_command("huaji"), Command::Huaji);
    assert_eq!(parse_command(""), Command::Nothing);
    assert_eq!(parse_command("Stop"), Command::Unknown);
    assert_eq!(parse_command("stop now"), Command::Unknown);
    assert_eq!(parse_command(" stop"), Command::Unknown);
    assert_eq!(parse_command("start"), Command::Unknown);
}
