use classistant_server::db::Database;
use classistant_server::group::{
    create, create_check, create_failed, create_reply, modify, modify_check, modify_failed,
    modify_reply, BackendFault, CreateRequest, ModifyRequest, ACTION_CREATE_REPLY,
    ACTION_CREATE_REQUEST, ACTION_MODIFY_REPLY, ACTION_MODIFY_REQUEST, RETURN_INCONSISTENT,
};

fn create_request(action: &str, owner_uid: u64) -> CreateRequest {
    CreateRequest { action: action.to_string(), owner_uid }
}

fn modify_request(action: &str, gid: u64, uid: u64, new_priv: u64) -> ModifyRequest {
    ModifyRequest { action: action.to_string(), gid, uid, new_priv }
}

#[test]
fn action_names() {
    assert_eq!(ACTION_CREATE_REQUEST, "v1.group.create.request");
    assert_eq!(ACTION_CREATE_REPLY, "v1.group.create.reply");
    assert_eq!(ACTION_MODIFY_REQUEST, "v1.group.modify.request");
    assert_eq!(ACTION_MODIFY_REPLY, "v1.group.modify.reply");
}

#[test]
fn create_answers_new_group() {
    let mut db = Database::new();
    let reply = create(&mut db, &create_request("v1.group.create.request", 5));
    assert_eq!(reply.action, "v1.group.create.reply");
    assert_eq!(reply.return_id, 0);
    assert_eq!(reply.failed_reason, None);
    assert_eq!(reply.success_gid, Some(1));
    let second = create(&mut db, &create_request("v1.group.create.request", 6));
    assert_eq!(second.success_gid, Some(2));
    assert_eq!(db.group_delete(1, 5), Ok(()));
    assert_eq!(db.group_delete(2, 6), Ok(()));
}

#[test]
fn create_refuses_wrong_action_first() {
    let mut db = Database::new();
    for action in ["", "v1.group.create.reply", "v1.group.create.request ", "V1.GROUP.CREATE.REQUEST"] {
        let reply = create(&mut db, &create_request(action, 0));
        assert_eq!(reply.action, "v1.group.create.reply");
        assert_eq!(reply.return_id, 20);
        assert_eq!(reply.failed_reason, Some("wrong action type".to_string()));
        assert_eq!(reply.success_gid, None);
    }
    assert_eq!(db.group_create(5), Ok(1));
}

#[test]
fn create_refuses_zero_owner() {
    let mut db = Database::new();
    let reply = create(&mut db, &create_request("v1.group.create.request", 0));
    assert_eq!(reply.return_id, 10);
    assert_eq!(reply.failed_reason, Some("owner's user id cannot be zero".to_string()));
    assert_eq!(reply.success_gid, None);
    assert_eq!(db.group_create(5), Ok(1));
}

#[test]
fn create_check_passes_a_sound_request() {
    assert!(create_check(&create_request("v1.group.create.request", 5)).is_none());
    assert_eq!(create_check(&create_request("x", 5)).unwrap().return_id, 20);
    assert_eq!(create_check(&create_request("v1.group.create.request", 0)).unwrap().return_id, 10);
}

#[test]
fn create_failed_carries_code_and_reason() {
    let reply = create_failed(33, "unexpected end of return rows");
    assert_eq!(reply.action, "v1.group.create.reply");
    assert_eq!(reply.return_id, 33);
    assert_eq!(reply.failed_reason, Some("unexpected end of return rows".to_string()));
    assert_eq!(reply.success_gid, None);
}

#[test]
fn create_reply_reports_each_fault() {
    let cases = [
        (BackendFault::Connect, 30, "failed to get connection from database"),
        (BackendFault::Prepare, 31, "failed to prepare statement"),
        (BackendFault::Execute, 32, "failed to execute statement"),
        (BackendFault::NoRow, 33, "unexpected end of return rows"),
        (BackendFault::RowRead, 34, "failed to iterate over answer rows"),
        (BackendFault::MissingColumn, 35, "no `group_id` row returned"),
    ];
    for (fault, code, reason) in cases {
        assert_eq!(fault.code(), code);
        assert_eq!(fault.reason(), reason);
        let reply = create_reply(Err(fault));
        assert_eq!(reply.action, "v1.group.create.reply");
        assert_eq!(reply.return_id, code);
        assert_eq!(reply.failed_reason, Some(reason.to_string()));
        assert_eq!(reply.success_gid, None);
    }
    let ok = create_reply(Ok(77));
    assert_eq!(ok.return_id, 0);
    assert_eq!(ok.failed_reason, None);
    assert_eq!(ok.success_gid, Some(77));
}

#[test]
fn modify_answers_added_unchanged_updated() {
    let mut db = Database::new();
    let g = db.group_create(5).unwrap();
    let added = modify(&mut db, &modify_request("v1.group.modify.request", g, 9, 3));
    assert_eq!(added.action, "v1.group.modify.reply");
    assert_eq!(added.return_id, 0);
    assert_eq!(added.failed_reason, None);
    assert_eq!(added.success_state, Some(1));
    let unchanged = modify(&mut db, &modify_request("v1.group.modify.request", g, 9, 3));
    assert_eq!(unchanged.success_state, Some(0));
    assert_eq!(unchanged.return_id, 0);
    let updated = modify(&mut db, &modify_request("v1.group.modify.request", g, 9, 4));
    assert_eq!(updated.success_state, Some(2));
    assert_eq!(updated.return_id, 0);
}

#[test]
fn modify_refuses_wrong_action_then_zero_uid_then_zero_gid() {
    let mut db = Database::new();
    let wrong = modify(&mut db, &modify_request("v1.group.create.request", 0, 0, 3));
    assert_eq!(wrong.return_id, 20);
    assert_eq!(wrong.failed_reason, Some("wrong action type".to_string()));
    assert_eq!(wrong.success_state, None);
    let both = modify(&mut db, &modify_request("v1.group.modify.request", 0, 0, 3));
    assert_eq!(both.return_id, 10);
    assert_eq!(both.failed_reason, Some("zero uid".to_string()));
    let uid = modify(&mut db, &modify_request("v1.group.modify.request", 1, 0, 3));
    assert_eq!(uid.return_id, 10);
    let gid = modify(&mut db, &modify_request("v1.group.modify.request", 0, 9, 3));
    assert_eq!(gid.action, "v1.group.modify.reply");
    assert_eq!(gid.return_id, 11);
    assert_eq!(gid.failed_reason, Some("zero gid".to_string()));
    assert_eq!(gid.success_state, None);
    assert!(modify_check(&modify_request("v1.group.modify.request", 1, 9, 3)).is_none());
}

#[test]
fn modify_reports_a_statement_the_store_refuses() {
    let mut db = Database::new();
    let missing = modify(&mut db, &modify_request("v1.group.modify.request", 4, 9, 3));
    assert_eq!(missing.return_id, 32);
    assert_eq!(missing.failed_reason, Some("failed to execute statement".to_string()));
    assert_eq!(missing.success_state, None);
    let g = db.group_create(5).unwrap();
    let demote = modify(&mut db, &modify_request("v1.group.modify.request", g, 5, 3));
    assert_eq!(demote.return_id, 32);
    assert_eq!(demote.success_state, None);
}

#[test]
fn modify_reply_does_not_coerce_an_unknown_row_count() {
    assert_eq!(RETURN_INCONSISTENT, 36);
    for rows in [3u64, 4, 100, u64::MAX] {
        let reply = modify_reply(Ok(rows));
        assert_eq!(reply.action, "v1.group.modify.reply");
        assert_eq!(reply.return_id, 36);
        assert_eq!(reply.failed_reason, Some("backend broke its contract".to_string()));
        assert_eq!(reply.success_state, None);
    }
    assert_eq!(modify_reply(Ok(0)).success_state, Some(0));
    assert_eq!(modify_reply(Ok(1)).success_state, Some(1));
    assert_eq!(modify_reply(Ok(2)).success_state, Some(2));
    assert_eq!(modify_reply(Ok(2)).return_id, 0);
    let failed = modify_reply(Err(BackendFault::Connect));
    assert_eq!(failed.return_id, 30);
    assert_eq!(failed.failed_reason, Some("failed to get connection from database".to_string()));
}

#[test]
fn modify_failed_carries_code_and_reason() {
    let reply = modify_failed(31, "failed to prepare statement");
    assert_eq!(reply.action, "v1.group.modify.reply");
    assert_eq!(reply.return_id, 31);
    assert_eq!(reply.failed_reason, Some("failed to prepare statement".to_string()));
    assert_eq!(reply.success_state, None);
}
