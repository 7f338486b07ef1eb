//! Group membership and the `v1.group` request protocol.
//!
//! Setting a member's privilege has three outcomes, which the store reports
//! as the number of rows it touched. This module reads that number, and it
//! decides what a `v1.group.create` or `v1.group.modify` request is answered
//! with: what is refused before the store is asked, and what each outcome of
//! the store becomes in the reply.

use vstd::prelude::*;
use vstd::string::*;
use crate::db::{Database, Store};
use crate::result::Error;
use crate::text::text_eq;

verus! {

pub const ACTION_CREATE_REQUEST: &'static str = "v1.group.create.request";

pub const ACTION_CREATE_REPLY: &'static str = "v1.group.create.reply";

pub const ACTION_MODIFY_REQUEST: &'static str = "v1.group.modify.request";

pub const ACTION_MODIFY_REPLY: &'static str = "v1.group.modify.reply";

/// The return code of a reply that reports a row count outside the
/// contract of the store.
pub const RETURN_INCONSISTENT: u32 = 36;

/// What setting a member's privilege did.
#[derive(Clone, Copy, Debug, PartialEq, Eq, Structural)]
pub enum MemberOutcome {
    /// The membership already had that privilege; nothing was written.
    Unchanged,
    /// There was no membership; one was added.
    Added,
    /// The membership had another privilege; it was overwritten.
    Updated,
}

impl MemberOutcome {
    /// The outcome that a count of touched rows stands for. A count other
    /// than 0, 1 or 2 is outside the contract of the store.
    pub open spec fn of_touched_rows(rows: u64) -> Result<MemberOutcome, Error> {
        if rows == 0 {
            Ok(MemberOutcome::Unchanged)
        } else if rows == 1 {
            Ok(MemberOutcome::Added)
        } else if rows == 2 {
            Ok(MemberOutcome::Updated)
        } else {
            Err(Error::FatalBackendInconsistency)
        }
    }

    /// Reads the count of touched rows that the store reported.
    pub fn from_touched_rows(rows: u64) -> (r: Result<MemberOutcome, Error>)
        ensures
            r == Self::of_touched_rows(rows),
    {
        if rows == 0 {
            Ok(MemberOutcome::Unchanged)
        } else if rows == 1 {
            Ok(MemberOutcome::Added)
        } else if rows == 2 {
            Ok(MemberOutcome::Updated)
        } else {
            Err(Error::FatalBackendInconsistency)
        }
    }

    /// The number that a reply carries for the outcome.
    pub open spec fn spec_state(&self) -> i32 {
        match self {
            MemberOutcome::Unchanged => 0,
            MemberOutcome::Added => 1,
            MemberOutcome::Updated => 2,
        }
    }

    /// The number that a reply carries for the outcome.
    #[verifier::when_used_as_spec(spec_state)]
    pub fn state(&self) -> (n: i32)
        ensures
            n == self.spec_state(),
    {
        match self {
            MemberOutcome::Unchanged => 0,
            MemberOutcome::Added => 1,
            MemberOutcome::Updated => 2,
        }
    }
}

/// The state and the outcome after the privilege of `user_id` in the group
/// was set.
pub open spec fn member_modified(s: Store, group_id: u64, user_id: u64, privilege: u64) -> (
    Store,
    Result<MemberOutcome, Error>,
) {
    let (next, touched) = s.group_member_modify(group_id, user_id, privilege);
    match touched {
        Ok(rows) => (next, MemberOutcome::of_touched_rows(rows)),
        Err(e) => (next, Err(e)),
    }
}

/// Sets the privilege of `user_id` in the group. Zero ids are refused
/// before the store is asked.
pub fn modify_member(db: &mut Database, group_id: u64, user_id: u64, privilege: u64) -> (r: Result<
    MemberOutcome,
    Error,
>)
    requires
        old(db).wf(),
    ensures
        final(db).wf(),
        final(db)@ == member_modified(old(db)@, group_id, user_id, privilege).0,
        r == member_modified(old(db)@, group_id, user_id, privilege).1,
{
    if group_id == 0 || user_id == 0 {
        return Err(Error::InvalidArgument);
    }
    match db.group_member_modify(group_id, user_id, privilege) {
        Ok(rows) => MemberOutcome::from_touched_rows(rows),
        Err(e) => Err(e),
    }
}

/// The step at which a store behind a connection failed.
#[derive(Clone, Copy, Debug, PartialEq, Eq, Structural)]
pub enum BackendFault {
    /// No connection could be had.
    Connect,
    /// The statement could not be prepared.
    Prepare,
    /// The statement could not be executed.
    Execute,
    /// The answer held no row.
    NoRow,
    /// A row of the answer could not be read.
    RowRead,
    /// The row lacks the column asked for.
    MissingColumn,
}

impl BackendFault {
    /// The return code of a reply that reports the fault.
    pub open spec fn spec_code(&self) -> u32 {
        match self {
            BackendFault::Connect => 30,
            BackendFault::Prepare => 31,
            BackendFault::Execute => 32,
            BackendFault::NoRow => 33,
            BackendFault::RowRead => 34,
            BackendFault::MissingColumn => 35,
        }
    }

    /// The reason of a reply that reports the fault.
    pub open spec fn spec_reason(&self) -> Seq<char> {
        match self {
            BackendFault::Connect => "failed to get connection from database"@,
            BackendFault::Prepare => "failed to prepare statement"@,
            BackendFault::Execute => "failed to execute statement"@,
            BackendFault::NoRow => "unexpected end of return rows"@,
            BackendFault::RowRead => "failed to iterate over answer rows"@,
            BackendFault::MissingColumn => "no `group_id` row returned"@,
        }
    }

    /// The return code of a reply that reports the fault.
    #[verifier::when_used_as_spec(spec_code)]
    pub fn code(&self) -> (c: u32)
        ensures
            c == self.spec_code(),
    {
        match self {
            BackendFault::Connect => 30,
            BackendFault::Prepare => 31,
            BackendFault::Execute => 32,
            BackendFault::NoRow => 33,
            BackendFault::RowRead => 34,
            BackendFault::MissingColumn => 35,
        }
    }

    /// The reason of a reply that reports the fault.
    pub fn reason(&self) -> (r: &'static str)
        ensures
            r@ == self.spec_reason(),
    {
        match self {
            BackendFault::Connect => "failed to get connection from database",
            BackendFault::Prepare => "failed to prepare statement",
            BackendFault::Execute => "failed to execute statement",
            BackendFault::NoRow => "unexpected end of return rows",
            BackendFault::RowRead => "failed to iterate over answer rows",
            BackendFault::MissingColumn => "no `group_id` row returned",
        }
    }
}

/// A request to create a group.
pub struct CreateRequest {
    pub action: String,
    pub owner_uid: u64,
}

/// The reply to a request to create a group.
pub struct CreateResponse {
    pub action: &'static str,
    pub return_id: u32,
    pub failed_reason: Option<String>,
    pub success_gid: Option<u64>,
}

/// What a [`CreateResponse`] says.
pub struct CreateReply {
    pub action: Seq<char>,
    pub return_id: u32,
    pub failed_reason: Option<Seq<char>>,
    pub success_gid: Option<u64>,
}

impl View for CreateResponse {
    type V = CreateReply;

    open spec fn view(&self) -> CreateReply {
        CreateReply {
            action: self.action@,
            return_id: self.return_id,
            failed_reason: match self.failed_reason {
                Some(reason) => Some(reason@),
                None => None,
            },
            success_gid: self.success_gid,
        }
    }
}

/// The reply that reports a failure with its code and reason.
pub open spec fn create_failure(id: u32, reason: Seq<char>) -> CreateReply {
    CreateReply {
        action: ACTION_CREATE_REPLY@,
        return_id: id,
        failed_reason: Some(reason),
        success_gid: None,
    }
}

/// The reply that reports the new group.
pub open spec fn create_success(group_id: u64) -> CreateReply {
    CreateReply {
        action: ACTION_CREATE_REPLY@,
        return_id: 0,
        failed_reason: None,
        success_gid: Some(group_id),
    }
}

/// The reply with which a request is refused before the store is asked, if
/// it is: for the wrong action, then for a zero owner.
pub open spec fn create_refusal(action: Seq<char>, owner_uid: u64) -> Option<CreateReply> {
    if action != ACTION_CREATE_REQUEST@ {
        Some(create_failure(20, "wrong action type"@))
    } else if owner_uid == 0 {
        Some(create_failure(10, "owner's user id cannot be zero"@))
    } else {
        None
    }
}

/// The reply to a request that the store was asked about: the new group, or
/// the step at which the store failed.
pub open spec fn create_answer(outcome: Result<u64, BackendFault>) -> CreateReply {
    match outcome {
        Ok(group_id) => create_success(group_id),
        Err(fault) => create_failure(fault.spec_code(), fault.spec_reason()),
    }
}

/// The state and the reply after a request to create a group.
pub open spec fn created(s: Store, action: Seq<char>, owner_uid: u64) -> (Store, CreateReply) {
    match create_refusal(action, owner_uid) {
        Some(reply) => (s, reply),
        None => {
            let (next, r) = s.group_create(owner_uid);
            match r {
                Ok(group_id) => (next, create_answer(Ok(group_id))),
                Err(_) => (next, create_answer(Err(BackendFault::Execute))),
            }
        },
    }
}

/// Builds the reply that reports a failure.
pub fn create_failed(id: u32, reason: &str) -> (r: CreateResponse)
    ensures
        r@ == create_failure(id, reason@),
{
    CreateResponse {
        action: ACTION_CREATE_REPLY,
        return_id: id,
        failed_reason: Some(reason.to_owned()),
        success_gid: None,
    }
}

/// Refuses a request that the store need not be asked about.
pub fn create_check(info: &CreateRequest) -> (r: Option<CreateResponse>)
    ensures
        match r {
            Some(response) => create_refusal(info.action@, info.owner_uid) == Some(response@),
            None => create_refusal(info.action@, info.owner_uid) is None,
        },
{
    if !text_eq(info.action.as_str(), ACTION_CREATE_REQUEST) {
        Some(create_failed(20, "wrong action type"))
    } else if info.owner_uid == 0 {
        Some(create_failed(10, "owner's user id cannot be zero"))
    } else {
        None
    }
}

/// Builds the reply from what the store answered.
pub fn create_reply(outcome: Result<u64, BackendFault>) -> (r: CreateResponse)
    ensures
        r@ == create_answer(outcome),
{
    match outcome {
        Ok(group_id) => CreateResponse {
            action: ACTION_CREATE_REPLY,
            return_id: 0,
            failed_reason: None,
            success_gid: Some(group_id),
        },
        Err(fault) => create_failed(fault.code(), fault.reason()),
    }
}

/// Answers a request to create a group.
pub fn create(db: &mut Database, info: &CreateRequest) -> (r: CreateResponse)
    requires
        old(db).wf(),
    ensures
        final(db).wf(),
        final(db)@ == created(old(db)@, info.action@, info.owner_uid).0,
        r@ == created(old(db)@, info.action@, info.owner_uid).1,
{
    match create_check(info) {
        Some(refusal) => {
            return refusal;
        },
        None => {},
    }
    match db.group_create(info.owner_uid) {
        Ok(group_id) => create_reply(Ok(group_id)),
        Err(_) => create_reply(Err(BackendFault::Execute)),
    }
}

/// A request to set the privilege of a user in a group.
pub struct ModifyRequest {
    pub action: String,
    pub gid: u64,
    pub uid: u64,
    pub new_priv: u64,
}

/// The reply to a request to set a privilege.
pub struct ModifyResponse {
    pub action: &'static str,
    pub return_id: u32,
    pub failed_reason: Option<String>,
    pub success_state: Option<i32>,
}

/// What a [`ModifyResponse`] says.
pub struct ModifyReply {
    pub action: Seq<char>,
    pub return_id: u32,
    pub failed_reason: Option<Seq<char>>,
    pub success_state: Option<i32>,
}

impl View for ModifyResponse {
    type V = ModifyReply;

    open spec fn view(&self) -> ModifyReply {
        ModifyReply {
            action: self.action@,
            return_id: self.return_id,
            failed_reason: match self.failed_reason {
                Some(reason) => Some(reason@),
                None => None,
            },
            success_state: self.success_state,
        }
    }
}

/// The reply that reports a failure with its code and reason.
pub open spec fn modify_failure(id: u32, reason: Seq<char>) -> ModifyReply {
    ModifyReply {
        action: ACTION_MODIFY_REPLY@,
        return_id: id,
        failed_reason: Some(reason),
        success_state: None,
    }
}

/// The reply that reports the outcome.
pub open spec fn modify_success(outcome: MemberOutcome) -> ModifyReply {
    ModifyReply {
        action: ACTION_MODIFY_REPLY@,
        return_id: 0,
        failed_reason: None,
        success_state: Some(outcome.spec_state()),
    }
}

/// The reply with which a request is refused before the store is asked, if
/// it is: for the wrong action, then for a zero user, then for a zero group.
pub open spec fn modify_refusal(action: Seq<char>, gid: u64, uid: u64) -> Option<ModifyReply> {
    if action != ACTION_MODIFY_REQUEST@ {
        Some(modify_failure(20, "wrong action type"@))
    } else if uid == 0 {
        Some(modify_failure(10, "zero uid"@))
    } else if gid == 0 {
        Some(modify_failure(11, "zero gid"@))
    } else {
        None
    }
}

/// The reply to a request that the store was asked about: the outcome that
/// the count of touched rows stands for, a failure where the count stands
/// for none, or the step at which the store failed.
pub open spec fn modify_answer(outcome: Result<u64, BackendFault>) -> ModifyReply {
    match outcome {
        Ok(rows) => match MemberOutcome::of_touched_rows(rows) {
            Ok(outcome) => modify_success(outcome),
            Err(e) => modify_failure(RETURN_INCONSISTENT, e.spec_reason()),
        },
        Err(fault) => modify_failure(fault.spec_code(), fault.spec_reason()),
    }
}

/// The state and the reply after a request to set a privilege.
pub open spec fn modified(s: Store, action: Seq<char>, gid: u64, uid: u64, new_priv: u64) -> (
    Store,
    ModifyReply,
) {
    match modify_refusal(action, gid, uid) {
        Some(reply) => (s, reply),
        None => {
            let (next, r) = s.group_member_modify(gid, uid, new_priv);
            match r {
                Ok(rows) => (next, modify_answer(Ok(rows))),
                Err(_) => (next, modify_answer(Err(BackendFault::Execute))),
            }
        },
    }
}

/// Builds the reply that reports a failure.
pub fn modify_failed(id: u32, reason: &str) -> (r: ModifyResponse)
    ensures
        r@ == modify_failure(id, reason@),
{
    ModifyResponse {
        action: ACTION_MODIFY_REPLY,
        return_id: id,
        failed_reason: Some(reason.to_owned()),
        success_state: None,
    }
}

/// Refuses a request that the store need not be asked about.
pub fn modify_check(info: &ModifyRequest) -> (r: Option<ModifyResponse>)
    ensures
        match r {
            Some(response) => modify_refusal(info.action@, info.gid, info.uid) == Some(response@),
            None => modify_refusal(info.action@, info.gid, info.uid) is None,
        },
{
    if !text_eq(info.action.as_str(), ACTION_MODIFY_REQUEST) {
        Some(modify_failed(20, "wrong action type"))
    } else if info.uid == 0 {
        Some(modify_failed(10, "zero uid"))
    } else if info.gid == 0 {
        Some(modify_failed(11, "zero gid"))
    } else {
        None
    }
}

/// Builds the reply from what the store answered.
pub fn modify_reply(outcome: Result<u64, BackendFault>) -> (r: ModifyResponse)
    ensures
        r@ == modify_answer(outcome),
{
    match outcome {
        Ok(rows) => match MemberOutcome::from_touched_rows(rows) {
            Ok(outcome) => ModifyResponse {
                action: ACTION_MODIFY_REPLY,
                return_id: 0,
                failed_reason: None,
                success_state: Some(outcome.state()),
            },
            Err(e) => modify_failed(RETURN_INCONSISTENT, e.reason()),
        },
        Err(fault) => modify_failed(fault.code(), fault.reason()),
    }
}

/// Answers a request to set the privilege of a user in a group.
pub fn modify(db: &mut Database, info: &ModifyRequest) -> (r: ModifyResponse)
    requires
        old(db).wf(),
    ensures
        final(db).wf(),
        final(db)@ == modified(old(db)@, info.action@, info.gid, info.uid, info.new_priv).0,
        r@ == modified(old(db)@, info.action@, info.gid, info.uid, info.new_priv).1,
{
    match modify_check(info) {
        Some(refusal) => {
            return refusal;
        },
        None => {},
    }
    match db.group_member_modify(info.gid, info.uid, info.new_priv) {
        Ok(rows) => modify_reply(Ok(rows)),
        Err(_) => modify_reply(Err(BackendFault::Execute)),
    }
}

} // verus!
