//! The operations of version 2019-10-17: registration, login, and the
//! creation and deletion of groups.

use vstd::prelude::*;
use vstd::string::*;
use vstd::utf8::*;
use crate::auth_hash::{auth_id_hash, fingerprint};
use crate::db::{Database, Store};
use crate::encoding::{base64_decoded, decode_blob};
use crate::result::Error;

verus! {

pub const VERSION: &'static str = "2019-10-17";

/// The state and the answer after a registration under a nickname, with
/// the secret hash in base64. A hash that is not base64 is a bad request.
pub open spec fn registered(s: Store, nickname: Seq<char>, hash_base64: Seq<char>) -> (
    Store,
    Result<u64, Error>,
) {
    match base64_decoded(hash_base64) {
        Some(hash) => s.register(fingerprint(encode_utf8(nickname)), hash),
        None => (s, Err(Error::BadRequest)),
    }
}

/// The answer to a login under an auth id, with the secret hash in base64.
pub open spec fn logged_in(s: Store, auth_id: Seq<char>, hash_base64: Seq<char>) -> Result<
    u64,
    Error,
> {
    match base64_decoded(hash_base64) {
        Some(hash) => s.login(fingerprint(encode_utf8(auth_id)), hash),
        None => Err(Error::BadRequest),
    }
}

/// The state and the answer after the creation of a group.
pub open spec fn group_created(s: Store, user_id: u64) -> (Store, Result<u64, Error>) {
    s.group_create(user_id)
}

/// The state and the answer after the deletion of a group.
pub open spec fn group_deleted(s: Store, group_id: u64, user_id: u64) -> (Store, Result<(), Error>) {
    s.group_delete(group_id, user_id)
}

/// Registers a user under the fingerprint of the nickname.
pub fn register_user_by_nickname(db: &mut Database, nickname: &str, hash_base64: &str) -> (r:
    Result<u64, Error>)
    requires
        old(db).wf(),
    ensures
        final(db).wf(),
        final(db)@ == registered(old(db)@, nickname@, hash_base64@).0,
        r == registered(old(db)@, nickname@, hash_base64@).1,
{
    let mut buf: Vec<u8> = Vec::new();
    auth_id_hash(nickname, &mut buf);
    let hash_bytes = match decode_blob(hash_base64) {
        Ok(bytes) => bytes,
        Err(e) => {
            return Err(e);
        },
    };
    db.register_user_by_nickname(buf.as_slice(), hash_bytes.as_slice())
}

/// Logs a user in under the fingerprint of the auth id.
pub fn login_by_auth_id(db: &Database, auth_id_str: &str, hash_base64: &str) -> (r: Result<
    u64,
    Error,
>)
    requires
        db.wf(),
    ensures
        r == logged_in(db@, auth_id_str@, hash_base64@),
{
    let mut buf: Vec<u8> = Vec::new();
    auth_id_hash(auth_id_str, &mut buf);
    let hash_bytes = match decode_blob(hash_base64) {
        Ok(bytes) => bytes,
        Err(e) => {
            return Err(e);
        },
    };
    db.login_by_auth_id(buf.as_slice(), hash_bytes.as_slice())
}

/// Creates a group owned by the user.
pub fn group_create(db: &mut Database, user_id: u64) -> (r: Result<u64, Error>)
    requires
        old(db).wf(),
    ensures
        final(db).wf(),
        final(db)@ == group_created(old(db)@, user_id).0,
        r == group_created(old(db)@, user_id).1,
{
    db.group_create(user_id)
}

/// Deletes a group on behalf of the user.
pub fn group_delete(db: &mut Database, group_id: u64, user_id: u64) -> (r: Result<(), Error>)
    requires
        old(db).wf(),
    ensures
        final(db).wf(),
        final(db)@ == group_deleted(old(db)@, group_id, user_id).0,
        r == group_deleted(old(db)@, group_id, user_id).1,
{
    db.group_delete(group_id, user_id)
}

} // verus!
