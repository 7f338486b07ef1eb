//! The operations of version 2019-11-03: those of 2019-10-17, unchanged,
//! and besides them the transfer of groups, batched data operations and
//! form types.

use vstd::prelude::*;
use vstd::string::*;
use vstd::utf8::*;
use crate::app_api::api_191017;
use crate::auth_hash::fingerprint;
use crate::db::{as_entry_map, entry_rows, key_texts, row_keys, DataEntry, Database, Store};
use crate::encoding::base64_decoded;
use crate::result::Error;
use crate::table::{as_map, distinct_keys};

verus! {

pub const VERSION: &'static str = "2019-11-03";

/// The state and the answer after a registration under a nickname, with
/// the secret hash in base64. A hash that is not base64 is a bad request.
pub open spec fn registered(s: Store, nickname: Seq<char>, hash_base64: Seq<char>) -> (
    Store,
    Result<u64, Error>,
) {
    match base64_decoded(hash_base64) {
        Some(hash) => s.register(fingerprint(encode_utf8(nickname)), hash),
        None => (s, Err(Error::BadRequest)),
    }
}

/// The answer to a login under an auth id, with the secret hash in base64.
pub open spec fn logged_in(s: Store, auth_id: Seq<char>, hash_base64: Seq<char>) -> Result<
    u64,
    Error,
> {
    match base64_decoded(hash_base64) {
        Some(hash) => s.login(fingerprint(encode_utf8(auth_id)), hash),
        None => Err(Error::BadRequest),
    }
}

/// The state and the answer after the creation of a group.
pub open spec fn group_created(s: Store, user_id: u64) -> (Store, Result<u64, Error>) {
    s.group_create(user_id)
}

/// The state and the answer after the deletion of a group.
pub open spec fn group_deleted(s: Store, group_id: u64, user_id: u64) -> (Store, Result<(), Error>) {
    s.group_delete(group_id, user_id)
}

/// Registers a user under the fingerprint of the nickname.
pub fn register_user_by_nickname(db: &mut Database, nickname: &str, hash_base64: &str) -> (r:
    Result<u64, Error>)
    requires
        old(db).wf(),
    ensures
        final(db).wf(),
        final(db)@ == registered(old(db)@, nickname@, hash_base64@).0,
        r == registered(old(db)@, nickname@, hash_base64@).1,
{
    api_191017::register_user_by_nickname(db, nickname, hash_base64)
}

/// Logs a user in under the fingerprint of the auth id.
pub fn login_by_auth_id(db: &Database, auth_id_str: &str, hash_base64: &str) -> (r: Result<
    u64,
    Error,
>)
    requires
        db.wf(),
    ensures
        r == logged_in(db@, auth_id_str@, hash_base64@),
{
    api_191017::login_by_auth_id(db, auth_id_str, hash_base64)
}

/// Creates a group owned by the user.
pub fn group_create(db: &mut Database, user_id: u64) -> (r: Result<u64, Error>)
    requires
        old(db).wf(),
    ensures
        final(db).wf(),
        final(db)@ == group_created(old(db)@, user_id).0,
        r == group_created(old(db)@, user_id).1,
{
    api_191017::group_create(db, user_id)
}

/// Deletes a group on behalf of the user.
pub fn group_delete(db: &mut Database, group_id: u64, user_id: u64) -> (r: Result<(), Error>)
    requires
        old(db).wf(),
    ensures
        final(db).wf(),
        final(db)@ == group_deleted(old(db)@, group_id, user_id).0,
        r == group_deleted(old(db)@, group_id, user_id).1,
{
    api_191017::group_delete(db, group_id, user_id)
}

/// Hands a group from its owner to another user.
pub fn group_transfer_owner(db: &mut Database, group_id: u64, src_user_id: u64, dest_user_id: u64) -> (r:
    Result<(), Error>)
    requires
        old(db).wf(),
    ensures
        final(db).wf(),
        final(db)@ == old(db)@.group_transfer_owner(group_id, src_user_id, dest_user_id).0,
        r == old(db)@.group_transfer_owner(group_id, src_user_id, dest_user_id).1,
{
    db.group_transfer_owner(group_id, src_user_id, dest_user_id)
}

/// Answers the entries of the user under the keys, leaving out the keys
/// that do not exist.
pub fn data_get_batch(db: &Database, user_id: u64, keys: Vec<String>) -> (r: Result<
    Vec<DataEntry>,
    Error,
>)
    requires
        db.wf(),
    ensures
        match r {
            Ok(entries) => {
                &&& entry_rows(entries@) == db@.data_select(user_id, key_texts(keys@))
                &&& distinct_keys(entry_rows(entries@))
                &&& as_map(entry_rows(entries@)) == db@.data_get_batch(
                    user_id,
                    key_texts(keys@).to_set(),
                )
            },
            Err(_) => false,
        },
{
    db.data_get_batch(user_id, keys)
}

/// Writes each entry under its key for the user and answers the keys
/// written.
pub fn data_modify_batch(db: &mut Database, user_id: u64, entries: Vec<DataEntry>) -> (r: Result<
    Vec<String>,
    Error,
>)
    requires
        old(db).wf(),
    ensures
        final(db).wf(),
        final(db)@ == old(db)@.data_modify_batch(user_id, as_entry_map(entries@)),
        r matches Ok(keys) && key_texts(keys@) == row_keys(entry_rows(entries@)),
{
    db.data_modify_batch(user_id, entries)
}

/// Deletes the entries of the user under the keys.
pub fn data_delete_batch(db: &mut Database, user_id: u64, keys: Vec<String>) -> (r: Result<
    (),
    Error,
>)
    requires
        old(db).wf(),
    ensures
        final(db).wf(),
        final(db)@ == old(db)@.data_delete_batch(user_id, key_texts(keys@).to_set()),
        r is Ok,
{
    db.data_delete_batch(user_id, keys)
}

/// Creates a form type.
pub fn form_type_create(db: &mut Database, perm: &str, content: &str, class: &str, extra: &[u8]) -> (r:
    Result<u64, Error>)
    requires
        old(db).wf(),
    ensures
        final(db).wf(),
        final(db)@ == old(db)@.form_type_create(perm@, content@, class@, extra@).0,
        r == old(db)@.form_type_create(perm@, content@, class@, extra@).1,
{
    db.form_type_create(perm, content, class, extra)
}

/// Answers a form type to a user whom its descriptor admits.
pub fn form_type_get(db: &Database, user_id: u64, form_id: u64) -> (r: Result<
    (String, String, Vec<u8>),
    Error,
>)
    requires
        db.wf(),
    ensures
        match r {
            Ok(form) => db@.form_type_get(user_id, form_id) == Ok::<
                (Seq<char>, Seq<char>, Seq<u8>),
                Error,
            >((form.0@, form.1@, form.2@)),
            Err(e) => db@.form_type_get(user_id, form_id) == Err::<
                (Seq<char>, Seq<char>, Seq<u8>),
                Error,
            >(e),
        },
{
    db.form_type_get(user_id, form_id)
}

} // verus!
