//! What holds of the store across operations.
//!
//! Each statement is about the model of the store and the outcomes that the
//! operations are proved to compute, so it holds of every run of the
//! verified operations.

use vstd::prelude::*;
use crate::app_api::{api_191017, api_191103};
use crate::db::{Blob, Store, MAX_PRIVILEGE};
use crate::group::{member_modified, MemberOutcome};
use crate::result::Error;

verus! {

/// Every operation leaves the invariant of the store in place: after it,
/// the owner of each group is still a member of it at maximum privilege,
/// and every membership still belongs to a group.
pub proof fn lemma_invariant_kept(
    s: Store,
    auth_id: Seq<u8>,
    hash: Seq<u8>,
    group_id: u64,
    user_id: u64,
    other_id: u64,
    privilege: u64,
    keys: Set<Seq<char>>,
    entries: Map<Seq<char>, Blob>,
    perm: Seq<char>,
    content: Seq<char>,
    class: Seq<char>,
    extra: Seq<u8>,
)
    requires
        s.wf(),
    ensures
        Store::empty().wf(),
        s.register(auth_id, hash).0.wf(),
        s.group_create(user_id).0.wf(),
        s.group_delete(group_id, user_id).0.wf(),
        s.group_transfer_owner(group_id, user_id, other_id).0.wf(),
        s.group_member_modify(group_id, user_id, privilege).0.wf(),
        s.data_modify_batch(user_id, entries).wf(),
        s.data_delete_batch(user_id, keys).wf(),
        s.form_type_create(perm, content, class, extra).0.wf(),
{
}

/// A registration that succeeds answers a nonzero user id, and a login
/// with the same fingerprint and hash right after it answers that id.
pub proof fn lemma_register_then_login(s: Store, auth_id: Seq<u8>, hash: Seq<u8>)
    ensures
        s.register(auth_id, hash).1 matches Ok(id) ==> id != 0 && s.register(
            auth_id,
            hash,
        ).0.login(auth_id, hash) == Ok::<u64, Error>(id),
{
}

/// The same holds through either version of the interface: who registers
/// under a nickname logs in under it, with the same hash text, as the same
/// nonzero user.
pub proof fn lemma_register_then_login_by_name(s: Store, name: Seq<char>, hash_base64: Seq<char>)
    ensures
        api_191017::registered(s, name, hash_base64).1 matches Ok(id) ==> id != 0
            && api_191017::logged_in(
            api_191017::registered(s, name, hash_base64).0,
            name,
            hash_base64,
        ) == Ok::<u64, Error>(id),
        api_191103::registered(s, name, hash_base64).1 matches Ok(id) ==> id != 0
            && api_191103::logged_in(
            api_191103::registered(s, name, hash_base64).0,
            name,
            hash_base64,
        ) == Ok::<u64, Error>(id),
{
}

/// Setting a privilege for a user who is not yet a member adds the
/// membership; setting the same privilege again changes nothing.
pub proof fn lemma_modify_member_again(s: Store, group_id: u64, user_id: u64, privilege: u64)
    requires
        s.wf(),
        user_id != 0,
        s.groups.contains_key(group_id),
        !s.members.contains_key((group_id, user_id)),
    ensures
        member_modified(s, group_id, user_id, privilege).1 == Ok::<MemberOutcome, Error>(
            MemberOutcome::Added,
        ),
        member_modified(
            member_modified(s, group_id, user_id, privilege).0,
            group_id,
            user_id,
            privilege,
        ) == (
            member_modified(s, group_id, user_id, privilege).0,
            Ok::<MemberOutcome, Error>(MemberOutcome::Unchanged),
        ),
{
}

/// Setting a privilege for a user who is not yet a member adds the
/// membership; setting another privilege after it overwrites the
/// membership, and is never answered as a second addition.
pub proof fn lemma_modify_member_other(
    s: Store,
    group_id: u64,
    user_id: u64,
    first: u64,
    second: u64,
)
    requires
        s.wf(),
        user_id != 0,
        s.groups.contains_key(group_id),
        !s.members.contains_key((group_id, user_id)),
        second != first,
    ensures
        member_modified(s, group_id, user_id, first).1 == Ok::<MemberOutcome, Error>(
            MemberOutcome::Added,
        ),
        member_modified(
            member_modified(s, group_id, user_id, first).0,
            group_id,
            user_id,
            second,
        ).1 == Ok::<MemberOutcome, Error>(MemberOutcome::Updated),
        member_modified(
            member_modified(s, group_id, user_id, first).0,
            group_id,
            user_id,
            second,
        ).0.members[(group_id, user_id)] == second,
{
}

/// The store never answers a count of touched rows outside its contract.
pub proof fn lemma_touched_rows_in_contract(s: Store, group_id: u64, user_id: u64, privilege: u64)
    ensures
        s.group_member_modify(group_id, user_id, privilege).1 matches Ok(rows) ==> rows <= 2,
        member_modified(s, group_id, user_id, privilege).1 != Err::<MemberOutcome, Error>(
            Error::FatalBackendInconsistency,
        ),
{
}

/// A deletion asked for by anyone but the owner is denied and changes
/// nothing: the group and all memberships stay as they are.
pub proof fn lemma_delete_by_other_denied(s: Store, group_id: u64, user_id: u64)
    requires
        !s.owns(group_id, user_id),
    ensures
        s.group_delete(group_id, user_id) == (s, Err::<(), Error>(Error::PermissionDenied)),
{
}

/// A deletion by the owner removes the group and every membership in it,
/// and no other.
pub proof fn lemma_delete_by_owner(s: Store, group_id: u64, user_id: u64, other: (u64, u64))
    requires
        s.owns(group_id, user_id),
    ensures
        s.group_delete(group_id, user_id).1 == Ok::<(), Error>(()),
        !s.group_delete(group_id, user_id).0.groups.contains_key(group_id),
        s.group_delete(group_id, user_id).0.members.contains_key(other) <==> (
        s.members.contains_key(other) && other.0 != group_id),
{
}

/// After a transfer the former owner can no longer delete the group, the
/// new owner can, and once the group is deleted the former owner is denied
/// again.
pub proof fn lemma_transfer_then_delete(s: Store, group_id: u64, src: u64, dest: u64)
    requires
        s.owns(group_id, src),
        dest != 0,
        dest != src,
    ensures
        s.group_transfer_owner(group_id, src, dest).1 == Ok::<(), Error>(()),
        s.group_transfer_owner(group_id, src, dest).0.owns(group_id, dest),
        s.group_transfer_owner(group_id, src, dest).0.members[(group_id, dest)] == MAX_PRIVILEGE,
        s.group_transfer_owner(group_id, src, dest).0.group_delete(group_id, src).1 == Err::<
            (),
            Error,
        >(Error::PermissionDenied),
        s.group_transfer_owner(group_id, src, dest).0.group_delete(group_id, dest).1 == Ok::<
            (),
            Error,
        >(()),
        s.group_transfer_owner(group_id, src, dest).0.group_delete(group_id, dest).0.group_delete(
            group_id,
            src,
        ).1 == Err::<(), Error>(Error::PermissionDenied),
{
}

/// The blob that a user keeps under a key once a batch was written: the
/// one just written, or else the one that was there before, if any.
pub open spec fn blob_after(
    s: Store,
    user_id: u64,
    entries: Map<Seq<char>, Blob>,
    key: Seq<char>,
) -> Option<Blob> {
    if entries.contains_key(key) {
        Some(entries[key])
    } else if s.data.contains_key((user_id, key)) {
        Some(s.data[(user_id, key)])
    } else {
        None
    }
}

/// What a user reads back after a batch was written: under each key asked
/// for, the blob just written, or else the blob that was there before; a
/// key under which nothing is kept is left out. Where nothing was kept
/// before under the keys asked for, what is read back is the batch itself,
/// cut down to those keys.
pub proof fn lemma_modify_then_get(
    s: Store,
    user_id: u64,
    entries: Map<Seq<char>, Blob>,
    keys: Set<Seq<char>>,
)
    ensures
        forall|key: Seq<char>| #[trigger]
            s.data_modify_batch(user_id, entries).data_get_batch(user_id, keys).contains_key(key)
                <==> keys.contains(key) && blob_after(s, user_id, entries, key) is Some,
        forall|key: Seq<char>| #[trigger]
            s.data_modify_batch(user_id, entries).data_get_batch(user_id, keys).contains_key(key)
                ==> Some(s.data_modify_batch(user_id, entries).data_get_batch(user_id, keys)[key])
                == blob_after(s, user_id, entries, key),
        (forall|key: Seq<char>|
            keys.contains(key) && s.data.contains_key((user_id, key)) ==> entries.contains_key(key))
            ==> s.data_modify_batch(user_id, entries).data_get_batch(user_id, keys)
            == entries.restrict(keys),
{
    let read = s.data_modify_batch(user_id, entries).data_get_batch(user_id, keys);
    if forall|key: Seq<char>|
        keys.contains(key) && s.data.contains_key((user_id, key)) ==> entries.contains_key(key) {
        assert(read =~= entries.restrict(keys));
    }
}

/// A batch written for one user leaves the entries of every other user as
/// they were.
pub proof fn lemma_modify_leaves_others(
    s: Store,
    user_id: u64,
    entries: Map<Seq<char>, Blob>,
    other_id: u64,
    keys: Set<Seq<char>>,
)
    requires
        other_id != user_id,
    ensures
        s.data_modify_batch(user_id, entries).data_get_batch(other_id, keys) == s.data_get_batch(
            other_id,
            keys,
        ),
{
    assert(s.data_modify_batch(user_id, entries).data_get_batch(other_id, keys)
        =~= s.data_get_batch(other_id, keys));
}

/// After a deletion nothing is read under the deleted keys, and a second
/// deletion of the same keys changes nothing.
pub proof fn lemma_delete_again(s: Store, user_id: u64, keys: Set<Seq<char>>)
    ensures
        s.data_delete_batch(user_id, keys).data_get_batch(user_id, keys) == Map::<
            Seq<char>,
            Blob,
        >::empty(),
        s.data_delete_batch(user_id, keys).data_delete_batch(user_id, keys) == s.data_delete_batch(
            user_id,
            keys,
        ),
{
    let once = s.data_delete_batch(user_id, keys);
    assert(once.data_get_batch(user_id, keys) =~= Map::<Seq<char>, Blob>::empty());
    assert(once.data_delete_batch(user_id, keys).data =~= once.data);
}

} // verus!
