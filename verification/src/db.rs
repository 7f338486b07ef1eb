//! The transactional store behind the core.
//!
//! [`Store`] is the mathematical model: finite maps of users, groups,
//! memberships, data entries and form types, with one spec function per
//! operation that says what the operation answers and what state it leaves.
//! [`Database`] keeps the same relations in memory; each of its methods is
//! proved to compute exactly the corresponding function of the model, in one
//! step, so that no caller ever sees a half-applied operation.

use vstd::prelude::*;
use vstd::slice::*;
use vstd::string::*;
use crate::perm;
use crate::result::Error;
use crate::text::bytes_eq;
use crate::table::{
    as_map, distinct_keys, has_key, last_wins, lemma_empty, lemma_key_absent, lemma_push,
    lemma_remove, lemma_rows_in_map, lemma_take_next, lemma_take_to_set, lemma_update,
};

verus! {

/// The privilege that the owner of a group holds.
pub const MAX_PRIVILEGE: u64 = 0xffff_ffff_ffff_ffff;

/// A ciphertext and the metadata of its encryption.
pub type Blob = (Seq<u8>, Seq<u8>);

/// What the store keeps of a user besides the fingerprint.
pub struct UserRow {
    pub id: u64,
    pub hash: Seq<u8>,
}

/// What the store keeps of a form type.
pub struct FormType {
    pub perm: Seq<char>,
    pub content: Seq<char>,
    pub class: Seq<char>,
    pub extra: Seq<u8>,
}

/// The state of the store.
pub struct Store {
    /// Users by fingerprint.
    pub users: Map<Seq<u8>, UserRow>,
    /// The owner of each group.
    pub groups: Map<u64, u64>,
    /// The privilege of each `(group, user)` membership.
    pub members: Map<(u64, u64), u64>,
    /// The blob under each `(user, key)`.
    pub data: Map<(u64, Seq<char>), Blob>,
    /// Form types by id.
    pub forms: Map<u64, FormType>,
    /// The last ids handed out; the next one is one more.
    pub last_user_id: u64,
    pub last_group_id: u64,
    pub last_form_id: u64,
}

impl Store {
    /// The store that holds nothing.
    pub open spec fn empty() -> Store {
        Store {
            users: Map::empty(),
            groups: Map::empty(),
            members: Map::empty(),
            data: Map::empty(),
            forms: Map::empty(),
            last_user_id: 0,
            last_group_id: 0,
            last_form_id: 0,
        }
    }

    /// The invariant of the store: ids are nonzero, were handed out, and
    /// name one user each; every membership belongs to a group; and the
    /// owner of a group is a member of it at maximum privilege.
    pub open spec fn wf(self) -> bool {
        &&& forall|a: Seq<u8>| #[trigger]
            self.users.contains_key(a) ==> 0 < self.users[a].id <= self.last_user_id
        &&& forall|a: Seq<u8>, b: Seq<u8>|
            #![trigger self.users.contains_key(a), self.users.contains_key(b)]
            self.users.contains_key(a) && self.users.contains_key(b) && self.users[a].id
                == self.users[b].id ==> a == b
        &&& forall|g: u64| #[trigger]
            self.groups.contains_key(g) ==> {
                &&& 0 < g <= self.last_group_id
                &&& self.groups[g] != 0
                &&& self.members.contains_key((g, self.groups[g]))
                &&& self.members[(g, self.groups[g])] == MAX_PRIVILEGE
            }
        &&& forall|k: (u64, u64)| #[trigger]
            self.members.contains_key(k) ==> self.groups.contains_key(k.0) && k.1 != 0
        &&& forall|f: u64| #[trigger] self.forms.contains_key(f) ==> 0 < f <= self.last_form_id
    }

    /// Registration: a fingerprint can be registered once, and gets the
    /// next user id.
    pub open spec fn register(self, auth_id: Seq<u8>, hash: Seq<u8>) -> (Store, Result<u64, Error>) {
        if self.users.contains_key(auth_id) {
            (self, Err(Error::DuplicateIdentity))
        } else if self.last_user_id == u64::MAX {
            (self, Err(Error::BackendError))
        } else {
            let id = (self.last_user_id + 1) as u64;
            (
                Store {
                    users: self.users.insert(auth_id, UserRow { id, hash }),
                    last_user_id: id,
                    ..self
                },
                Ok(id),
            )
        }
    }

    /// Login: the user id under the fingerprint, if the hash is the one
    /// that was registered.
    pub open spec fn login(self, auth_id: Seq<u8>, hash: Seq<u8>) -> Result<u64, Error> {
        if self.users.contains_key(auth_id) && self.users[auth_id].hash == hash {
            Ok(self.users[auth_id].id)
        } else {
            Err(Error::AuthenticationFailed)
        }
    }

    /// `user_id` is the current owner of the group.
    pub open spec fn owns(self, group_id: u64, user_id: u64) -> bool {
        self.groups.contains_key(group_id) && self.groups[group_id] == user_id
    }

    /// Creation of a group together with its owning membership.
    pub open spec fn group_create(self, owner: u64) -> (Store, Result<u64, Error>) {
        if owner == 0 {
            (self, Err(Error::InvalidArgument))
        } else if self.last_group_id == u64::MAX {
            (self, Err(Error::BackendError))
        } else {
            let id = (self.last_group_id + 1) as u64;
            (
                Store {
                    groups: self.groups.insert(id, owner),
                    members: self.members.insert((id, owner), MAX_PRIVILEGE),
                    last_group_id: id,
                    ..self
                },
                Ok(id),
            )
        }
    }

    /// The memberships of every group but `group_id`.
    pub open spec fn members_without(self, group_id: u64) -> Map<(u64, u64), u64> {
        Map::new(
            |k: (u64, u64)| self.members.contains_key(k) && k.0 != group_id,
            |k: (u64, u64)| self.members[k],
        )
    }

    /// Deletion of a group with all its memberships, by its owner only.
    pub open spec fn group_delete(self, group_id: u64, requester: u64) -> (Store, Result<(), Error>) {
        if !self.owns(group_id, requester) {
            (self, Err(Error::PermissionDenied))
        } else {
            (
                Store {
                    groups: self.groups.remove(group_id),
                    members: self.members_without(group_id),
                    ..self
                },
                Ok(()),
            )
        }
    }

    /// Transfer of a group from its owner to another user, who becomes a
    /// member at maximum privilege. The former owner keeps its membership.
    pub open spec fn group_transfer_owner(self, group_id: u64, src: u64, dest: u64) -> (
        Store,
        Result<(), Error>,
    ) {
        if !self.owns(group_id, src) {
            (self, Err(Error::PermissionDenied))
        } else if dest == 0 || dest == src {
            (self, Err(Error::InvalidArgument))
        } else {
            (
                Store {
                    groups: self.groups.insert(group_id, dest),
                    members: self.members.insert((group_id, dest), MAX_PRIVILEGE),
                    ..self
                },
                Ok(()),
            )
        }
    }

    /// Setting the privilege of a user in a group. The answer is the number
    /// of rows touched: 0 where the membership already had that privilege,
    /// 1 where it was added, 2 where it was overwritten. The store refuses
    /// a group that does not exist and a privilege below the maximum for
    /// the owner.
    pub open spec fn group_member_modify(self, group_id: u64, user_id: u64, privilege: u64) -> (
        Store,
        Result<u64, Error>,
    ) {
        if group_id == 0 || user_id == 0 {
            (self, Err(Error::InvalidArgument))
        } else if !self.groups.contains_key(group_id) || (self.groups[group_id] == user_id
            && privilege != MAX_PRIVILEGE) {
            (self, Err(Error::BackendError))
        } else if !self.members.contains_key((group_id, user_id)) {
            (Store { members: self.members.insert((group_id, user_id), privilege), ..self }, Ok(1))
        } else if self.members[(group_id, user_id)] == privilege {
            (self, Ok(0))
        } else {
            (Store { members: self.members.insert((group_id, user_id), privilege), ..self }, Ok(2))
        }
    }

    /// The blobs of the user under those of the keys that exist.
    pub open spec fn data_get_batch(self, user_id: u64, keys: Set<Seq<char>>) -> Map<Seq<char>, Blob> {
        Map::new(
            |key: Seq<char>| keys.contains(key) && self.data.contains_key((user_id, key)),
            |key: Seq<char>| self.data[(user_id, key)],
        )
    }

    /// The entries of the user under the keys, in the order in which the
    /// keys are first asked for; a key that does not exist gives none.
    pub open spec fn data_select(self, user_id: u64, keys: Seq<Seq<char>>) -> Seq<(Seq<char>, Blob)>
        decreases keys.len(),
    {
        if keys.len() == 0 {
            Seq::empty()
        } else {
            let found = self.data_select(user_id, keys.drop_last());
            let key = keys.last();
            if self.data.contains_key((user_id, key)) && !has_key(found, key) {
                found.push((key, self.data[(user_id, key)]))
            } else {
                found
            }
        }
    }

    /// The store after each entry was written under its key for the user,
    /// whether the key existed or not.
    pub open spec fn data_modify_batch(self, user_id: u64, entries: Map<Seq<char>, Blob>) -> Store {
        Store {
            data: Map::new(
                |k: (u64, Seq<char>)|
                    self.data.contains_key(k) || (k.0 == user_id && entries.contains_key(k.1)),
                |k: (u64, Seq<char>)|
                    if k.0 == user_id && entries.contains_key(k.1) {
                        entries[k.1]
                    } else {
                        self.data[k]
                    },
            ),
            ..self
        }
    }

    /// The store without the entries of the user under the keys.
    pub open spec fn data_delete_batch(self, user_id: u64, keys: Set<Seq<char>>) -> Store {
        Store {
            data: Map::new(
                |k: (u64, Seq<char>)|
                    self.data.contains_key(k) && !(k.0 == user_id && keys.contains(k.1)),
                |k: (u64, Seq<char>)| self.data[k],
            ),
            ..self
        }
    }

    /// Creation of a form type, which gets the next form id.
    pub open spec fn form_type_create(
        self,
        perm: Seq<char>,
        content: Seq<char>,
        class: Seq<char>,
        extra: Seq<u8>,
    ) -> (Store, Result<u64, Error>) {
        if self.last_form_id == u64::MAX {
            (self, Err(Error::BackendError))
        } else {
            let id = (self.last_form_id + 1) as u64;
            (
                Store {
                    forms: self.forms.insert(id, FormType { perm, content, class, extra }),
                    last_form_id: id,
                    ..self
                },
                Ok(id),
            )
        }
    }

    /// The descriptor, content and extra bytes of a form type, for a user
    /// whom its descriptor admits.
    pub open spec fn form_type_get(self, user_id: u64, form_id: u64) -> Result<
        (Seq<char>, Seq<char>, Seq<u8>),
        Error,
    > {
        if self.forms.contains_key(form_id) && perm::permits(self.forms[form_id].perm, user_id) {
            Ok((self.forms[form_id].perm, self.forms[form_id].content, self.forms[form_id].extra))
        } else {
            Err(Error::PermissionDenied)
        }
    }

    /// The selected entries name each key once and are, as a map, the
    /// blobs of the user under those of the keys that exist.
    pub proof fn lemma_data_select(self, user_id: u64, keys: Seq<Seq<char>>)
        ensures
            distinct_keys(self.data_select(user_id, keys)),
            as_map(self.data_select(user_id, keys)) == self.data_get_batch(user_id, keys.to_set()),
        decreases keys.len(),
    {
        if keys.len() == 0 {
            lemma_empty(self.data_select(user_id, keys));
            assert(self.data_get_batch(user_id, keys.to_set()) =~= Map::empty());
        } else {
            let front = keys.drop_last();
            let key = keys.last();
            let found = self.data_select(user_id, front);
            self.lemma_data_select(user_id, front);
            assert(keys.take(keys.len() - 1) == front);
            lemma_take_to_set(keys, keys.len() - 1);
            assert(keys.take(keys.len() as int) == keys);
            lemma_rows_in_map(found);
            if self.data.contains_key((user_id, key)) && !has_key(found, key) {
                lemma_push(found, key, self.data[(user_id, key)]);
                assert(as_map(found).insert(key, self.data[(user_id, key)])
                    =~= self.data_get_batch(user_id, keys.to_set()));
            } else {
                assert(as_map(found) =~= self.data_get_batch(user_id, keys.to_set()));
            }
        }
    }
}

struct UserRecord {
    id: u64,
    auth_id: Vec<u8>,
    hash: Vec<u8>,
}

spec fn user_rows(records: Seq<UserRecord>) -> Seq<(Seq<u8>, UserRow)> {
    records.map_values(|r: UserRecord| (r.auth_id@, UserRow { id: r.id, hash: r.hash@ }))
}

/// A blob together with the key under which a user keeps it.
pub struct DataEntry {
    pub key: String,
    pub data: Vec<u8>,
    pub encryption: Vec<u8>,
}

impl View for DataEntry {
    type V = (Seq<char>, Blob);

    open spec fn view(&self) -> (Seq<char>, Blob) {
        (self.key@, (self.data@, self.encryption@))
    }
}

/// The entries as rows of key and blob.
pub open spec fn entry_rows(entries: Seq<DataEntry>) -> Seq<(Seq<char>, Blob)> {
    entries.map_values(|e: DataEntry| e@)
}

/// The map that the entries stand for when written one after the other.
pub open spec fn as_entry_map(entries: Seq<DataEntry>) -> Map<Seq<char>, Blob> {
    last_wins(entry_rows(entries))
}

/// The keys as texts.
pub open spec fn key_texts(keys: Seq<String>) -> Seq<Seq<char>> {
    keys.map_values(|k: String| k@)
}

/// The keys of the rows, in their order.
pub open spec fn row_keys(rows: Seq<(Seq<char>, Blob)>) -> Seq<Seq<char>> {
    rows.map_values(|r: (Seq<char>, Blob)| r.0)
}

struct DataRecord {
    user_id: u64,
    entry: DataEntry,
}

spec fn data_rows(records: Seq<DataRecord>) -> Seq<((u64, Seq<char>), Blob)> {
    records.map_values(|r: DataRecord| ((r.user_id, r.entry.key@), (r.entry.data@, r.entry.encryption@)))
}

struct FormRecord {
    id: u64,
    perm: String,
    content: String,
    class: String,
    extra: Vec<u8>,
}

spec fn form_rows(records: Seq<FormRecord>) -> Seq<(u64, FormType)> {
    records.map_values(
        |r: FormRecord|
            (r.id, FormType { perm: r.perm@, content: r.content@, class: r.class@, extra: r.extra@ }),
    )
}

/// The store, kept in memory.
pub struct Database {
    users: Vec<UserRecord>,
    groups: Vec<(u64, u64)>,
    members: Vec<((u64, u64), u64)>,
    data: Vec<DataRecord>,
    forms: Vec<FormRecord>,
    last_user_id: u64,
    last_group_id: u64,
    last_form_id: u64,
}

impl View for Database {
    type V = Store;

    closed spec fn view(&self) -> Store {
        Store {
            users: as_map(user_rows(self.users@)),
            groups: as_map(self.groups@),
            members: as_map(self.members@),
            data: as_map(data_rows(self.data@)),
            forms: as_map(form_rows(self.forms@)),
            last_user_id: self.last_user_id,
            last_group_id: self.last_group_id,
            last_form_id: self.last_form_id,
        }
    }
}

impl Database {
    /// The representation is sound: no relation holds a key twice, and the
    /// state it stands for satisfies the invariant of the store.
    pub closed spec fn wf(&self) -> bool {
        &&& self.distinct()
        &&& self@.wf()
    }

    spec fn distinct(&self) -> bool {
        &&& distinct_keys(user_rows(self.users@))
        &&& distinct_keys(self.groups@)
        &&& distinct_keys(self.members@)
        &&& distinct_keys(data_rows(self.data@))
        &&& distinct_keys(form_rows(self.forms@))
    }

    /// A sound database stands for a state that satisfies the invariant.
    pub proof fn lemma_wf(&self)
        requires
            self.wf(),
        ensures
            self@.wf(),
    {
    }

    /// An empty store.
    pub fn new() -> (db: Database)
        ensures
            db.wf(),
            db@ == Store::empty(),
    {
        let db = Database {
            users: Vec::new(),
            groups: Vec::new(),
            members: Vec::new(),
            data: Vec::new(),
            forms: Vec::new(),
            last_user_id: 0,
            last_group_id: 0,
            last_form_id: 0,
        };
        proof {
            lemma_empty(user_rows(db.users@));
            lemma_empty(db.groups@);
            lemma_empty(db.members@);
            lemma_empty(data_rows(db.data@));
            lemma_empty(form_rows(db.forms@));
        }
        db
    }

    fn find_user(&self, auth_id: &[u8]) -> (at: Option<usize>)
        ensures
            match at {
                Some(i) => i < self.users@.len() && self.users@[i as int].auth_id@ == auth_id@,
                None => forall|i: int|
                    0 <= i < self.users@.len() ==> (#[trigger] self.users@[i]).auth_id@
                        != auth_id@,
            },
    {
        let mut i: usize = 0;
        while i < self.users.len()
            invariant
                i <= self.users@.len(),
                forall|k: int| 0 <= k < i ==> (#[trigger] self.users@[k]).auth_id@ != auth_id@,
            decreases self.users.len() - i,
        {
            if bytes_eq(self.users[i].auth_id.as_slice(), auth_id) {
                return Some(i);
            }
            i += 1;
        }
        None
    }

    /// Registers a fingerprint with its secret hash and answers the new
    /// user id.
    pub fn register_user_by_nickname(&mut self, auth_id: &[u8], hash: &[u8]) -> (r: Result<
        u64,
        Error,
    >)
        requires
            old(self).wf(),
        ensures
            final(self).wf(),
            final(self)@ == old(self)@.register(auth_id@, hash@).0,
            r == old(self)@.register(auth_id@, hash@).1,
    {
        let ghost rows = user_rows(self.users@);
        proof {
            lemma_rows_in_map(rows);
        }
        match self.find_user(auth_id) {
            Some(i) => {
                assert(rows[i as int].0 == auth_id@);
                return Err(Error::DuplicateIdentity);
            },
            None => {
                proof {
                    assert forall|i: int| 0 <= i < rows.len() implies (#[trigger] rows[i]).0
                        != auth_id@ by {
                        assert(self.users@[i].auth_id@ != auth_id@);
                    }
                    lemma_key_absent(rows, auth_id@);
                }
            },
        }
        if self.last_user_id == u64::MAX {
            return Err(Error::BackendError);
        }
        let id = self.last_user_id + 1;
        self.users.push(UserRecord { id, auth_id: slice_to_vec(auth_id), hash: slice_to_vec(hash) });
        self.last_user_id = id;
        proof {
            let row = UserRow { id, hash: hash@ };
            lemma_push(rows, auth_id@, row);
            assert(user_rows(self.users@) =~= rows.push((auth_id@, row)));
            assert(self@.users == old(self)@.users.insert(auth_id@, row));
        }
        Ok(id)
    }

    /// Answers the user id registered under the fingerprint, provided the
    /// hash is the registered one.
    pub fn login_by_auth_id(&self, auth_id: &[u8], hash: &[u8]) -> (r: Result<u64, Error>)
        requires
            self.wf(),
        ensures
            r == self@.login(auth_id@, hash@),
    {
        let ghost rows = user_rows(self.users@);
        proof {
            lemma_rows_in_map(rows);
        }
        match self.find_user(auth_id) {
            Some(i) => {
                assert(rows[i as int].0 == auth_id@);
                if bytes_eq(self.users[i].hash.as_slice(), hash) {
                    Ok(self.users[i].id)
                } else {
                    Err(Error::AuthenticationFailed)
                }
            },
            None => {
                proof {
                    assert forall|k: int| 0 <= k < rows.len() implies (#[trigger] rows[k]).0
                        != auth_id@ by {
                        assert(self.users@[k].auth_id@ != auth_id@);
                    }
                    lemma_key_absent(rows, auth_id@);
                }
                Err(Error::AuthenticationFailed)
            },
        }
    }

    fn find_group(&self, group_id: u64) -> (at: Option<usize>)
        ensures
            match at {
                Some(i) => i < self.groups@.len() && self.groups@[i as int].0 == group_id,
                None => forall|i: int|
                    0 <= i < self.groups@.len() ==> (#[trigger] self.groups@[i]).0 != group_id,
            },
    {
        let mut i: usize = 0;
        while i < self.groups.len()
            invariant
                i <= self.groups@.len(),
                forall|k: int| 0 <= k < i ==> (#[trigger] self.groups@[k]).0 != group_id,
            decreases self.groups.len() - i,
        {
            if self.groups[i].0 == group_id {
                return Some(i);
            }
            i += 1;
        }
        None
    }

    fn find_member(&self, group_id: u64, user_id: u64) -> (at: Option<usize>)
        ensures
            match at {
                Some(i) => i < self.members@.len() && self.members@[i as int].0 == (
                    group_id,
                    user_id,
                ),
                None => forall|i: int|
                    0 <= i < self.members@.len() ==> (#[trigger] self.members@[i]).0 != (
                        group_id,
                        user_id,
                    ),
            },
    {
        let mut i: usize = 0;
        while i < self.members.len()
            invariant
                i <= self.members@.len(),
                forall|k: int|
                    0 <= k < i ==> (#[trigger] self.members@[k]).0 != (group_id, user_id),
            decreases self.members.len() - i,
        {
            let key = self.members[i].0;
            if key.0 == group_id && key.1 == user_id {
                return Some(i);
            }
            i += 1;
        }
        None
    }

    /// Creates a group owned by `owner` and answers its id.
    pub fn group_create(&mut self, owner: u64) -> (r: Result<u64, Error>)
        requires
            old(self).wf(),
        ensures
            final(self).wf(),
            final(self)@ == old(self)@.group_create(owner).0,
            r == old(self)@.group_create(owner).1,
    {
        if owner == 0 {
            return Err(Error::InvalidArgument);
        }
        if self.last_group_id == u64::MAX {
            return Err(Error::BackendError);
        }
        let id = self.last_group_id + 1;
        proof {
            lemma_push(self.groups@, id, owner);
            lemma_push(self.members@, (id, owner), MAX_PRIVILEGE);
        }
        self.groups.push((id, owner));
        self.members.push(((id, owner), MAX_PRIVILEGE));
        self.last_group_id = id;
        Ok(id)
    }

    /// Deletes the group and all its memberships if `requester` owns it.
    pub fn group_delete(&mut self, group_id: u64, requester: u64) -> (r: Result<(), Error>)
        requires
            old(self).wf(),
        ensures
            final(self).wf(),
            final(self)@ == old(self)@.group_delete(group_id, requester).0,
            r == old(self)@.group_delete(group_id, requester).1,
    {
        proof {
            lemma_rows_in_map(self.groups@);
        }
        let at = match self.find_group(group_id) {
            Some(i) => i,
            None => {
                proof {
                    lemma_key_absent(self.groups@, group_id);
                }
                return Err(Error::PermissionDenied);
            },
        };
        if self.groups[at].1 != requester {
            return Err(Error::PermissionDenied);
        }
        proof {
            lemma_remove(self.groups@, at as int);
        }
        self.groups.remove(at);
        let ghost before = old(self)@;
        let ghost rows = self.members@;
        let mut kept: Vec<((u64, u64), u64)> = Vec::new();
        let mut k: usize = 0;
        proof {
            lemma_empty(kept@);
            lemma_empty(rows.take(0));
        }
        while k < self.members.len()
            invariant
                rows == self.members@,
                distinct_keys(rows),
                k <= rows.len(),
                distinct_keys(kept@),
                as_map(kept@) == Map::new(
                    |key: (u64, u64)| as_map(rows.take(k as int)).contains_key(key) && key.0 != group_id,
                    |key: (u64, u64)| as_map(rows.take(k as int))[key],
                ),
            decreases rows.len() - k,
        {
            let row = self.members[k];
            proof {
                lemma_take_next(rows, k as int);
            }
            if row.0.0 != group_id {
                proof {
                    lemma_push(kept@, row.0, row.1);
                }
                kept.push(row);
            }
            k += 1;
        }
        proof {
            assert(rows.take(k as int) == rows);
            assert(as_map(kept@) == before.members_without(group_id));
        }
        self.members = kept;
        Ok(())
    }

    /// Hands the group from `src`, its owner, to `dest`.
    pub fn group_transfer_owner(&mut self, group_id: u64, src: u64, dest: u64) -> (r: Result<
        (),
        Error,
    >)
        requires
            old(self).wf(),
        ensures
            final(self).wf(),
            final(self)@ == old(self)@.group_transfer_owner(group_id, src, dest).0,
            r == old(self)@.group_transfer_owner(group_id, src, dest).1,
    {
        proof {
            lemma_rows_in_map(self.groups@);
            lemma_rows_in_map(self.members@);
        }
        let at = match self.find_group(group_id) {
            Some(i) => i,
            None => {
                proof {
                    lemma_key_absent(self.groups@, group_id);
                }
                return Err(Error::PermissionDenied);
            },
        };
        if self.groups[at].1 != src {
            return Err(Error::PermissionDenied);
        }
        if dest == 0 || dest == src {
            return Err(Error::InvalidArgument);
        }
        proof {
            lemma_update(self.groups@, at as int, dest);
        }
        self.groups.set(at, (group_id, dest));
        match self.find_member(group_id, dest) {
            Some(i) => {
                proof {
                    lemma_update(self.members@, i as int, MAX_PRIVILEGE);
                }
                self.members.set(i, ((group_id, dest), MAX_PRIVILEGE));
            },
            None => {
                proof {
                    lemma_key_absent(self.members@, (group_id, dest));
                    lemma_push(self.members@, (group_id, dest), MAX_PRIVILEGE);
                }
                self.members.push(((group_id, dest), MAX_PRIVILEGE));
            },
        }
        Ok(())
    }

    /// Sets the privilege of `user_id` in the group and answers how many
    /// rows that touched.
    pub fn group_member_modify(&mut self, group_id: u64, user_id: u64, privilege: u64) -> (r:
        Result<u64, Error>)
        requires
            old(self).wf(),
        ensures
            final(self).wf(),
            final(self)@ == old(self)@.group_member_modify(group_id, user_id, privilege).0,
            r == old(self)@.group_member_modify(group_id, user_id, privilege).1,
    {
        if group_id == 0 || user_id == 0 {
            return Err(Error::InvalidArgument);
        }
        proof {
            lemma_rows_in_map(self.groups@);
            lemma_rows_in_map(self.members@);
        }
        let at = match self.find_group(group_id) {
            Some(i) => i,
            None => {
                proof {
                    lemma_key_absent(self.groups@, group_id);
                }
                return Err(Error::BackendError);
            },
        };
        if self.groups[at].1 == user_id && privilege != MAX_PRIVILEGE {
            return Err(Error::BackendError);
        }
        match self.find_member(group_id, user_id) {
            Some(i) => {
                if self.members[i].1 == privilege {
                    Ok(0)
                } else {
                    proof {
                        lemma_update(self.members@, i as int, privilege);
                    }
                    self.members.set(i, ((group_id, user_id), privilege));
                    Ok(2)
                }
            },
            None => {
                proof {
                    lemma_key_absent(self.members@, (group_id, user_id));
                    lemma_push(self.members@, (group_id, user_id), privilege);
                }
                self.members.push(((group_id, user_id), privilege));
                Ok(1)
            },
        }
    }

    fn find_data(&self, user_id: u64, key: &String) -> (at: Option<usize>)
        ensures
            match at {
                Some(i) => i < self.data@.len() && data_rows(self.data@)[i as int].0 == (
                    user_id,
                    key@,
                ),
                None => forall|i: int|
                    0 <= i < self.data@.len() ==> (#[trigger] data_rows(self.data@)[i]).0 != (
                        user_id,
                        key@,
                    ),
            },
    {
        let mut i: usize = 0;
        while i < self.data.len()
            invariant
                i <= self.data@.len(),
                forall|k: int|
                    0 <= k < i ==> (#[trigger] data_rows(self.data@)[k]).0 != (user_id, key@),
            decreases self.data.len() - i,
        {
            if self.data[i].user_id == user_id && self.data[i].entry.key == *key {
                return Some(i);
            }
            i += 1;
        }
        None
    }

    /// Answers the entries of the user under the keys, leaving out the keys
    /// that do not exist.
    pub fn data_get_batch(&self, user_id: u64, keys: Vec<String>) -> (r: Result<
        Vec<DataEntry>,
        Error,
    >)
        requires
            self.wf(),
        ensures
            match r {
                Ok(entries) => {
                    &&& entry_rows(entries@) == self@.data_select(user_id, key_texts(keys@))
                    &&& distinct_keys(entry_rows(entries@))
                    &&& as_map(entry_rows(entries@)) == self@.data_get_batch(
                        user_id,
                        key_texts(keys@).to_set(),
                    )
                },
                Err(_) => false,
            },
    {
        let ghost texts = key_texts(keys@);
        let ghost rows = data_rows(self.data@);
        proof {
            lemma_rows_in_map(rows);
        }
        let mut out: Vec<DataEntry> = Vec::new();
        let mut i: usize = 0;
        proof {
            assert(entry_rows(out@) =~= self@.data_select(user_id, texts.take(0)));
        }
        while i < keys.len()
            invariant
                i <= keys@.len(),
                texts == key_texts(keys@),
                rows == data_rows(self.data@),
                self@.data == as_map(rows),
                forall|k: int|
                    0 <= k < rows.len() ==> as_map(rows).contains_key((#[trigger] rows[k]).0)
                        && as_map(rows)[rows[k].0] == rows[k].1,
                entry_rows(out@) == self@.data_select(user_id, texts.take(i as int)),
            decreases keys.len() - i,
        {
            let key = &keys[i];
            proof {
                assert(texts.take(i + 1).drop_last() == texts.take(i as int));
                assert(texts.take(i + 1).last() == key@);
            }
            match self.find_data(user_id, key) {
                Some(at) => {
                    if !holds_key(&out, key) {
                        let ghost found = entry_rows(out@);
                        let record = &self.data[at];
                        out.push(
                            DataEntry {
                                key: key.clone(),
                                data: slice_to_vec(record.entry.data.as_slice()),
                                encryption: slice_to_vec(record.entry.encryption.as_slice()),
                            },
                        );
                        proof {
                            assert(rows[at as int].0 == (user_id, key@));
                            assert(entry_rows(out@) =~= found.push((key@, rows[at as int].1)));
                        }
                    }
                },
                None => {
                    proof {
                        lemma_key_absent(rows, (user_id, key@));
                    }
                },
            }
            i += 1;
        }
        proof {
            assert(texts.take(i as int) == texts);
            self@.lemma_data_select(user_id, texts);
        }
        Ok(out)
    }

    /// Writes each entry under its key for the user and answers the keys
    /// written, in the order of the entries. Where a key occurs twice the
    /// later entry stays.
    pub fn data_modify_batch(&mut self, user_id: u64, entries: Vec<DataEntry>) -> (r: Result<
        Vec<String>,
        Error,
    >)
        requires
            old(self).wf(),
        ensures
            final(self).wf(),
            final(self)@ == old(self)@.data_modify_batch(user_id, as_entry_map(entries@)),
            r matches Ok(keys) && key_texts(keys@) == row_keys(entry_rows(entries@)),
    {
        let ghost before = self@;
        let ghost given = entry_rows(entries@);
        let mut written: Vec<String> = Vec::new();
        let mut i: usize = 0;
        proof {
            assert(before.data =~= before.data_modify_batch(user_id, last_wins(given.take(0))).data);
            assert(key_texts(written@) =~= row_keys(given.take(0)));
        }
        while i < entries.len()
            invariant
                i <= entries@.len(),
                given == entry_rows(entries@),
                self.distinct(),
                self@ == (Store { data: self@.data, ..before }),
                self@.data == before.data_modify_batch(
                    user_id,
                    last_wins(given.take(i as int)),
                ).data,
                key_texts(written@) == row_keys(given.take(i as int)),
            decreases entries.len() - i,
        {
            let entry = &entries[i];
            let ghost rows = data_rows(self.data@);
            let ghost done = last_wins(given.take(i as int));
            let ghost texts = key_texts(written@);
            proof {
                assert(given.take(i + 1).drop_last() == given.take(i as int));
                assert(given.take(i + 1).last() == entry@);
                assert(before.data_modify_batch(user_id, done.insert(entry@.0, entry@.1)).data
                    =~= before.data_modify_batch(user_id, done).data.insert(
                    (user_id, entry@.0),
                    entry@.1,
                ));
            }
            let record = DataRecord {
                user_id,
                entry: DataEntry {
                    key: entry.key.clone(),
                    data: slice_to_vec(entry.data.as_slice()),
                    encryption: slice_to_vec(entry.encryption.as_slice()),
                },
            };
            match self.find_data(user_id, &entry.key) {
                Some(at) => {
                    proof {
                        lemma_update(rows, at as int, entry@.1);
                    }
                    self.data.set(at, record);
                    proof {
                        assert(data_rows(self.data@) =~= rows.update(
                            at as int,
                            (rows[at as int].0, entry@.1),
                        ));
                    }
                },
                None => {
                    proof {
                        lemma_key_absent(rows, (user_id, entry@.0));
                        lemma_push(rows, (user_id, entry@.0), entry@.1);
                    }
                    self.data.push(record);
                    proof {
                        assert(data_rows(self.data@) =~= rows.push(((user_id, entry@.0), entry@.1)));
                    }
                },
            }
            written.push(entry.key.clone());
            proof {
                assert(key_texts(written@) =~= texts.push(entry@.0));
                assert(row_keys(given.take(i + 1)) =~= row_keys(given.take(i as int)).push(
                    entry@.0,
                ));
            }
            i += 1;
        }
        proof {
            assert(given.take(i as int) == given);
        }
        Ok(written)
    }

    /// Deletes the entries of the user under the keys. A key that does not
    /// exist is passed over.
    pub fn data_delete_batch(&mut self, user_id: u64, keys: Vec<String>) -> (r: Result<(), Error>)
        requires
            old(self).wf(),
        ensures
            final(self).wf(),
            final(self)@ == old(self)@.data_delete_batch(user_id, key_texts(keys@).to_set()),
            r is Ok,
    {
        let ghost before = self@;
        let ghost texts = key_texts(keys@);
        let mut i: usize = 0;
        proof {
            assert(texts.take(0).to_set() =~= Set::empty());
            assert(before.data =~= before.data_delete_batch(user_id, texts.take(0).to_set()).data);
        }
        while i < keys.len()
            invariant
                i <= keys@.len(),
                texts == key_texts(keys@),
                self.distinct(),
                self@ == (Store { data: self@.data, ..before }),
                self@.data == before.data_delete_batch(
                    user_id,
                    texts.take(i as int).to_set(),
                ).data,
            decreases keys.len() - i,
        {
            let key = &keys[i];
            let ghost rows = data_rows(self.data@);
            let ghost gone = texts.take(i as int).to_set();
            proof {
                lemma_take_to_set(texts, i as int);
                lemma_rows_in_map(rows);
            }
            match self.find_data(user_id, key) {
                Some(at) => {
                    proof {
                        lemma_remove(rows, at as int);
                    }
                    self.data.remove(at);
                    proof {
                        assert(data_rows(self.data@) =~= rows.remove(at as int));
                        assert(before.data_delete_batch(user_id, gone.insert(key@)).data
                            =~= before.data_delete_batch(user_id, gone).data.remove(
                            (user_id, key@),
                        ));
                    }
                },
                None => {
                    proof {
                        lemma_key_absent(rows, (user_id, key@));
                        assert(before.data_delete_batch(user_id, gone.insert(key@)).data
                            =~= before.data_delete_batch(user_id, gone).data);
                    }
                },
            }
            i += 1;
        }
        proof {
            assert(texts.take(i as int) == texts);
        }
        Ok(())
    }

    fn find_form(&self, form_id: u64) -> (at: Option<usize>)
        ensures
            match at {
                Some(i) => i < self.forms@.len() && self.forms@[i as int].id == form_id,
                None => forall|i: int|
                    0 <= i < self.forms@.len() ==> (#[trigger] self.forms@[i]).id != form_id,
            },
    {
        let mut i: usize = 0;
        while i < self.forms.len()
            invariant
                i <= self.forms@.len(),
                forall|k: int| 0 <= k < i ==> (#[trigger] self.forms@[k]).id != form_id,
            decreases self.forms.len() - i,
        {
            if self.forms[i].id == form_id {
                return Some(i);
            }
            i += 1;
        }
        None
    }

    /// Creates a form type and answers its id.
    pub fn form_type_create(&mut self, perm: &str, content: &str, class: &str, extra: &[u8]) -> (r:
        Result<u64, Error>)
        requires
            old(self).wf(),
        ensures
            final(self).wf(),
            final(self)@ == old(self)@.form_type_create(perm@, content@, class@, extra@).0,
            r == old(self)@.form_type_create(perm@, content@, class@, extra@).1,
    {
        if self.last_form_id == u64::MAX {
            return Err(Error::BackendError);
        }
        let id = self.last_form_id + 1;
        let ghost rows = form_rows(self.forms@);
        let ghost form = FormType { perm: perm@, content: content@, class: class@, extra: extra@ };
        proof {
            lemma_rows_in_map(rows);
            lemma_push(rows, id, form);
        }
        self.forms.push(
            FormRecord {
                id,
                perm: perm.to_owned(),
                content: content.to_owned(),
                class: class.to_owned(),
                extra: slice_to_vec(extra),
            },
        );
        self.last_form_id = id;
        proof {
            assert(form_rows(self.forms@) =~= rows.push((id, form)));
        }
        Ok(id)
    }

    /// Answers the descriptor, content and extra bytes of a form type, after
    /// checking that its descriptor admits the user.
    pub fn form_type_get(&self, user_id: u64, form_id: u64) -> (r: Result<
        (String, String, Vec<u8>),
        Error,
    >)
        requires
            self.wf(),
        ensures
            match r {
                Ok(form) => self@.form_type_get(user_id, form_id) == Ok::<
                    (Seq<char>, Seq<char>, Seq<u8>),
                    Error,
                >((form.0@, form.1@, form.2@)),
                Err(e) => self@.form_type_get(user_id, form_id) == Err::<
                    (Seq<char>, Seq<char>, Seq<u8>),
                    Error,
                >(e),
            },
    {
        let ghost rows = form_rows(self.forms@);
        proof {
            lemma_rows_in_map(rows);
        }
        match self.find_form(form_id) {
            Some(at) => {
                let record = &self.forms[at];
                assert(rows[at as int].0 == form_id);
                if perm::check(record.perm.as_str(), user_id) {
                    Ok(
                        (
                            record.perm.clone(),
                            record.content.clone(),
                            slice_to_vec(record.extra.as_slice()),
                        ),
                    )
                } else {
                    Err(Error::PermissionDenied)
                }
            },
            None => {
                proof {
                    assert forall|k: int| 0 <= k < rows.len() implies (#[trigger] rows[k]).0
                        != form_id by {
                        assert(self.forms@[k].id != form_id);
                    }
                    lemma_key_absent(rows, form_id);
                }
                Err(Error::PermissionDenied)
            },
        }
    }
}

fn holds_key(entries: &Vec<DataEntry>, key: &String) -> (held: bool)
    ensures
        held == has_key(entry_rows(entries@), key@),
{
    let mut i: usize = 0;
    while i < entries.len()
        invariant
            i <= entries@.len(),
            forall|k: int| 0 <= k < i ==> (#[trigger] entry_rows(entries@)[k]).0 != key@,
        decreases entries.len() - i,
    {
        if entries[i].key == *key {
            assert(entry_rows(entries@)[i as int].0 == key@);
            return true;
        }
        i += 1;
    }
    false
}

} // verus!
