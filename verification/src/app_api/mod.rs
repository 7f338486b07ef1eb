//! The versions of the interface.
//!
//! Each version is a fixed set of operations. A later version holds every
//! operation of the earlier one, with the same answers, and may hold more.
//! A request names its version; one that names none, or one that does not
//! exist, is refused before any operation runs.

pub mod api_191017;
pub mod api_191103;

use vstd::prelude::*;
use crate::db::Store;
use crate::result::Error;
use crate::text::text_eq;

verus! {

/// A version of the interface.
#[derive(Clone, Copy, Debug, PartialEq, Eq, Structural)]
pub enum ApiVersion {
    V191017,
    V191103,
}

/// An operation of the interface.
#[derive(Clone, Copy, Debug, PartialEq, Eq, Structural)]
pub enum Operation {
    RegisterUserByNickname,
    LoginByAuthId,
    GroupCreate,
    GroupDelete,
    GroupTransferOwner,
    DataGetBatch,
    DataModifyBatch,
    DataDeleteBatch,
    FormTypeCreate,
    FormTypeGet,
}

impl ApiVersion {
    /// The name by which a request selects the version.
    pub open spec fn spec_name(&self) -> Seq<char> {
        match self {
            ApiVersion::V191017 => api_191017::VERSION@,
            ApiVersion::V191103 => api_191103::VERSION@,
        }
    }

    /// The version holds the operation.
    pub open spec fn spec_supports(&self, operation: Operation) -> bool {
        match self {
            ApiVersion::V191017 => operation == Operation::RegisterUserByNickname || operation
                == Operation::LoginByAuthId || operation == Operation::GroupCreate || operation
                == Operation::GroupDelete,
            ApiVersion::V191103 => true,
        }
    }

    /// The name by which a request selects the version.
    pub fn name(&self) -> (n: &'static str)
        ensures
            n@ == self.spec_name(),
    {
        match self {
            ApiVersion::V191017 => api_191017::VERSION,
            ApiVersion::V191103 => api_191103::VERSION,
        }
    }

    /// Decides whether the version holds the operation.
    #[verifier::when_used_as_spec(spec_supports)]
    pub fn supports(&self, operation: Operation) -> (held: bool)
        ensures
            held == self.spec_supports(operation),
    {
        match self {
            ApiVersion::V191017 => match operation {
                Operation::RegisterUserByNickname => true,
                Operation::LoginByAuthId => true,
                Operation::GroupCreate => true,
                Operation::GroupDelete => true,
                _ => false,
            },
            ApiVersion::V191103 => true,
        }
    }
}

/// The version that a discriminator selects.
pub open spec fn selected(discriminator: Option<Seq<char>>) -> Result<ApiVersion, Error> {
    match discriminator {
        Some(tag) => if tag == api_191017::VERSION@ {
            Ok(ApiVersion::V191017)
        } else if tag == api_191103::VERSION@ {
            Ok(ApiVersion::V191103)
        } else {
            Err(Error::BadRequest)
        },
        None => Err(Error::BadRequest),
    }
}

/// The version under which a request for the operation runs, if the
/// discriminator selects one that holds it.
pub open spec fn routed(discriminator: Option<Seq<char>>, operation: Operation) -> Result<
    ApiVersion,
    Error,
> {
    match selected(discriminator) {
        Ok(version) => if version.spec_supports(operation) {
            Ok(version)
        } else {
            Err(Error::BadRequest)
        },
        Err(e) => Err(e),
    }
}

/// The text of a discriminator, if there is one.
pub open spec fn tag_text(discriminator: Option<&str>) -> Option<Seq<char>> {
    match discriminator {
        Some(tag) => Some(tag@),
        None => None,
    }
}

/// Selects the version that a request names.
pub fn select_version(discriminator: Option<&str>) -> (r: Result<ApiVersion, Error>)
    ensures
        r == selected(tag_text(discriminator)),
{
    match discriminator {
        Some(tag) => {
            if text_eq(tag, api_191017::VERSION) {
                Ok(ApiVersion::V191017)
            } else if text_eq(tag, api_191103::VERSION) {
                Ok(ApiVersion::V191103)
            } else {
                Err(Error::BadRequest)
            }
        },
        None => Err(Error::BadRequest),
    }
}

/// Selects the version that a request names and refuses the request where
/// that version does not hold the operation.
pub fn route(discriminator: Option<&str>, operation: Operation) -> (r: Result<ApiVersion, Error>)
    ensures
        r == routed(tag_text(discriminator), operation),
{
    match select_version(discriminator) {
        Ok(version) => {
            if version.supports(operation) {
                Ok(version)
            } else {
                Err(Error::BadRequest)
            }
        },
        Err(e) => Err(e),
    }
}

/// A version is selected by its own name and by no other.
pub proof fn lemma_name_selects_version(version: ApiVersion)
    ensures
        selected(Some(version.spec_name())) == Ok::<ApiVersion, Error>(version),
{
    reveal_strlit("2019-10-17");
    reveal_strlit("2019-11-03");
    assert("2019-10-17"@[6] != "2019-11-03"@[6]);
}

/// The later version holds every operation of the earlier one.
pub proof fn lemma_versions_additive(operation: Operation)
    ensures
        ApiVersion::V191017.spec_supports(operation) ==> ApiVersion::V191103.spec_supports(
            operation,
        ),
{
}

/// Registration, login, and the creation and deletion of groups are
/// answered alike, and leave the same state, whichever of the two versions
/// a request is routed to.
pub proof fn lemma_inherited_operations_agree(
    s: Store,
    name: Seq<char>,
    hash_base64: Seq<char>,
    group_id: u64,
    user_id: u64,
)
    ensures
        api_191103::registered(s, name, hash_base64) == api_191017::registered(s, name, hash_base64),
        api_191103::logged_in(s, name, hash_base64) == api_191017::logged_in(s, name, hash_base64),
        api_191103::group_created(s, user_id) == api_191017::group_created(s, user_id),
        api_191103::group_deleted(s, group_id, user_id) == api_191017::group_deleted(
            s,
            group_id,
            user_id,
        ),
{
}

} // verus!
