//! Batched access to a user's encrypted entries, as the transport sees it.
//!
//! The transport carries each blob as base64 text. A request is served for
//! the user that the session names; without one it is refused. Texts are
//! decoded before the store is asked, so that a request with a text that
//! does not decode changes nothing.

use vstd::prelude::*;
use vstd::string::*;
use crate::app_api::api_191103;
use crate::db::{entry_rows, key_texts, row_keys, Blob, DataEntry, Database};
use crate::encoding::{base64_decoded, base64_encoded, decode_blob, encode_blob};
use crate::http_api::{error_response, failure, ErrorResponse};
use crate::result::Error;
use crate::table::last_wins;

verus! {

/// A key with its ciphertext and encryption metadata, both in base64.
pub struct EncodedEntry {
    pub key: String,
    pub data: String,
    pub encryption: String,
}

impl View for EncodedEntry {
    type V = (Seq<char>, (Seq<char>, Seq<char>));

    open spec fn view(&self) -> (Seq<char>, (Seq<char>, Seq<char>)) {
        (self.key@, (self.data@, self.encryption@))
    }
}

/// The entries as rows of key and texts.
pub open spec fn encoded_rows(entries: Seq<EncodedEntry>) -> Seq<
    (Seq<char>, (Seq<char>, Seq<char>)),
> {
    entries.map_values(|e: EncodedEntry| e@)
}

/// A row with both parts of its blob in base64.
pub open spec fn encode_row(row: (Seq<char>, Blob)) -> (Seq<char>, (Seq<char>, Seq<char>)) {
    (row.0, (base64_encoded(row.1.0), base64_encoded(row.1.1)))
}

/// The rows, each encoded.
pub open spec fn encode_rows(rows: Seq<(Seq<char>, Blob)>) -> Seq<
    (Seq<char>, (Seq<char>, Seq<char>)),
> {
    rows.map_values(|row: (Seq<char>, Blob)| encode_row(row))
}

/// The row that the texts stand for, if both decode.
pub open spec fn decode_row(row: (Seq<char>, (Seq<char>, Seq<char>))) -> Option<(Seq<char>, Blob)> {
    match (base64_decoded(row.1.0), base64_decoded(row.1.1)) {
        (Some(data), Some(encryption)) => Some((row.0, (data, encryption))),
        _ => None,
    }
}

/// The rows that the texts stand for, if all of them decode.
pub open spec fn decode_rows(rows: Seq<(Seq<char>, (Seq<char>, Seq<char>))>) -> Option<
    Seq<(Seq<char>, Blob)>,
>
    decreases rows.len(),
{
    if rows.len() == 0 {
        Some(Seq::empty())
    } else {
        match (decode_rows(rows.drop_last()), decode_row(rows.last())) {
            (Some(front), Some(last)) => Some(front.push(last)),
            _ => None,
        }
    }
}

proof fn lemma_undecodable_prefix(rows: Seq<(Seq<char>, (Seq<char>, Seq<char>))>, n: int)
    requires
        0 <= n <= rows.len(),
        decode_rows(rows.take(n)) is None,
    ensures
        decode_rows(rows) is None,
    decreases rows.len() - n,
{
    if n < rows.len() {
        assert(rows.take(n + 1).drop_last() == rows.take(n));
        lemma_undecodable_prefix(rows, n + 1);
    } else {
        assert(rows.take(n) == rows);
    }
}

/// Encodes the blobs of the entries for the transport.
pub fn encode_entries(entries: &Vec<DataEntry>) -> (out: Vec<EncodedEntry>)
    ensures
        encoded_rows(out@) == encode_rows(entry_rows(entries@)),
{
    let mut out: Vec<EncodedEntry> = Vec::new();
    let mut i: usize = 0;
    while i < entries.len()
        invariant
            i <= entries@.len(),
            encoded_rows(out@) == encode_rows(entry_rows(entries@).take(i as int)),
        decreases entries.len() - i,
    {
        let entry = &entries[i];
        let ghost done = encoded_rows(out@);
        out.push(
            EncodedEntry {
                key: entry.key.clone(),
                data: encode_blob(entry.data.as_slice()),
                encryption: encode_blob(entry.encryption.as_slice()),
            },
        );
        proof {
            assert(encoded_rows(out@) =~= done.push(encode_row(entry@)));
            assert(encode_rows(entry_rows(entries@).take(i + 1)) =~= encode_rows(
                entry_rows(entries@).take(i as int),
            ).push(encode_row(entry@)));
        }
        i += 1;
    }
    proof {
        assert(entry_rows(entries@).take(i as int) == entry_rows(entries@));
    }
    out
}

/// Decodes the blobs of the entries. One text that does not decode makes
/// the whole request a bad one.
pub fn decode_entries(entries: &Vec<EncodedEntry>) -> (r: Result<Vec<DataEntry>, Error>)
    ensures
        match decode_rows(encoded_rows(entries@)) {
            Some(rows) => r matches Ok(decoded) && entry_rows(decoded@) == rows,
            None => r matches Err(e) && e == Error::BadRequest,
        },
{
    let ghost given = encoded_rows(entries@);
    let mut out: Vec<DataEntry> = Vec::new();
    let mut i: usize = 0;
    while i < entries.len()
        invariant
            i <= entries@.len(),
            given == encoded_rows(entries@),
            decode_rows(given.take(i as int)) == Some(entry_rows(out@)),
        decreases entries.len() - i,
    {
        let entry = &entries[i];
        let ghost done = entry_rows(out@);
        proof {
            assert(given.take(i + 1).drop_last() == given.take(i as int));
            assert(given.take(i + 1).last() == entry@);
        }
        let data = match decode_blob(entry.data.as_str()) {
            Ok(bytes) => bytes,
            Err(e) => {
                proof {
                    lemma_undecodable_prefix(given, i + 1);
                }
                return Err(e);
            },
        };
        let encryption = match decode_blob(entry.encryption.as_str()) {
            Ok(bytes) => bytes,
            Err(e) => {
                proof {
                    lemma_undecodable_prefix(given, i + 1);
                }
                return Err(e);
            },
        };
        out.push(DataEntry { key: entry.key.clone(), data, encryption });
        proof {
            assert(entry_rows(out@) =~= done.push((entry@.0, (data@, encryption@))));
        }
        i += 1;
    }
    proof {
        assert(given.take(i as int) == given);
    }
    Ok(out)
}

/// A request for the entries under some keys.
pub struct GetBatchRequest {
    pub keys: Vec<String>,
}

/// The entries found, in base64.
pub struct GetBatchResponse {
    pub ret: Vec<EncodedEntry>,
}

/// Answers the entries of the signed-in user under the keys asked for,
/// leaving out the keys that do not exist.
pub fn get_batch(id: Option<u64>, db: &Database, params: GetBatchRequest) -> (r: Result<
    GetBatchResponse,
    ErrorResponse,
>)
    requires
        db.wf(),
    ensures
        match id {
            Some(user_id) => r matches Ok(response) && encoded_rows(response.ret@) == encode_rows(
                db@.data_select(user_id, key_texts(params.keys@)),
            ),
            None => r matches Err(e) && e@ == failure(Error::Unauthenticated),
        },
{
    let user_id = match id {
        Some(user_id) => user_id,
        None => {
            return Err(error_response(Error::Unauthenticated));
        },
    };
    match api_191103::data_get_batch(db, user_id, params.keys) {
        Ok(entries) => Ok(GetBatchResponse { ret: encode_entries(&entries) }),
        Err(e) => Err(error_response(e)),
    }
}

/// A request to write entries, in base64.
pub struct ModifyBatchRequest {
    pub entries: Vec<EncodedEntry>,
}

/// The keys written.
pub struct ModifyBatchResponse {
    pub modified: Vec<String>,
}

/// Writes the entries for the signed-in user and answers their keys.
pub fn modify_batch(id: Option<u64>, db: &mut Database, params: ModifyBatchRequest) -> (r: Result<
    ModifyBatchResponse,
    ErrorResponse,
>)
    requires
        old(db).wf(),
    ensures
        final(db).wf(),
        match id {
            Some(user_id) => match decode_rows(encoded_rows(params.entries@)) {
                Some(rows) => {
                    &&& final(db)@ == old(db)@.data_modify_batch(user_id, last_wins(rows))
                    &&& r matches Ok(response) && key_texts(response.modified@) == row_keys(rows)
                },
                None => {
                    &&& final(db)@ == old(db)@
                    &&& r matches Err(e) && e@ == failure(Error::BadRequest)
                },
            },
            None => {
                &&& final(db)@ == old(db)@
                &&& r matches Err(e) && e@ == failure(Error::Unauthenticated)
            },
        },
{
    let user_id = match id {
        Some(user_id) => user_id,
        None => {
            return Err(error_response(Error::Unauthenticated));
        },
    };
    let entries_bytes = match decode_entries(&params.entries) {
        Ok(entries) => entries,
        Err(e) => {
            return Err(error_response(e));
        },
    };
    match api_191103::data_modify_batch(db, user_id, entries_bytes) {
        Ok(modified) => Ok(ModifyBatchResponse { modified }),
        Err(e) => Err(error_response(e)),
    }
}

/// A request to delete the entries under some keys.
pub struct DeleteBatchRequest {
    pub keys: Vec<String>,
}

/// The answer to a deletion: it says nothing more than that it was done.
pub struct DeleteBatchResponse {}

/// Deletes the entries of the signed-in user under the keys.
pub fn delete_batch(id: Option<u64>, db: &mut Database, params: DeleteBatchRequest) -> (r: Result<
    DeleteBatchResponse,
    ErrorResponse,
>)
    requires
        old(db).wf(),
    ensures
        final(db).wf(),
        match id {
            Some(user_id) => {
                &&& final(db)@ == old(db)@.data_delete_batch(
                    user_id,
                    key_texts(params.keys@).to_set(),
                )
                &&& r is Ok
            },
            None => {
                &&& final(db)@ == old(db)@
                &&& r matches Err(e) && e@ == failure(Error::Unauthenticated)
            },
        },
{
    let user_id = match id {
        Some(user_id) => user_id,
        None => {
            return Err(error_response(Error::Unauthenticated));
        },
    };
    match api_191103::data_delete_batch(db, user_id, params.keys) {
        Ok(_) => Ok(DeleteBatchResponse {  }),
        Err(e) => Err(error_response(e)),
    }
}

} // verus!
