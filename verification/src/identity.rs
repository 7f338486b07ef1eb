//! Session tokens.
//!
//! A session is held by the client alone. It names the user, the time of
//! login and the time at which it lapses, and carries a signature over the
//! three under the key of the deployment. The server keeps no record of it:
//! a session cannot be revoked before it lapses.

use vstd::prelude::*;
use vstd::bytes::*;
use vstd::slice::{slice_subrange, slice_to_vec};
use crate::auth_hash::{fingerprint, fingerprint_into};
use crate::encoding::{base64_decoded, base64_encoded, decode_blob, encode_blob};
use crate::result::Error;
use crate::site_config::SiteConfig;
use crate::text::bytes_eq;

verus! {

/// Length of the three numbers of a session in bytes.
pub const CLAIMS_LEN: usize = 24;

/// A signed, time-bounded statement of who the bearer is.
pub struct Session {
    pub user_id: u64,
    pub issued_at: u64,
    pub expires_at: u64,
    pub signature: Vec<u8>,
}

/// What a [`Session`] says.
pub struct Claims {
    pub user_id: u64,
    pub issued_at: u64,
    pub expires_at: u64,
    pub signature: Seq<u8>,
}

impl View for Session {
    type V = Claims;

    open spec fn view(&self) -> Claims {
        Claims {
            user_id: self.user_id,
            issued_at: self.issued_at,
            expires_at: self.expires_at,
            signature: self.signature@,
        }
    }
}

/// The bytes that a signature covers: the three numbers, little-endian.
pub open spec fn signed_bytes(user_id: u64, issued_at: u64, expires_at: u64) -> Seq<u8> {
    spec_u64_to_le_bytes(user_id) + spec_u64_to_le_bytes(issued_at) + spec_u64_to_le_bytes(
        expires_at,
    )
}

/// The signature of the three numbers under the key: the fingerprint of
/// the key followed by the numbers.
pub open spec fn signature_of(key: Seq<u8>, user_id: u64, issued_at: u64, expires_at: u64) -> Seq<
    u8,
> {
    fingerprint(key + signed_bytes(user_id, issued_at, expires_at))
}

/// The time at which a session issued at `issued_at` lapses: `lifetime`
/// seconds later, or at the end of time where that cannot be represented.
pub open spec fn expiry(issued_at: u64, lifetime: u64) -> u64 {
    if issued_at + lifetime > u64::MAX {
        u64::MAX
    } else {
        (issued_at + lifetime) as u64
    }
}

impl Claims {
    /// The session that is issued to the user at time `now`.
    pub open spec fn issued(key: Seq<u8>, user_id: u64, now: u64, lifetime: u64) -> Claims {
        Claims {
            user_id,
            issued_at: now,
            expires_at: expiry(now, lifetime),
            signature: signature_of(key, user_id, now, expiry(now, lifetime)),
        }
    }

    /// The signature is the one that the key gives to the three numbers.
    pub open spec fn signed_by(self, key: Seq<u8>) -> bool {
        self.signature == signature_of(key, self.user_id, self.issued_at, self.expires_at)
    }

    /// What verification at time `now` answers.
    pub open spec fn verdict(self, key: Seq<u8>, now: u64) -> Result<u64, Error> {
        if !self.signed_by(key) {
            Err(Error::Unauthenticated)
        } else if now >= self.expires_at {
            Err(Error::Expired)
        } else {
            Ok(self.user_id)
        }
    }

    /// The session as bytes: the three numbers, then the signature.
    pub open spec fn bytes(self) -> Seq<u8> {
        signed_bytes(self.user_id, self.issued_at, self.expires_at) + self.signature
    }

    /// The session that the bytes hold, if they are long enough to hold the
    /// three numbers.
    pub open spec fn of_bytes(bytes: Seq<u8>) -> Option<Claims> {
        if bytes.len() < CLAIMS_LEN {
            None
        } else {
            Some(
                Claims {
                    user_id: spec_u64_from_le_bytes(bytes.subrange(0, 8)),
                    issued_at: spec_u64_from_le_bytes(bytes.subrange(8, 16)),
                    expires_at: spec_u64_from_le_bytes(bytes.subrange(16, 24)),
                    signature: bytes.subrange(24, bytes.len() as int),
                },
            )
        }
    }

    /// The session that a token holds: the one of the bytes that its text
    /// stands for in base64.
    pub open spec fn of_token(token: Seq<char>) -> Option<Claims> {
        match base64_decoded(token) {
            Some(bytes) => Claims::of_bytes(bytes),
            None => None,
        }
    }
}

/// What the verification of a token at time `now` answers. A token that
/// holds no session counts as one with a bad signature.
pub open spec fn token_verdict(key: Seq<u8>, token: Seq<char>, now: u64) -> Result<u64, Error> {
    match Claims::of_token(token) {
        Some(claims) => claims.verdict(key, now),
        None => Err(Error::Unauthenticated),
    }
}

fn sign(key: &[u8], user_id: u64, issued_at: u64, expires_at: u64) -> (signature: Vec<u8>)
    ensures
        signature@ == signature_of(key@, user_id, issued_at, expires_at),
{
    let mut message = slice_to_vec(key);
    let mut word = u64_to_le_bytes(user_id);
    message.append(&mut word);
    let mut word = u64_to_le_bytes(issued_at);
    message.append(&mut word);
    let mut word = u64_to_le_bytes(expires_at);
    message.append(&mut word);
    proof {
        assert(message@ =~= key@ + signed_bytes(user_id, issued_at, expires_at));
    }
    let mut signature: Vec<u8> = Vec::new();
    fingerprint_into(message.as_slice(), &mut signature);
    signature
}

impl Session {
    /// Writes the session as bytes.
    pub fn to_bytes(&self) -> (bytes: Vec<u8>)
        ensures
            bytes@ == self@.bytes(),
    {
        let mut bytes = u64_to_le_bytes(self.user_id);
        let mut word = u64_to_le_bytes(self.issued_at);
        bytes.append(&mut word);
        let mut word = u64_to_le_bytes(self.expires_at);
        bytes.append(&mut word);
        let mut signature = slice_to_vec(self.signature.as_slice());
        bytes.append(&mut signature);
        bytes
    }

    /// Reads a session from bytes.
    pub fn from_bytes(bytes: &[u8]) -> (r: Option<Session>)
        ensures
            match r {
                Some(session) => Claims::of_bytes(bytes@) == Some(session@),
                None => Claims::of_bytes(bytes@) is None,
            },
    {
        if bytes.len() < CLAIMS_LEN {
            return None;
        }
        Some(
            Session {
                user_id: u64_from_le_bytes(slice_subrange(bytes, 0, 8)),
                issued_at: u64_from_le_bytes(slice_subrange(bytes, 8, 16)),
                expires_at: u64_from_le_bytes(slice_subrange(bytes, 16, 24)),
                signature: slice_to_vec(slice_subrange(bytes, 24, bytes.len())),
            },
        )
    }

    /// Writes the session as the text of a token.
    pub fn to_token(&self) -> (token: String)
        ensures
            token@ == base64_encoded(self@.bytes()),
    {
        let bytes = self.to_bytes();
        encode_blob(bytes.as_slice())
    }

    /// Reads a session from the text of a token.
    pub fn from_token(token: &str) -> (r: Option<Session>)
        ensures
            match r {
                Some(session) => Claims::of_token(token@) == Some(session@),
                None => Claims::of_token(token@) is None,
            },
    {
        match decode_blob(token) {
            Ok(bytes) => Session::from_bytes(bytes.as_slice()),
            Err(_) => None,
        }
    }
}

/// Issues a session for the user at time `now`, valid for the lifetime
/// that the configuration allows.
pub fn issue(config: &SiteConfig, key: &[u8], user_id: u64, now: u64) -> (session: Session)
    ensures
        session@ == Claims::issued(key@, user_id, now, config.max_alive_secs),
{
    let expires_at = if config.max_alive_secs > u64::MAX - now {
        u64::MAX
    } else {
        now + config.max_alive_secs
    };
    Session { user_id, issued_at: now, expires_at, signature: sign(key, user_id, now, expires_at) }
}

/// Verifies a session at time `now` and answers the user it names.
pub fn verify(key: &[u8], session: &Session, now: u64) -> (r: Result<u64, Error>)
    ensures
        r == session@.verdict(key@, now),
{
    let expected = sign(key, session.user_id, session.issued_at, session.expires_at);
    if !bytes_eq(session.signature.as_slice(), expected.as_slice()) {
        Err(Error::Unauthenticated)
    } else if now >= session.expires_at {
        Err(Error::Expired)
    } else {
        Ok(session.user_id)
    }
}

/// Issues a session for the user at time `now` and answers its token.
pub fn issue_token(config: &SiteConfig, key: &[u8], user_id: u64, now: u64) -> (token: String)
    ensures
        token@ == base64_encoded(
            Claims::issued(key@, user_id, now, config.max_alive_secs).bytes(),
        ),
{
    issue(config, key, user_id, now).to_token()
}

/// Verifies a token at time `now` and answers the user it names.
pub fn verify_token(key: &[u8], token: &str, now: u64) -> (r: Result<u64, Error>)
    ensures
        r == token_verdict(key@, token@, now),
{
    match Session::from_token(token) {
        Some(session) => verify(key, &session, now),
        None => Err(Error::Unauthenticated),
    }
}

/// A session that was issued is accepted from that moment until it lapses,
/// is refused as expired from then on, and never outlives the configured
/// lifetime.
pub proof fn lemma_issued_session_verifies(
    key: Seq<u8>,
    user_id: u64,
    now: u64,
    lifetime: u64,
    at: u64,
)
    ensures
        Claims::issued(key, user_id, now, lifetime).expires_at - now <= lifetime,
        now <= at < expiry(now, lifetime) ==> Claims::issued(key, user_id, now, lifetime).verdict(
            key,
            at,
        ) == Ok::<u64, Error>(user_id),
        at >= expiry(now, lifetime) ==> Claims::issued(key, user_id, now, lifetime).verdict(key, at)
            == Err::<u64, Error>(Error::Expired),
{
}

/// A session whose signature is not the one of its numbers is rejected at
/// any time, lapsed or not.
pub proof fn lemma_forged_session_rejected(claims: Claims, key: Seq<u8>, at: u64)
    requires
        !claims.signed_by(key),
    ensures
        claims.verdict(key, at) == Err::<u64, Error>(Error::Unauthenticated),
{
}

/// A session is read back from its own bytes as it was written, and so from
/// any token whose text stands for those bytes.
pub proof fn lemma_session_read_back(claims: Claims, token: Seq<char>)
    ensures
        Claims::of_bytes(claims.bytes()) == Some(claims),
        base64_decoded(token) == Some(claims.bytes()) ==> Claims::of_token(token) == Some(claims),
{
    lemma_auto_spec_u64_to_from_le_bytes();
    let bytes = claims.bytes();
    assert(bytes.subrange(0, 8) =~= spec_u64_to_le_bytes(claims.user_id));
    assert(bytes.subrange(8, 16) =~= spec_u64_to_le_bytes(claims.issued_at));
    assert(bytes.subrange(16, 24) =~= spec_u64_to_le_bytes(claims.expires_at));
    assert(bytes.subrange(24, bytes.len() as int) =~= claims.signature);
}

} // verus!
