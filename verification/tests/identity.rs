use classistant_server::identity::{issue, issue_token, verify, verify_token, Session, CLAIMS_LEN};
use classistant_server::result::Error;
use classistant_server::site_config::{SiteConfig, DEFAULT_MAX_ALIVE_SECS};

const KEY: [u8; 64] = [0u8; 64];

const SIGNATURE: [u8; 64] = [
    138, 93, 189, 161, 95, 220, 94, 104, 21, 126, 229, 138, 169, 133, 203, 247, 16, 148, 87, 148,
    141, 126, 152, 189, 99, 53, 1, 201, 116, 246, 145, 19, 198, 21, 145, 194, 39, 205, 91, 244,
    17, 249, 157, 245, 18, 136, 182, 149, 220, 238, 67, 86, 9, 9, 55, 10, 127, 0, 237, 93, 100,
    195, 233, 67,
];

#[test]
fn default_lifetime_is_a_day() {
    assert_eq!(DEFAULT_MAX_ALIVE_SECS, 86400);
    assert_eq!(SiteConfig::default().max_alive_secs, 86400);
}

#[test]
fn issue_fills_claims_and_signature() {
    let session = issue(&SiteConfig::default(), &KEY, 42, 1000);
    assert_eq!(session.user_id, 42);
    assert_eq!(session.issued_at, 1000);
    assert_eq!(session.expires_at, 87400);
    assert_eq!(session.signature, SIGNATURE.to_vec());
}

#[test]
fn issued_session_verifies_until_it_lapses() {
    let config = SiteConfig { max_alive_secs: 60 };
    let session = issue(&config, &KEY, 42, 1000);
    assert_eq!(session.expires_at, 1060);
    assert_eq!(verify(&KEY, &session, 1000), Ok(42));
    assert_eq!(verify(&KEY, &session, 1059), Ok(42));
    assert_eq!(verify(&KEY, &session, 1060), Err(Error::Expired));
    assert_eq!(verify(&KEY, &session, u64::MAX), Err(Error::Expired));
}

#[test]
fn zero_lifetime_session_is_expired_at_once() {
    let session = issue(&SiteConfig { max_alive_secs: 0 }, &KEY, 42, 1000);
    assert_eq!(verify(&KEY, &session, 1000), Err(Error::Expired));
}

#[test]
fn expiry_saturates_at_the_end_of_time() {
    let session = issue(&SiteConfig { max_alive_secs: u64::MAX }, &KEY, 42, 1000);
    assert_eq!(session.expires_at, u64::MAX);
    assert_eq!(verify(&KEY, &session, u64::MAX - 1), Ok(42));
    let late = issue(&SiteConfig { max_alive_secs: 10 }, &KEY, 42, u64::MAX - 3);
    assert_eq!(late.expires_at, u64::MAX);
}

#[test]
fn tampered_session_is_unauthenticated() {
    let session = issue(&SiteConfig::default(), &KEY, 42, 1000);
    let other_user = Session {
        user_id: 43,
        issued_at: session.issued_at,
        expires_at: session.expires_at,
        signature: session.signature.clone(),
    };
    assert_eq!(verify(&KEY, &other_user, 1001), Err(Error::Unauthenticated));
    let longer = Session {
        user_id: 42,
        issued_at: session.issued_at,
        expires_at: session.expires_at + 1,
        signature: session.signature.clone(),
    };
    assert_eq!(verify(&KEY, &longer, 1001), Err(Error::Unauthenticated));
    let mut flipped = session.signature.clone();
    flipped[63] ^= 1;
    let bad = Session { user_id: 42, issued_at: 1000, expires_at: 87400, signature: flipped };
    assert_eq!(verify(&KEY, &bad, 1001), Err(Error::Unauthenticated));
    let short = Session { user_id: 42, issued_at: 1000, expires_at: 87400, signature: Vec::new() };
    assert_eq!(verify(&KEY, &short, 1001), Err(Error::Unauthenticated));
}

#[test]
fn bad_signature_is_reported_before_expiry() {
    let session = issue(&SiteConfig::default(), &KEY, 42, 1000);
    let forged = Session { user_id: 1, issued_at: 1000, expires_at: 87400, signature: session.signature };
    assert_eq!(verify(&KEY, &forged, 90000), Err(Error::Unauthenticated));
}

#[test]
fn session_under_another_key_is_unauthenticated() {
    let session = issue(&SiteConfig::default(), &KEY, 42, 1000);
    assert_eq!(verify(&[1u8; 64], &session, 1001), Err(Error::Unauthenticated));
    assert_eq!(verify(&[], &session, 1001), Err(Error::Unauthenticated));
    assert_eq!(verify(&KEY, &session, 1001), Ok(42));
}

const TOKEN: &str = "KgAAAAAAAADoAwAAAAAAAGhVAQAAAAAAil29oV/cXmgVfuWKqYXL9xCUV5SNfpi9YzUByXT2kRPGFZHCJ81b9BH5nfUSiLaV3O5DVgkJNwp/AO1dZMPpQw==";

#[test]
fn token_is_the_session_in_base64() {
    assert_eq!(issue_token(&SiteConfig::default(), &KEY, 42, 1000), TOKEN);
    let session = issue(&SiteConfig::default(), &KEY, 42, 1000);
    assert_eq!(session.to_token(), TOKEN);
    let bytes = session.to_bytes();
    assert_eq!(bytes.len(), CLAIMS_LEN + 64);
    assert_eq!(&bytes[..8], &[42, 0, 0, 0, 0, 0, 0, 0]);
    assert_eq!(&bytes[8..16], &[0xe8, 0x03, 0, 0, 0, 0, 0, 0]);
    assert_eq!(&bytes[16..24], &[0x68, 0x55, 0x01, 0, 0, 0, 0, 0]);
    assert_eq!(&bytes[24..], &SIGNATURE[..]);
}

#[test]
fn token_is_read_back_as_the_session() {
    let session = Session::from_token(TOKEN).unwrap();
    assert_eq!(session.user_id, 42);
    assert_eq!(session.issued_at, 1000);
    assert_eq!(session.expires_at, 87400);
    assert_eq!(session.signature, SIGNATURE.to_vec());
    let bare = Session::from_token("AQAAAAAAAAACAAAAAAAAAAMAAAAAAAAA").unwrap();
    assert_eq!((bare.user_id, bare.issued_at, bare.expires_at), (1, 2, 3));
    assert!(bare.signature.is_empty());
    let again = Session::from_bytes(&bare.to_bytes()).unwrap();
    assert_eq!((again.user_id, again.issued_at, again.expires_at), (1, 2, 3));
}

#[test]
fn text_that_holds_no_session_is_no_token() {
    assert!(Session::from_token("").is_none());
    assert!(Session::from_token("AQAAAAAAAAACAAAAAAAAAAMAAAAAAAA=").is_none());
    assert!(Session::from_token("not a token").is_none());
    assert!(Session::from_bytes(&[0u8; 23]).is_none());
    assert!(Session::from_bytes(&[0u8; 24]).is_some());
}

#[test]
fn token_verifies_until_it_lapses() {
    assert_eq!(verify_token(&KEY, TOKEN, 1000), Ok(42));
    assert_eq!(verify_token(&KEY, TOKEN, 87399), Ok(42));
    assert_eq!(verify_token(&KEY, TOKEN, 87400), Err(Error::Expired));
    assert_eq!(verify_token(&[9u8; 64], TOKEN, 1000), Err(Error::Unauthenticated));
    assert_eq!(verify_token(&KEY, "", 1000), Err(Error::Unauthenticated));
    assert_eq!(verify_token(&KEY, "%%%", 1000), Err(Error::Unauthenticated));
    assert_eq!(verify_token(&KEY, "AQAAAAAAAAACAAAAAAAAAAMAAAAAAAAA", 2), Err(Error::Unauthenticated));
    let mut tampered = TOKEN.to_string();
    tampered.replace_range(0..2, "Kw");
    assert_eq!(verify_token(&KEY, &tampered, 1000), Err(Error::Unauthenticated));
}
