use auth_gateway::codec::{decode_session, encode_session, SessionKey};
use auth_gateway::gateway::{
    finish_logout, interpret_status_reply, reconcile, start_logout, status_reply, GatewayConfig,
};
use auth_gateway::model::{AuthStatusResult, SessionRecord, TransportError, UserInfo};
use auth_gateway::payload::{decode_payload, encode_payload};

fn key() -> SessionKey {
    SessionKey::from_bytes((0..64u8).collect()).unwrap()
}

fn other_key() -> SessionKey {
    SessionKey::from_bytes((100..164u8).collect()).unwrap()
}

fn config() -> GatewayConfig {
    GatewayConfig::new("http://localhost:3001".to_string(), key())
}

fn ada() -> UserInfo {
    UserInfo::new("42".to_string(), "Ada".to_string(), "ada@x.com".to_string())
}

fn grace() -> UserInfo {
    UserInfo::new("7".to_string(), "Grace".to_string(), "grace@y.org".to_string())
}

#[test]
fn first_visit_without_cookie_is_anonymous() {
    let cfg = config();
    let session = decode_session(&cfg.key, None);
    assert_eq!(session, SessionRecord::empty());
    let remote = interpret_status_reply(true, Some(AuthStatusResult::anonymous()));
    let reply = status_reply(&cfg, session, &remote);
    assert_eq!(reply.status, AuthStatusResult { authenticated: false, user: None });
    assert_eq!(decode_session(&cfg.key, Some(reply.cookie.as_str())), SessionRecord::empty());
}

#[test]
fn remote_confirmation_is_mirrored_and_cached() {
    let cfg = config();
    let remote = interpret_status_reply(true, Some(AuthStatusResult::signed_in(ada())));
    let reply = status_reply(&cfg, SessionRecord::empty(), &remote);
    assert_eq!(reply.status, AuthStatusResult { authenticated: true, user: Some(ada()) });
    assert_eq!(reply.status.user.as_ref().unwrap().id, "42");
    assert_eq!(reply.status.user.as_ref().unwrap().name, "Ada");
    assert_eq!(reply.status.user.as_ref().unwrap().email, "ada@x.com");
    let cached = decode_session(&cfg.key, Some(reply.cookie.as_str()));
    assert_eq!(cached, SessionRecord::signed_in(ada()));
}

#[test]
fn unreachable_service_falls_back_to_cached_user() {
    let cfg = config();
    let cookie = encode_session(&cfg.key, &SessionRecord::signed_in(ada()));
    let session = decode_session(&cfg.key, Some(cookie.as_str()));
    let reply = status_reply(&cfg, session, &Err(TransportError::Unreachable));
    assert_eq!(reply.status, AuthStatusResult::signed_in(ada()));
    assert_eq!(decode_session(&cfg.key, Some(reply.cookie.as_str())), SessionRecord::signed_in(ada()));
}

#[test]
fn unreachable_service_with_empty_cache_is_anonymous() {
    let mut session = SessionRecord::empty();
    let r = reconcile(&mut session, &Err(TransportError::Unreachable));
    assert_eq!(r, AuthStatusResult::anonymous());
    assert_eq!(session, SessionRecord::empty());
}

#[test]
fn malformed_body_falls_back_to_cache() {
    let remote = interpret_status_reply(true, None);
    assert_eq!(remote, Err(TransportError::MalformedBody));
    let mut session = SessionRecord::signed_in(ada());
    let r = reconcile(&mut session, &remote);
    assert_eq!(r, AuthStatusResult::signed_in(ada()));
}

#[test]
fn remote_confirmation_overwrites_stale_cache() {
    let mut session = SessionRecord::signed_in(ada());
    let r = reconcile(&mut session, &Ok(AuthStatusResult::signed_in(grace())));
    assert_eq!(r, AuthStatusResult::signed_in(grace()));
    assert_eq!(session, SessionRecord::signed_in(grace()));
}

#[test]
fn remote_negative_wins_over_cache() {
    let mut session = SessionRecord::signed_in(ada());
    let r = reconcile(&mut session, &Ok(AuthStatusResult::anonymous()));
    assert_eq!(r, AuthStatusResult::anonymous());
    assert_eq!(session, SessionRecord::empty());
}

#[test]
fn unsuccessful_http_status_is_a_confident_negative() {
    let remote = interpret_status_reply(false, Some(AuthStatusResult::signed_in(ada())));
    assert_eq!(remote, Ok(AuthStatusResult::anonymous()));
    let mut session = SessionRecord::signed_in(ada());
    assert_eq!(reconcile(&mut session, &remote), AuthStatusResult::anonymous());
}

#[test]
fn remote_positive_without_user_is_not_trusted() {
    let remote = Ok(AuthStatusResult { authenticated: true, user: None });
    let mut session = SessionRecord::empty();
    let r = reconcile(&mut session, &remote);
    assert_eq!(r, AuthStatusResult::anonymous());
    let remote = Ok(AuthStatusResult { authenticated: false, user: Some(ada()) });
    let r = reconcile(&mut session, &remote);
    assert_eq!(r, AuthStatusResult::anonymous());
}

#[test]
fn logout_clears_even_when_notify_fails() {
    let cfg = config();
    let mut session = SessionRecord::signed_in(ada());
    let url = start_logout(&cfg, &mut session);
    assert_eq!(url, "http://localhost:3001/auth/logout");
    assert_eq!(session, SessionRecord::empty());
    let reply = finish_logout(&cfg, &session, &Err(TransportError::Unreachable));
    assert_eq!(reply.location, "/");
    assert_eq!(decode_session(&cfg.key, Some(reply.cookie.as_str())), SessionRecord::empty());
    let ok_reply = finish_logout(&cfg, &session, &Ok(()));
    assert_eq!(ok_reply.location, "/");
    assert_eq!(ok_reply.cookie, reply.cookie);
}

#[test]
fn tampered_cookie_decodes_to_empty() {
    let k = key();
    let cookie = encode_session(&k, &SessionRecord::signed_in(ada()));
    let mut bytes = cookie.clone().into_bytes();
    let last = bytes.len() - 1;
    bytes[last] ^= 0x01;
    let tampered = String::from_utf8(bytes).unwrap();
    assert_eq!(decode_session(&k, Some(tampered.as_str())), SessionRecord::empty());
    let mut digest_flip = cookie.clone().into_bytes();
    digest_flip[3] = if digest_flip[3] == b'A' { b'B' } else { b'A' };
    let digest_flip = String::from_utf8(digest_flip).unwrap();
    assert_eq!(decode_session(&k, Some(digest_flip.as_str())), SessionRecord::empty());
}

#[test]
fn unsigned_payload_decodes_to_empty() {
    let k = key();
    assert_eq!(decode_session(&k, Some("A4.2.!!A.d.a.!!a.@.x.!!")), SessionRecord::empty());
    assert_eq!(decode_session(&k, Some("")), SessionRecord::empty());
    assert_eq!(decode_session(&k, Some("garbage")), SessionRecord::empty());
}

#[test]
fn cookie_under_other_key_decodes_to_empty() {
    let cookie = encode_session(&other_key(), &SessionRecord::signed_in(ada()));
    assert_eq!(decode_session(&key(), Some(cookie.as_str())), SessionRecord::empty());
}

#[test]
fn cookie_carries_signed_payload() {
    let k = key();
    let rec = SessionRecord::signed_in(ada());
    let cookie = encode_session(&k, &rec);
    let payload: String = encode_payload(&rec).into_iter().collect();
    assert_ne!(cookie, payload);
    assert_eq!(cookie.len(), payload.len() + 44);
    assert!(cookie.ends_with(payload.as_str()));
    assert_eq!(encode_session(&k, &rec), cookie);
}

#[test]
fn payload_exact_text() {
    let rec = SessionRecord::signed_in(ada());
    let text: String = encode_payload(&rec).into_iter().collect();
    assert_eq!(text, "A4.2.!!A.d.a.!!a.d.a.@.x...c.o.m.!!");
    let empty: String = encode_payload(&SessionRecord::empty()).into_iter().collect();
    assert_eq!(empty, "N");
}

#[test]
fn payload_round_trip_with_marks_in_fields() {
    let user = UserInfo::new("!!".to_string(), ".!.".to_string(), "é ü;=".to_string());
    let rec = SessionRecord::signed_in(user);
    assert_eq!(decode_payload(&encode_payload(&rec)), Some(rec));
    let empty = SessionRecord::empty();
    assert_eq!(decode_payload(&encode_payload(&empty)), Some(empty));
    let blank = SessionRecord::signed_in(UserInfo::new(String::new(), String::new(), String::new()));
    assert_eq!(decode_payload(&encode_payload(&blank)), Some(blank));
}

#[test]
fn payload_rejects_malformed_text() {
    let parse = |s: &str| decode_payload(&s.chars().collect());
    assert_eq!(parse(""), None);
    assert_eq!(parse("A"), None);
    assert_eq!(parse("A!!"), None);
    assert_eq!(parse("A!!!!"), None);
    assert_eq!(parse("A!!!!!!x"), None);
    assert_eq!(parse("NN"), None);
    assert_eq!(parse("A4.2!!!!!!"), None);
    assert_eq!(parse("A!!!!!!"), Some(SessionRecord::signed_in(UserInfo::new(String::new(), String::new(), String::new()))));
}

#[test]
fn short_key_is_refused() {
    assert!(SessionKey::from_bytes(vec![0u8; 63]).is_none());
    assert!(SessionKey::from_bytes(vec![0u8; 64]).is_some());
}

#[test]
fn remote_urls() {
    let cfg = config();
    assert_eq!(cfg.login_target(), "http://localhost:3001/auth/login");
    assert_eq!(cfg.status_url(None), "http://localhost:3001/auth/status");
    assert_eq!(cfg.status_url(Some("abc")), "http://localhost:3001/auth/status/abc");
    assert_eq!(cfg.logout_url(), "http://localhost:3001/auth/logout");
    assert_eq!(cfg.health_url(), "http://localhost:3001/health");
}

#[test]
fn records_keep_their_invariant() {
    assert!(SessionRecord::empty().is_well_formed());
    assert!(SessionRecord::signed_in(ada()).is_well_formed());
    assert!(!SessionRecord { authenticated: true, user: None }.is_well_formed());
    let forged = SessionRecord { authenticated: true, user: None };
    let text: String = encode_payload(&forged).into_iter().collect();
    assert_eq!(text, "N");
    assert_eq!(SessionRecord::signed_in(ada()).to_status(), AuthStatusResult::signed_in(ada()));
    assert_eq!(AuthStatusResult::signed_in(ada()).to_record(), SessionRecord::signed_in(ada()));
}
