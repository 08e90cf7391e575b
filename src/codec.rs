//! The session cookie: a record's payload, signed under the process's key.
use vstd::prelude::*;
use actix_web::cookie::{Cookie, CookieJar, Key};
use crate::model::{AuthView, SessionRecord, anonymous};
use crate::payload::{payload_of, encode_payload, decode_payload, chars_of, string_of};

verus! {

/// The fewest key bytes that the signing key is made from.
pub const KEY_LEN: usize = 64;

/// The signed cookie text for a value under a key: the value prefixed with
/// the digest that proves it was issued under that key.
pub uninterp spec fn signed_cookie_of(key: Seq<u8>, value: Seq<char>) -> Seq<char>;

/// Relies on `SignedJar::add` of the cookie crate (through `actix_web::cookie`)
/// and `Key::from`, which panics on fewer than 64 bytes: the stored value is
/// the HMAC-SHA256 digest of the value in base64, then the value, so it
/// depends on the key bytes and the value alone.
#[verifier::external_body]
fn sign_value(key: &Vec<u8>, value: &str) -> (r: String)
    requires
        key@.len() >= KEY_LEN,
    ensures
        r@ == signed_cookie_of(key@, value@),
{
    let k = Key::from(key.as_slice());
    let mut jar = CookieJar::new();
    jar.signed_mut(&k).add(Cookie::new("session", value.to_string()));
    jar.get("session").map_or_else(String::new, |c| c.value().to_string())
}

/// Relies on `SignedJar::verify` of the cookie crate: it splits off the
/// 44-character base64 digest, decodes it (canonical base64 only) and returns
/// the rest only where the digest is that of the rest under the key. So the
/// value comes back exactly from texts that signing produced.
#[verifier::external_body]
fn verify_value(key: &Vec<u8>, text: &str) -> (r: Option<String>)
    requires
        key@.len() >= KEY_LEN,
    ensures
        r matches Some(v) ==> text@ == signed_cookie_of(key@, v@),
        forall|v: Seq<char>| text@ == #[trigger] signed_cookie_of(key@, v) ==> (r is Some && r->0@ == v),
{
    let k = Key::from(key.as_slice());
    let jar = CookieJar::new();
    jar.signed(&k).verify(Cookie::new("session", text.to_string())).map(|c| c.value().to_string())
}

/// The key that session cookies are signed under.
pub struct SessionKey {
    pub bytes: Vec<u8>,
}

impl SessionKey {
    pub open spec fn wf(&self) -> bool {
        self.bytes@.len() >= KEY_LEN
    }

    /// A key from its bytes; `None` where there are fewer than 64.
    pub fn from_bytes(bytes: Vec<u8>) -> (r: Option<SessionKey>)
        ensures
            r is Some <==> bytes@.len() >= KEY_LEN,
            r matches Some(k) ==> k.wf() && k.bytes@ == bytes@,
    {
        if bytes.len() >= KEY_LEN {
            Some(SessionKey { bytes })
        } else {
            None
        }
    }
}

/// Whether `text` is the cookie that the encoder issues for the record `v`.
pub open spec fn is_cookie_of(key: Seq<u8>, text: Seq<char>, v: AuthView) -> bool {
    v.wf() && text == signed_cookie_of(key, payload_of(v))
}

/// The text of a cookie that may be absent.
pub open spec fn cookie_text(cookie: Option<&str>) -> Seq<char> {
    match cookie {
        Some(c) => c@,
        None => Seq::empty(),
    }
}

/// The cookie text for a record.
pub fn encode_session(key: &SessionKey, rec: &SessionRecord) -> (r: String)
    requires
        key.wf(),
    ensures
        r@ == signed_cookie_of(key.bytes@, payload_of(rec@)),
{
    let p = string_of(&encode_payload(rec));
    sign_value(&key.bytes, p.as_str())
}

/// The record that a request's cookie holds. A cookie that is absent, or that
/// the encoder did not issue under this key, gives the empty record.
pub fn decode_session(key: &SessionKey, cookie: Option<&str>) -> (r: SessionRecord)
    requires
        key.wf(),
    ensures
        r@.wf(),
        forall|v: AuthView| cookie is Some && #[trigger] is_cookie_of(key.bytes@, cookie_text(cookie), v) ==> r@ == v,
        r@ == anonymous() || (cookie is Some && is_cookie_of(key.bytes@, cookie_text(cookie), r@)),
{
    let text = match cookie {
        Some(c) => c,
        None => { return SessionRecord::empty(); },
    };
    let value = match verify_value(&key.bytes, text) {
        Some(v) => v,
        None => {
            return SessionRecord::empty();
        },
    };
    match decode_payload(&chars_of(value.as_str())) {
        Some(rec) => rec,
        None => SessionRecord::empty(),
    }
}

} // verus!
