//! The two-route callback protocol: `/login` issues the CSRF state and the
//! redirect to the identity provider's authorize endpoint; `/callback`
//! validates the returned state and starts the login procedure. The
//! application's HTTP listener parses requests into the arguments here and
//! writes the decisions back out as responses.

use vstd::prelude::*;

use crate::AuthError;
use crate::digits::dec_of;
use crate::digits::u64_to_string;
use crate::storage::valid_token;
use crate::user::{sat_add, sat_add_spec, SessionManager};
use vstd::string::StringSliceAdditionalSpecFns;

verus! {

/// The characters a CSRF state token is drawn from: ASCII letters and digits.
pub open spec fn is_state_char(c: char) -> bool {
    ||| 65 <= c as u32 <= 90
    ||| 97 <= c as u32 <= 122
    ||| 48 <= c as u32 <= 57
}

/// One-byte scalars read back as the same code points.
pub open spec fn ascii_chars(bs: Seq<u8>) -> Seq<char> {
    bs.map_values(|b: u8| b as char)
}

/// Relies on String::from_utf8: bytes below 128 are one-byte UTF-8 scalars
/// and decode to exactly the same code points.
#[verifier::external_body]
fn ascii_to_string(v: Vec<u8>) -> (r: String)
    requires
        forall|i: int| 0 <= i < v@.len() ==> v@[i] < 128,
    ensures
        r@ == ascii_chars(v@),
{
    String::from_utf8(v).unwrap_or_default()
}

/// Relies on rand::random_range over `0..bound`, a nonempty range: the draw
/// comes from the thread's cryptographically seeded generator and lies inside
/// the range. Nothing else is assumed of it.
#[verifier::external_body]
fn rand_below(bound: usize) -> (r: usize)
    requires
        0 < bound,
    ensures
        r < bound,
{
    rand::random_range(0..bound)
}

/// The `i`th byte of the state alphabet: the upper-case letters, then the
/// lower-case letters, then the digits.
fn state_byte(i: usize) -> (b: u8)
    requires
        i < 62,
    ensures
        is_state_char(b as char),
        b < 128,
{
    if i < 26 {
        65 + (i as u8)
    } else if i < 52 {
        97 + ((i - 26) as u8)
    } else {
        48 + ((i - 52) as u8)
    }
}

/// A fresh random opaque token of `len` alphanumeric characters.
pub fn rand_str(len: usize) -> (r: String)
    requires
        len <= 0x10_0000,
    ensures
        r@.len() == len,
        forall|i: int| 0 <= i < r@.len() ==> is_state_char(#[trigger] r@[i]),
        valid_token(r@),
{
    let mut v: Vec<u8> = Vec::new();
    let mut k: usize = 0;
    while k < len
        invariant
            v@.len() == k <= len,
            forall|i: int| 0 <= i < v@.len() ==> #[trigger] v@[i] < 128,
            forall|i: int| 0 <= i < v@.len() ==> is_state_char(#[trigger] v@[i] as char),
        decreases len - k,
    {
        let b = state_byte(rand_below(62));
        v.push(b);
        k = k + 1;
    }
    let r = ascii_to_string(v);
    proof {
        assert(forall|i: int|
            0 <= i < r@.len() ==> #[trigger] r@[i] == (v@[i] as char));
        assert(forall|i: int| 0 <= i < r@.len() ==> (#[trigger] r@[i]) as u32 != 10);
    }
    r
}

/// The query-component octets that stand for themselves; everything else is
/// escaped.
pub open spec fn is_unreserved(b: u8) -> bool {
    ||| 65 <= b <= 90
    ||| 97 <= b <= 122
    ||| 48 <= b <= 57
    ||| b == 45
    ||| b == 46
    ||| b == 95
    ||| b == 126
}

/// The upper-case hexadecimal digit of `d`.
pub open spec fn hex_char(d: int) -> char {
    if d < 10 {
        crate::digits::digit_char(d)
    } else if d == 10 {
        'A'
    } else if d == 11 {
        'B'
    } else if d == 12 {
        'C'
    } else if d == 13 {
        'D'
    } else if d == 14 {
        'E'
    } else {
        'F'
    }
}

/// Percent-encoding of one octet.
pub open spec fn pct_enc_byte(b: u8) -> Seq<char> {
    if is_unreserved(b) {
        seq![b as char]
    } else {
        seq!['%', hex_char(b as int / 16), hex_char(b as int % 16)]
    }
}

/// Percent-encoding of a query component's octets.
pub open spec fn pct_enc(bs: Seq<u8>) -> Seq<char>
    decreases bs.len(),
{
    if bs.len() == 0 {
        Seq::<char>::empty()
    } else {
        pct_enc_byte(bs[0]) + pct_enc(bs.drop_first())
    }
}

proof fn lemma_pct_enc_push(s: Seq<u8>, b: u8)
    ensures
        pct_enc(s.push(b)) == pct_enc(s) + pct_enc_byte(b),
    decreases s.len(),
{
    if s.len() == 0 {
        assert(s.push(b)[0] == b);
        assert(s.push(b).drop_first() =~= Seq::<u8>::empty());
        assert(pct_enc(Seq::<u8>::empty()) =~= Seq::<char>::empty());
        assert(pct_enc(s) =~= Seq::<char>::empty());
        assert(pct_enc(s.push(b)) == pct_enc_byte(b) + pct_enc(Seq::<u8>::empty()));
        assert(pct_enc(s.push(b)) =~= pct_enc(s) + pct_enc_byte(b));
    } else {
        lemma_pct_enc_push(s.drop_first(), b);
        assert(s.push(b)[0] == s[0]);
        assert(s.push(b).drop_first() =~= s.drop_first().push(b));
        assert(pct_enc(s.push(b)) =~= pct_enc(s) + pct_enc_byte(b));
    }
}

fn hex_byte(d: u8) -> (r: u8)
    requires
        d < 16,
    ensures
        r as char == hex_char(d as int),
        r < 128,
{
    if d < 10 {
        48 + d
    } else {
        55 + d
    }
}

/// Percent-encodes a query component, escaping every reserved octet.
pub fn pct_encoded(data: &str) -> (r: String)
    ensures
        r@ == pct_enc(data.spec_bytes()),
{
    let bytes = data.as_bytes_vec();
    let n = bytes.len();
    let mut out: Vec<u8> = Vec::new();
    let mut i: usize = 0;
    while i < n
        invariant
            0 <= i <= n,
            n == bytes@.len(),
            bytes@ == data.spec_bytes(),
            forall|j: int| 0 <= j < out@.len() ==> #[trigger] out@[j] < 128,
            ascii_chars(out@) == pct_enc(bytes@.take(i as int)),
        decreases n - i,
    {
        let b = bytes[i];
        proof {
            lemma_pct_enc_push(bytes@.take(i as int), b);
            assert(bytes@.take(i as int + 1) =~= bytes@.take(i as int).push(b));
        }
        if (65 <= b && b <= 90) || (97 <= b && b <= 122) || (48 <= b && b <= 57) || b == 45 || b
            == 46 || b == 95 || b == 126 {
            out.push(b);
        } else {
            out.push(37);
            out.push(hex_byte(b / 16));
            out.push(hex_byte(b % 16));
        }
        proof {
            assert(ascii_chars(out@) =~= pct_enc(bytes@.take(i as int + 1)));
        }
        i = i + 1;
    }
    proof {
        assert(bytes@.take(n as int) =~= bytes@);
    }
    ascii_to_string(out)
}

/// The identity provider's authorize URL: endpoint, escaped apiKey and appId,
/// the raw state token, and the optional requested expiry.
pub open spec fn authorize_url(
    endpoint: Seq<char>,
    key: Seq<u8>,
    id: Seq<u8>,
    state: Seq<char>,
    expiry: Option<u64>,
) -> Seq<char> {
    endpoint + "/authorize?apiKey="@ + pct_enc(key) + "&appId="@ + pct_enc(id) + "&state="@ + state
        + match expiry {
        Some(e) => "&exp="@ + dec_of(e as nat),
        None => Seq::<char>::empty(),
    }
}

/// The local URL the application shell opens to start a sign-in.
pub open spec fn login_url(port: u16, expiry: Option<u64>) -> Seq<char> {
    "http://localhost:"@ + dec_of(port as nat) + "/login"@ + match expiry {
        Some(e) => "?expiry="@ + dec_of(e as nat),
        None => Seq::<char>::empty(),
    }
}

/// Builds [`login_url`].
pub fn sign_in_url(port: u16, expiry: Option<u64>) -> (r: String)
    ensures
        r@ == login_url(port, expiry),
{
    let mut u = String::from_str("http://localhost:");
    let p = u64_to_string(port as u64);
    u.append(p.as_str());
    u.append("/login");
    match expiry {
        Some(e) => {
            u.append("?expiry=");
            let d = u64_to_string(e);
            u.append(d.as_str());
        },
        None => {},
    }
    u
}

/// What `/login` answers.
#[derive(Debug)]
pub enum LoginRouteResponse {
    /// The informational page: a session is already current, nothing changed.
    AlreadyLoggedIn,
    /// The redirect to the identity provider's authorize URL.
    Redirect(String),
}

/// A callback state matches the pending authorization.
pub open spec fn callback_ok(m: SessionManager, state: Seq<char>) -> bool {
    m.pending_state matches Some(p) && p@ == state
}

impl SessionManager {
    /// Serves `GET /login`. Already authenticated: the informational page,
    /// no state change. Otherwise a fresh random 32-character state token
    /// replaces any pending authorization, and the response is the redirect
    /// carrying the resolved apiKey and appId. An empty apiKey or appId is a
    /// configuration error and changes nothing.
    pub fn handle_login(
        &mut self,
        endpoint: &str,
        api_key: &str,
        app_id: &str,
        expiry: Option<u64>,
    ) -> (r: Result<LoginRouteResponse, AuthError>)
        requires
            old(self).wf(),
        ensures
            final(self).wf(),
            old(self).logged_in() ==> (r == Ok::<LoginRouteResponse, AuthError>(
                LoginRouteResponse::AlreadyLoggedIn,
            ) && *final(self) == *old(self)),
            !old(self).logged_in() && (api_key@.len() == 0 || app_id@.len() == 0) ==> (r == Err::<
                LoginRouteResponse,
                AuthError,
            >(AuthError::ConfigError) && *final(self) == *old(self)),
            !old(self).logged_in() && api_key@.len() > 0 && app_id@.len() > 0 ==> ({
                &&& final(self).pending_state matches Some(st) && st@.len() == 32 && (forall|
                    i: int,
                |
                    0 <= i < st@.len() ==> is_state_char(#[trigger] st@[i])) && (
                r matches Ok(LoginRouteResponse::Redirect(u)) && u@ == authorize_url(
                    endpoint@,
                    api_key.spec_bytes(),
                    app_id.spec_bytes(),
                    st@,
                    expiry,
                ))
                &&& final(self).user == old(self).user
                &&& final(self).access_token == old(self).access_token
                &&& final(self).refresh_token == old(self).refresh_token
                &&& final(self).expiry == old(self).expiry
                &&& final(self).store == old(self).store
            }),
    {
        if self.is_logged_in() {
            return Ok(LoginRouteResponse::AlreadyLoggedIn);
        }
        if api_key.is_empty() || app_id.is_empty() {
            return Err(AuthError::ConfigError);
        }
        let st = rand_str(32);
        self.pending_state = Some(st.clone());
        let mut u = String::from_str(endpoint);
        u.append("/authorize?apiKey=");
        let ek = pct_encoded(api_key);
        u.append(ek.as_str());
        u.append("&appId=");
        let ei = pct_encoded(app_id);
        u.append(ei.as_str());
        u.append("&state=");
        u.append(st.as_str());
        match expiry {
            Some(e) => {
                u.append("&exp=");
                let d = u64_to_string(e);
                u.append(d.as_str());
            },
            None => {},
        }
        Ok(LoginRouteResponse::Redirect(u))
    }

    /// Serves `GET /callback`. A state that does not match the pending
    /// authorization is rejected with no state change. A match consumes the
    /// pending authorization — one shot — computes the absolute expiry
    /// `now + expires_in`, and begins the login procedure; the page is served
    /// regardless of how that procedure later ends.
    pub fn handle_callback(
        &mut self,
        access_token: String,
        refresh_token: String,
        expires_in: u64,
        state: String,
        now: u64,
    ) -> (r: Result<Option<String>, AuthError>)
        requires
            old(self).wf(),
            valid_token(access_token@),
            valid_token(refresh_token@),
        ensures
            final(self).wf(),
            !callback_ok(*old(self), state@) ==> (r == Err::<Option<String>, AuthError>(
                AuthError::CsrfMismatch,
            ) && *final(self) == *old(self)),
            callback_ok(*old(self), state@) ==> ({
                &&& final(self).pending_state is None
                &&& final(self).access_token == Some(access_token)
                &&& final(self).refresh_token == Some(refresh_token)
                &&& final(self).expiry == sat_add_spec(now, expires_in)
                &&& final(self).user == old(self).user
                &&& final(self).store == old(self).store
                &&& r matches Ok(d) && (d is Some <==> sat_add_spec(now, expires_in) <= now) && (
                d matches Some(t) ==> t@ == refresh_token@)
            }),
    {
        let ok = match &self.pending_state {
            None => false,
            Some(p) => p.eq(&state),
        };
        if !ok {
            return Err(AuthError::CsrfMismatch);
        }
        self.pending_state = None;
        let expiry = sat_add(now, expires_in);
        let d = self.login_begin(access_token, refresh_token, expiry, now);
        Ok(d)
    }
}

/// CSRF rejection: whenever a pending authorization was issued with state
/// `s1`, a callback presenting any other state `s2` does not match, so
/// `handle_callback` leaves the session unchanged and answers 400.
pub proof fn lemma_csrf_mismatch(m: SessionManager, s1: Seq<char>, s2: Seq<char>)
    requires
        m.pending_state matches Some(p) && p@ == s1,
        s2 != s1,
    ensures
        !callback_ok(m, s2),
{
}

/// One-shot consumption: once the pending authorization is consumed, no
/// state whatever matches again, so a replay of the very same callback is
/// rejected.
pub proof fn lemma_one_shot(m: SessionManager, s: Seq<char>)
    requires
        m.pending_state is None,
    ensures
        !callback_ok(m, s),
{
}

} // verus!
