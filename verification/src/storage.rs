//! Encrypted persistence of the session record.
//!
//! The record is the three-line plaintext `access\nrefresh\nexpiry` sealed
//! with a fixed symmetric key and nonce. [`CryptoStore`] models the persisted
//! file as a value: the application writes [`CryptoStore::raw`] to disk after
//! each change and rebuilds the store from the file's bytes at startup.

use vstd::prelude::*;

use crate::AuthError;
use crate::digits::{
    all_digits, dec_of, lemma_dec_of_digits, lemma_val_of_dec_of, parse_u64, u64_to_string,
    val_of,
};

verus! {

/// What sealing a plaintext with the store's fixed key and nonce yields.
pub uninterp spec fn sealed_of(plain: Seq<char>) -> Seq<u8>;

/// Relies on aes_gcm's Aes256Gcm with aead::Aead::encrypt: under one fixed
/// key and nonce the ciphertext is a deterministic, injective function of the
/// plaintext bytes, and encryption succeeds for plaintexts far larger than
/// the admitted length.
#[verifier::external_body]
fn seal_bytes(plain: &str) -> (r: Vec<u8>)
    requires
        plain@.len() < 0x1000_0000,
    ensures
        r@ == sealed_of(plain@),
{
    let key = aes_gcm::Key::<aes_gcm::Aes256Gcm>::from(*b"32-byte-key-authium4141234567890");
    let cipher = <aes_gcm::Aes256Gcm as aes_gcm::KeyInit>::new(&key);
    let nonce = aes_gcm::Nonce::from(*b"nonce-ezauth");
    aes_gcm::aead::Aead::encrypt(&cipher, &nonce, plain.as_bytes()).unwrap()
}

/// Holds when `r` is what opening `sealed` must yield: any plaintext the
/// bytes were sealed from comes back exactly.
pub open spec fn opens_to(sealed: Seq<u8>, r: Option<String>) -> bool {
    forall|p: Seq<char>| sealed == sealed_of(p) ==> (r matches Some(s) && s@ == p)
}

/// Relies on aes_gcm's Aes256Gcm with aead::Aead::decrypt: decryption under
/// the same key and nonce inverts encryption, so an authentic ciphertext
/// opens to exactly the plaintext it was sealed from.
#[verifier::external_body]
fn open_bytes(sealed: &Vec<u8>) -> (r: Option<String>)
    ensures
        opens_to(sealed@, r),
{
    let key = aes_gcm::Key::<aes_gcm::Aes256Gcm>::from(*b"32-byte-key-authium4141234567890");
    let cipher = <aes_gcm::Aes256Gcm as aes_gcm::KeyInit>::new(&key);
    let nonce = aes_gcm::Nonce::from(*b"nonce-ezauth");
    match aes_gcm::aead::Aead::decrypt(&cipher, &nonce, sealed.as_slice()) {
        Ok(p) => String::from_utf8(p).ok(),
        Err(_) => None,
    }
}

/// A token that fits on one line of the record: bounded and newline-free.
pub open spec fn valid_token(s: Seq<char>) -> bool {
    &&& s.len() <= 0x10_0000
    &&& forall|i: int| 0 <= i < s.len() ==> #[trigger] s[i] != '\n'
}

/// Decides [`valid_token`], so that unverified callers can test it before
/// handing a token in.
pub fn token_ok(s: &str) -> (r: bool)
    ensures
        r == valid_token(s@),
{
    let n = s.unicode_len();
    if n > 0x10_0000 {
        return false;
    }
    let mut i: usize = 0;
    while i < n
        invariant
            0 <= i <= n,
            n == s@.len(),
            forall|j: int| 0 <= j < i ==> #[trigger] s@[j] != '\n',
        decreases n - i,
    {
        if s.get_char(i) == '\n' {
            return false;
        }
        i = i + 1;
    }
    true
}

/// The plaintext of the persisted record.
pub open spec fn record_plain(a: Seq<char>, r: Seq<char>, e: u64) -> Seq<char> {
    a + seq!['\n'] + r + seq!['\n'] + dec_of(e as nat)
}

pub open spec fn pow10(k: nat) -> nat
    decreases k,
{
    if k == 0 {
        1
    } else {
        10 * pow10((k - 1) as nat)
    }
}

proof fn lemma_dec_of_len(n: nat, k: nat)
    requires
        k >= 1,
        n < pow10(k),
    ensures
        dec_of(n).len() <= k,
    decreases n,
{
    if n < 10 {
    } else {
        if k == 1 {
            assert(pow10(1) == 10) by {
                reveal_with_fuel(pow10, 2);
            }
            assert(false);
        }
        assert(pow10(k) == 10 * pow10((k - 1) as nat));
        assert(n / 10 < pow10((k - 1) as nat)) by (nonlinear_arith)
            requires
                n < pow10(k),
                pow10(k) == 10 * pow10((k - 1) as nat),
        ;
        lemma_dec_of_len(n / 10, (k - 1) as nat);
    }
}

/// Any `u64` renders in at most twenty digits.
pub proof fn lemma_dec_of_len_u64(e: u64)
    ensures
        dec_of(e as nat).len() <= 20,
{
    assert(pow10(20) == 100000000000000000000) by {
        reveal_with_fuel(pow10, 21);
    }
    lemma_dec_of_len(e as nat, 20);
}

/// Builds the three-line plaintext of the record.
fn encode_record(access: &str, refresh: &str, expiry: u64) -> (r: String)
    ensures
        r@ == record_plain(access@, refresh@, expiry),
{
    proof {
        reveal_strlit("\n");
    }
    let mut s = String::from_str(access);
    s.append("\n");
    s.append(refresh);
    s.append("\n");
    let d = u64_to_string(expiry);
    s.append(d.as_str());
    proof {
        assert(s@ =~= record_plain(access@, refresh@, expiry));
    }
    s
}

/// The least newline position at or after `from`, or the length if none.
fn find_nl(s: &str, from: usize) -> (r: usize)
    requires
        from <= s@.len(),
        s@.len() < usize::MAX,
    ensures
        from <= r <= s@.len(),
        r < s@.len() ==> s@[r as int] == '\n',
        forall|j: int| from <= j < r ==> s@[j] != '\n',
{
    let n = s.unicode_len();
    let mut i: usize = from;
    while i < n
        invariant
            from <= i <= n,
            n == s@.len(),
            forall|j: int| from <= j < i ==> s@[j] != '\n',
        decreases n - i,
    {
        let c = s.get_char(i);
        if c == '\n' {
            return i;
        }
        i = i + 1;
    }
    i
}

/// Splits a record plaintext back into its three fields. A missing line reads
/// as empty, and an unreadable expiry reads as zero; a plaintext produced by
/// [`encode_record`] comes back exactly.
fn decode_record(s: &str) -> (r: (String, String, u64))
    requires
        s@.len() < usize::MAX,
    ensures
        forall|a: Seq<char>, rr: Seq<char>, e: u64|
            valid_token(a) && valid_token(rr) && s@ == record_plain(a, rr, e) ==> (r.0@ == a
                && r.1@ == rr && r.2 == e),
{
    let n = s.unicode_len();
    let i = find_nl(s, 0);
    let first = String::from_str(s.substring_char(0, i));
    let mut second = String::new();
    let mut e: u64 = 0;
    let ghost mut j_g: int = n as int;
    if i < n {
        let j = find_nl(s, i + 1);
        proof {
            j_g = j as int;
        }
        second = String::from_str(s.substring_char(i + 1, j));
        if j < n {
            let tail = s.substring_char(j + 1, n);
            match parse_u64(tail) {
                Some(v) => {
                    e = v;
                },
                None => {
                    e = 0;
                },
            }
        }
    }
    let r = (first, second, e);
    proof {
        assert forall|a: Seq<char>, rr: Seq<char>, e2: u64|
            valid_token(a) && valid_token(rr) && s@ == record_plain(a, rr, e2) implies (r.0@ == a
            && r.1@ == rr && r.2 == e2) by {
            lemma_dec_of_digits(e2 as nat);
            lemma_val_of_dec_of(e2 as nat);
            let p = record_plain(a, rr, e2);
            let la = a.len() as int;
            let lr = rr.len() as int;
            let ld = dec_of(e2 as nat).len() as int;
            assert(p.len() == la + 1 + lr + 1 + ld);
            // The segments of the concatenation, elementwise.
            assert(forall|k: int| 0 <= k < la ==> p[k] == a[k]);
            assert(p[la] == '\n');
            assert(forall|k: int| 0 <= k < lr ==> p[la + 1 + k] == rr[k]);
            assert(p[la + 1 + lr] == '\n');
            assert(forall|k: int| 0 <= k < ld ==> p[la + 1 + lr + 1 + k] == dec_of(e2 as nat)[k]);
            // The first newline sits exactly after the access token.
            assert(i == la) by {
                if i < la {
                    assert(s@[i as int] == a[i as int]);
                } else if i > la {
                    assert(s@[la] != '\n');
                }
            }
            // The second newline sits exactly after the refresh token.
            assert(j_g == la + 1 + lr) by {
                if j_g < la + 1 + lr {
                    assert(s@[j_g] == rr[j_g - (la + 1)]);
                } else if j_g > la + 1 + lr {
                    assert(s@[la + 1 + lr] != '\n');
                }
            }
            assert(r.0@ =~= a);
            assert(r.1@ =~= rr);
            // The tail is the rendered expiry, so parsing recovers it.
            let tail_seq = s@.subrange(j_g + 1, s@.len() as int);
            assert(tail_seq =~= dec_of(e2 as nat));
            assert(val_of(dec_of(e2 as nat)) == e2);
            assert(r.2 == e2);
        }
    }
    r
}

/// The persisted session record, modelled as the file's bytes; `None` means
/// the file is absent.
pub struct CryptoStore {
    contents: Option<Vec<u8>>,
}

impl CryptoStore {
    /// The file's bytes, as the application would find them on disk.
    pub closed spec fn file(&self) -> Option<Seq<u8>> {
        match self.contents {
            Some(v) => Some(v@),
            None => None,
        }
    }

    /// An absent file: no session.
    pub fn new() -> (r: Self)
        ensures
            r.file() is None,
    {
        CryptoStore { contents: None }
    }

    /// Rebuilds the store from the bytes the application read from disk.
    pub fn from_disk(bytes: Option<Vec<u8>>) -> (r: Self)
        ensures
            bytes matches Some(b) ==> r.file() == Some(b@),
            bytes is None ==> r.file() is None,
    {
        CryptoStore { contents: bytes }
    }

    /// The bytes the application must write through to disk; `None` asks it
    /// to remove the file.
    pub fn raw(&self) -> (r: &Option<Vec<u8>>)
        ensures
            r matches Some(b) ==> self.file() == Some(b@),
            r is None ==> self.file() is None,
    {
        &self.contents
    }

    /// Seals and stores the record.
    pub fn save(&mut self, access: &str, refresh: &str, expiry: u64)
        requires
            valid_token(access@),
            valid_token(refresh@),
        ensures
            final(self).file() == Some(sealed_of(record_plain(access@, refresh@, expiry))),
    {
        proof {
            lemma_dec_of_len_u64(expiry);
        }
        let plain = encode_record(access, refresh, expiry);
        let sealed = seal_bytes(plain.as_str());
        self.contents = Some(sealed);
    }

    /// Opens the record. An absent file is the empty/zero session; a record
    /// that does not decrypt is a [`AuthError::StorageError`].
    pub fn load(&self) -> (r: Result<(String, String, u64), AuthError>)
        ensures
            self.file() is None ==> (r matches Ok(t) && t.0@ == Seq::<char>::empty() && t.1@
                == Seq::<char>::empty() && t.2 == 0),
            forall|a: Seq<char>, rr: Seq<char>, e: u64|
                valid_token(a) && valid_token(rr) && self.file() == Some(
                    sealed_of(record_plain(a, rr, e)),
                ) ==> (r matches Ok(t) && t.0@ == a && t.1@ == rr && t.2 == e),
            r is Err ==> r == Err::<(String, String, u64), AuthError>(AuthError::StorageError),
    {
        match &self.contents {
            None => Ok((String::new(), String::new(), 0)),
            Some(sealed) => {
                match open_bytes(sealed) {
                    None => Err(AuthError::StorageError),
                    Some(plain) => {
                        if plain.as_str().unicode_len() == usize::MAX {
                            // No sealed record is this long; nothing is owed
                            // of bytes that are not one.
                            proof {
                                assert forall|a: Seq<char>, rr: Seq<char>, e: u64|
                                    valid_token(a) && valid_token(rr) && self.file() == Some(
                                        sealed_of(record_plain(a, rr, e)),
                                    ) implies false by {
                                    lemma_dec_of_len_u64(e);
                                    assert(plain@ == record_plain(a, rr, e));
                                    assert(plain@.len() <= 0x10_0000 + 0x10_0000 + 22);
                                }
                            }
                            return Err(AuthError::StorageError);
                        }
                        Ok(decode_record(plain.as_str()))
                    },
                }
            },
        }
    }

    /// Removes the record.
    pub fn clear(&mut self)
        ensures
            final(self).file() is None,
    {
        self.contents = None;
    }
}

/// Round trip of the record codec: a record sealed from two tokens and an
/// expiry opens to exactly those three values (`save` then `load`).
pub proof fn lemma_record_round_trip(a: Seq<char>, rr: Seq<char>, e: u64, st: CryptoStore)
    requires
        valid_token(a),
        valid_token(rr),
        st.file() == Some(sealed_of(record_plain(a, rr, e))),
    ensures
        forall|r: Result<(String, String, u64), AuthError>|
            call_ensures(CryptoStore::load, (&st,), r) ==> (r matches Ok(t) && t.0@ == a && t.1@
                == rr && t.2 == e),
{
}

} // verus!
