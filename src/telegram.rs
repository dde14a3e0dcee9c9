//! Verification of the identity assertion signed by the messaging platform's
//! login widget: canonical check-string, HMAC-SHA256 under a key derived from the
//! bot token, constant-time comparison, and a freshness window.
use vstd::prelude::*;
use vstd::string::*;
use vstd::utf8::*;
use crate::canonical::{canonical, check_string, fields_view, keys_distinct, Entry};
use crate::decimal::{decimal, decimal_string};

verus! {

/// The assertion as the login widget hands it over; untrusted until verified.
pub struct TelegramAuthData {
    pub id: i64,
    pub first_name: String,
    pub last_name: Option<String>,
    pub username: Option<String>,
    pub photo_url: Option<String>,
    pub auth_date: i64,
    pub hash: String,
}

#[derive(Debug, Clone, Copy, PartialEq, Eq, Structural)]
pub enum VerificationError {
    /// A mandatory field is empty.
    MalformedInput,
    /// The signature is not the one the provider's secret gives.
    InvalidSignature,
    /// The assertion is older than the accepted age.
    Expired,
}

/// Default freshness window of an assertion: 24 hours, in seconds.
pub const DEFAULT_MAX_AGE: i64 = 86400;

/// The SHA-256 digest of `data`.
pub uninterp spec fn sha256_of(data: Seq<u8>) -> Seq<u8>;

/// The HMAC-SHA256 tag of `message` under `key`.
pub uninterp spec fn hmac_sha256_of(key: Seq<u8>, message: Seq<u8>) -> Seq<u8>;

/// Relies on sha2's `Sha256::digest`: the 32-byte SHA-256 digest of `data`.
#[verifier::external_body]
fn sha256(data: &[u8]) -> (r: Vec<u8>)
    ensures
        r@ == sha256_of(data@),
        r@.len() == 32,
{
    <sha2::Sha256 as sha2::Digest>::digest(data).to_vec()
}

/// Relies on hmac's `Hmac<Sha256>`: `new_from_slice` takes a key of any length
/// (it never fails), and `finalize` gives the 32-byte HMAC-SHA256 tag of what
/// was fed to `update`.
#[verifier::external_body]
fn hmac_sha256(key: &[u8], message: &[u8]) -> (r: Vec<u8>)
    ensures
        r@ == hmac_sha256_of(key@, message@),
        r@.len() == 32,
{
    let mut mac = <hmac::Hmac<sha2::Sha256> as hmac::Mac>::new_from_slice(key).expect(
        "HMAC accepts keys of any length",
    );
    hmac::Mac::update(&mut mac, message);
    hmac::Mac::finalize(mac).into_bytes().to_vec()
}

pub open spec fn hex_digit(n: int) -> char {
    seq!['0', '1', '2', '3', '4', '5', '6', '7', '8', '9', 'a', 'b', 'c', 'd', 'e', 'f'][n]
}

/// Lowercase hexadecimal text of `b`: two digits per byte, high nibble first.
pub open spec fn hex_text(b: Seq<u8>) -> Seq<char>
    decreases b.len(),
{
    if b.len() == 0 {
        Seq::empty()
    } else {
        hex_text(b.drop_last()) + seq![hex_digit(b.last() as int / 16), hex_digit(b.last() as int % 16)]
    }
}

/// Relies on hex's `encode`: each byte becomes two lowercase hex digits, high
/// nibble first.
#[verifier::external_body]
fn to_hex(bytes: &[u8]) -> (r: String)
    ensures
        r@ == hex_text(bytes@),
{
    hex::encode(bytes)
}

/// Equality of two byte strings whose running time depends on their lengths
/// only, never on where they first differ.
pub fn constant_time_eq(a: &[u8], b: &[u8]) -> (r: bool)
    ensures
        r == (a@ == b@),
{
    if a.len() != b.len() {
        return false;
    }
    let mut diff: u8 = 0;
    let mut i: usize = 0;
    while i < a.len()
        invariant
            a@.len() == b@.len(),
            i <= a@.len(),
            (diff == 0) == (forall|j: int| 0 <= j < i ==> a@[j] == b@[j]),
        decreases a@.len() - i,
    {
        let x = a[i];
        let y = b[i];
        let d = x ^ y;
        assert((d == 0) == (x == y)) by (bit_vector)
            requires
                d == x ^ y,
        ;
        assert(((diff | d) == 0) == (diff == 0 && d == 0)) by (bit_vector);
        diff = diff | d;
        i += 1;
    }
    if diff == 0 {
        assert(a@ =~= b@);
    }
    diff == 0
}

pub open spec fn key_id() -> Seq<char> {
    seq!['i', 'd']
}

pub open spec fn key_first_name() -> Seq<char> {
    seq!['f', 'i', 'r', 's', 't', '_', 'n', 'a', 'm', 'e']
}

pub open spec fn key_last_name() -> Seq<char> {
    seq!['l', 'a', 's', 't', '_', 'n', 'a', 'm', 'e']
}

pub open spec fn key_username() -> Seq<char> {
    seq!['u', 's', 'e', 'r', 'n', 'a', 'm', 'e']
}

pub open spec fn key_photo_url() -> Seq<char> {
    seq!['p', 'h', 'o', 't', 'o', '_', 'u', 'r', 'l']
}

pub open spec fn key_auth_date() -> Seq<char> {
    seq!['a', 'u', 't', 'h', '_', 'd', 'a', 't', 'e']
}

/// `s` with the entry `(key, v)` added when `v` is present and not empty.
pub open spec fn with_optional(s: Seq<Entry>, key: Seq<char>, v: Option<String>) -> Seq<Entry> {
    if v is Some && v->Some_0@.len() > 0 {
        s.push((key, v->Some_0@))
    } else {
        s
    }
}

/// The fields of the assertion that the signature covers: all but `hash`.
pub open spec fn data_check_entries(a: TelegramAuthData) -> Seq<Entry> {
    let base = seq![(key_id(), decimal(a.id as int)), (key_first_name(), a.first_name@)];
    with_optional(
        with_optional(with_optional(base, key_last_name(), a.last_name), key_username(), a.username),
        key_photo_url(),
        a.photo_url,
    ).push((key_auth_date(), decimal(a.auth_date as int)))
}

/// The tag that the provider computes for assertion `a` with bot token `secret`.
pub open spec fn expected_digest(a: TelegramAuthData, secret: Seq<char>) -> Seq<u8> {
    hmac_sha256_of(sha256_of(encode_utf8(secret)), encode_utf8(canonical(data_check_entries(a))))
}

/// What the verifier answers for an assertion whose signature is checked against
/// the tag `digest`, at time `now`, accepting assertions at most `max_age` seconds old.
pub open spec fn assertion_outcome(
    first_name: Seq<char>,
    hash: Seq<char>,
    auth_date: i64,
    digest: Seq<u8>,
    now: i64,
    max_age: i64,
) -> Result<(), VerificationError> {
    if first_name.len() == 0 {
        Err(VerificationError::MalformedInput)
    } else if hash != hex_text(digest) {
        Err(VerificationError::InvalidSignature)
    } else if now - auth_date > max_age {
        Err(VerificationError::Expired)
    } else {
        Ok(())
    }
}

fn push_optional(fields: &mut Vec<(String, String)>, key: &str, v: &Option<String>)
    ensures
        fields_view(final(fields)@) == with_optional(fields_view(old(fields)@), key@, *v),
{
    let ghost before = fields_view(fields@);
    match v {
        Some(text) => {
            if text.as_str().unicode_len() > 0 {
                fields.push((String::from_str(key), text.clone()));
                assert(fields_view(fields@) =~= before.push((key@, text@)));
            } else {
                assert(fields_view(fields@) =~= before);
            }
        },
        None => {
            assert(fields_view(fields@) =~= before);
        },
    }
}

proof fn lemma_keys_distinct(a: TelegramAuthData)
    ensures
        keys_distinct(data_check_entries(a)),
{
    let s = data_check_entries(a);
    assert forall|i: int, j: int| 0 <= i < j < s.len() implies #[trigger] s[i].0 != #[trigger] s[j].0 by {
        assert(s[i].0[0] != s[j].0[0]);
    }
}

/// The fields of `a` that its signature covers, in the order the widget lists them.
pub fn data_check_fields(a: &TelegramAuthData) -> (r: Vec<(String, String)>)
    ensures
        fields_view(r@) == data_check_entries(*a),
{
    proof {
        reveal_strlit("id");
        reveal_strlit("first_name");
        reveal_strlit("last_name");
        reveal_strlit("username");
        reveal_strlit("photo_url");
        reveal_strlit("auth_date");
    }
    assert("id"@ =~= key_id());
    assert("first_name"@ =~= key_first_name());
    assert("auth_date"@ =~= key_auth_date());
    let mut fields: Vec<(String, String)> = Vec::new();
    fields.push((String::from_str("id"), decimal_string(a.id)));
    fields.push((String::from_str("first_name"), a.first_name.clone()));
    assert(fields_view(fields@) =~= seq![(key_id(), decimal(a.id as int)), (key_first_name(), a.first_name@)]);
    assert("last_name"@ =~= key_last_name());
    assert("username"@ =~= key_username());
    assert("photo_url"@ =~= key_photo_url());
    push_optional(&mut fields, "last_name", &a.last_name);
    push_optional(&mut fields, "username", &a.username);
    push_optional(&mut fields, "photo_url", &a.photo_url);
    let ghost before = fields_view(fields@);
    fields.push((String::from_str("auth_date"), decimal_string(a.auth_date)));
    assert(fields_view(fields@) =~= before.push((key_auth_date(), decimal(a.auth_date as int))));
    fields
}

/// Judges assertion `a` against the tag `digest` that the provider's secret gives
/// for it: empty first name, then signature, then age, at time `now`.
pub fn assess_assertion(a: &TelegramAuthData, digest: &[u8], now: i64, max_age: i64) -> (r: Result<
    (),
    VerificationError,
>)
    ensures
        r == assertion_outcome(a.first_name@, a.hash@, a.auth_date, digest@, now, max_age),
{
    if a.first_name.as_str().unicode_len() == 0 {
        return Err(VerificationError::MalformedInput);
    }
    let expected = to_hex(digest);
    let same = constant_time_eq(expected.as_str().as_bytes(), a.hash.as_str().as_bytes());
    proof {
        encode_utf8_decode_utf8(expected@);
        encode_utf8_decode_utf8(a.hash@);
    }
    if !same {
        return Err(VerificationError::InvalidSignature);
    }
    if (now as i128) - (a.auth_date as i128) > max_age as i128 {
        return Err(VerificationError::Expired);
    }
    Ok(())
}

/// Verifies assertion `a` against the bot token `bot_token` at time `now`,
/// accepting assertions at most `max_age` seconds old.
pub fn verify_telegram_auth(a: &TelegramAuthData, bot_token: &str, now: i64, max_age: i64) -> (r:
    Result<(), VerificationError>)
    ensures
        r == assertion_outcome(
            a.first_name@,
            a.hash@,
            a.auth_date,
            expected_digest(*a, bot_token@),
            now,
            max_age,
        ),
{
    let fields = data_check_fields(a);
    proof {
        lemma_keys_distinct(*a);
    }
    let text = check_string(&fields);
    let key = sha256(bot_token.as_bytes());
    let digest = hmac_sha256(key.as_slice(), text.as_str().as_bytes());
    assess_assertion(a, digest.as_slice(), now, max_age)
}

/// An assertion signed with secret `secret` verifies with that same secret,
/// when its first name is given and it is within the age window.
pub proof fn lemma_signed_with_same_secret_accepted(a: TelegramAuthData, secret: Seq<char>, now: i64, max_age: i64)
    requires
        a.first_name@.len() > 0,
        a.hash@ == hex_text(expected_digest(a, secret)),
        now - a.auth_date <= max_age,
    ensures
        assertion_outcome(a.first_name@, a.hash@, a.auth_date, expected_digest(a, secret), now, max_age)
            == Ok::<(), VerificationError>(()),
{
}

/// An assertion signed with `secret` fails with `InvalidSignature` under any
/// other secret `other` whose tag for it differs (that is, barring an HMAC
/// collision between the two keys).
pub proof fn lemma_signed_with_other_secret_rejected(
    a: TelegramAuthData,
    secret: Seq<char>,
    other: Seq<char>,
    now: i64,
    max_age: i64,
)
    requires
        a.first_name@.len() > 0,
        a.hash@ == hex_text(expected_digest(a, secret)),
        hex_text(expected_digest(a, other)) != hex_text(expected_digest(a, secret)),
    ensures
        assertion_outcome(a.first_name@, a.hash@, a.auth_date, expected_digest(a, other), now, max_age)
            == Err::<(), VerificationError>(VerificationError::InvalidSignature),
{
}

/// Replacing any one character of a correct signature by another character
/// makes the assertion fail with `InvalidSignature`.
pub proof fn lemma_altered_signature_rejected(
    first_name: Seq<char>,
    hash: Seq<char>,
    auth_date: i64,
    digest: Seq<u8>,
    now: i64,
    max_age: i64,
    i: int,
    c: char,
)
    requires
        first_name.len() > 0,
        hash == hex_text(digest),
        0 <= i < hash.len(),
        c != hash[i],
    ensures
        assertion_outcome(first_name, hash.update(i, c), auth_date, digest, now, max_age)
            == Err::<(), VerificationError>(VerificationError::InvalidSignature),
{
    assert(hash.update(i, c)[i] != hash[i]);
}

/// An assertion older than the accepted age fails with `Expired`, even when its
/// signature is correct.
pub proof fn lemma_stale_assertion_expired(
    first_name: Seq<char>,
    hash: Seq<char>,
    auth_date: i64,
    digest: Seq<u8>,
    now: i64,
    max_age: i64,
)
    requires
        first_name.len() > 0,
        hash == hex_text(digest),
        now - auth_date > max_age,
    ensures
        assertion_outcome(first_name, hash, auth_date, digest, now, max_age)
            == Err::<(), VerificationError>(VerificationError::Expired),
{
}

/// The capability of checking an identity assertion.
pub trait ITelegramService {
    /// The answer the service owes for assertion `a` at time `now`.
    spec fn auth_outcome(&self, a: TelegramAuthData, now: i64) -> Result<(), VerificationError>;

    fn verify_auth(&self, auth_data: &TelegramAuthData, now: i64) -> (r: Result<(), VerificationError>)
        ensures
            r == self.auth_outcome(*auth_data, now),
    ;
}

/// Assertion verifier configured with the bot token and the accepted age.
pub struct TelegramService {
    pub bot_token: String,
    pub max_age: i64,
}

impl TelegramService {
    /// A verifier for `bot_token` with the default age window of 24 hours.
    pub fn new(bot_token: String) -> (r: TelegramService)
        ensures
            r.bot_token@ == bot_token@,
            r.max_age == DEFAULT_MAX_AGE,
    {
        TelegramService { bot_token, max_age: DEFAULT_MAX_AGE }
    }

    /// A verifier for `bot_token` that accepts assertions at most `max_age` seconds old.
    pub fn with_max_age(bot_token: String, max_age: i64) -> (r: TelegramService)
        ensures
            r.bot_token@ == bot_token@,
            r.max_age == max_age,
    {
        TelegramService { bot_token, max_age }
    }
}

impl ITelegramService for TelegramService {
    open spec fn auth_outcome(&self, a: TelegramAuthData, now: i64) -> Result<(), VerificationError> {
        assertion_outcome(
            a.first_name@,
            a.hash@,
            a.auth_date,
            expected_digest(a, self.bot_token@),
            now,
            self.max_age,
        )
    }

    fn verify_auth(&self, auth_data: &TelegramAuthData, now: i64) -> (r: Result<(), VerificationError>) {
        verify_telegram_auth(auth_data, self.bot_token.as_str(), now, self.max_age)
    }
}

} // verus!
