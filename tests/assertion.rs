use hmac::Mac;
use sha2::Digest;
use tg_auth::canonical::check_string;
use tg_auth::decimal::decimal_string;
use tg_auth::telegram::{
    assess_assertion, constant_time_eq, data_check_fields, verify_telegram_auth, ITelegramService,
    TelegramAuthData, TelegramService, VerificationError, DEFAULT_MAX_AGE,
};

fn sign(secret: &str, check: &str) -> String {
    let key = sha2::Sha256::digest(secret.as_bytes());
    let mut mac = hmac::Hmac::<sha2::Sha256>::new_from_slice(&key).unwrap();
    mac.update(check.as_bytes());
    hex::encode(mac.finalize().into_bytes())
}

fn ann(hash: String) -> TelegramAuthData {
    TelegramAuthData {
        id: 12345,
        first_name: "Ann".to_string(),
        last_name: None,
        username: None,
        photo_url: None,
        auth_date: 1700000000,
        hash,
    }
}

fn pairs(items: &[(&str, &str)]) -> Vec<(String, String)> {
    items.iter().map(|(k, v)| (k.to_string(), v.to_string())).collect()
}

#[test]
fn scenario_bot_secret_assertion_verifies() {
    let hash = sign("bot-secret", "auth_date=1700000000\nfirst_name=Ann\nid=12345");
    let a = ann(hash);
    assert_eq!(verify_telegram_auth(&a, "bot-secret", 1700000100, DEFAULT_MAX_AGE), Ok(()));
}

#[test]
fn check_string_of_scenario_fields() {
    let a = ann(String::new());
    let fields = data_check_fields(&a);
    assert_eq!(fields[0], ("id".to_string(), "12345".to_string()));
    assert_eq!(check_string(&fields), "auth_date=1700000000\nfirst_name=Ann\nid=12345");
}

#[test]
fn check_string_sorts_keys_bytewise() {
    let fields = pairs(&[("b", "2"), ("a_b", "3"), ("a", "1"), ("B", "0")]);
    assert_eq!(check_string(&fields), "B=0\na=1\na_b=3\nb=2");
}

#[test]
fn check_string_ignores_supplied_order() {
    let one = pairs(&[("id", "7"), ("username", "ann"), ("auth_date", "5"), ("first_name", "Ann")]);
    let two = pairs(&[("first_name", "Ann"), ("auth_date", "5"), ("id", "7"), ("username", "ann")]);
    assert_eq!(check_string(&one), check_string(&two));
    assert_eq!(check_string(&one), "auth_date=5\nfirst_name=Ann\nid=7\nusername=ann");
}

#[test]
fn check_string_of_nothing_is_empty() {
    assert_eq!(check_string(&Vec::new()), "");
    assert_eq!(check_string(&pairs(&[("k", "v")])), "k=v");
}

#[test]
fn optional_fields_enter_when_not_empty() {
    let mut a = ann(String::new());
    a.last_name = Some("Lee".to_string());
    a.username = Some(String::new());
    a.photo_url = Some("https://t.me/i/a.jpg".to_string());
    let text = check_string(&data_check_fields(&a));
    assert_eq!(
        text,
        "auth_date=1700000000\nfirst_name=Ann\nid=12345\nlast_name=Lee\nphoto_url=https://t.me/i/a.jpg"
    );
    a.hash = sign("s3", &text);
    assert_eq!(verify_telegram_auth(&a, "s3", 1700000000, DEFAULT_MAX_AGE), Ok(()));
}

#[test]
fn other_secret_is_invalid_signature() {
    let hash = sign("bot-secret", "auth_date=1700000000\nfirst_name=Ann\nid=12345");
    let a = ann(hash);
    assert_eq!(
        verify_telegram_auth(&a, "other-secret", 1700000000, DEFAULT_MAX_AGE),
        Err(VerificationError::InvalidSignature)
    );
}

#[test]
fn any_flipped_signature_character_is_rejected() {
    let hash = sign("bot-secret", "auth_date=1700000000\nfirst_name=Ann\nid=12345");
    for i in 0..hash.len() {
        let mut chars: Vec<char> = hash.chars().collect();
        chars[i] = if chars[i] == '0' { '1' } else { '0' };
        let a = ann(chars.into_iter().collect());
        assert_eq!(
            verify_telegram_auth(&a, "bot-secret", 1700000000, DEFAULT_MAX_AGE),
            Err(VerificationError::InvalidSignature)
        );
    }
}

#[test]
fn uppercase_signature_is_rejected() {
    let hash = sign("bot-secret", "auth_date=1700000000\nfirst_name=Ann\nid=12345");
    let a = ann(hash.to_uppercase());
    assert_eq!(
        verify_telegram_auth(&a, "bot-secret", 1700000000, DEFAULT_MAX_AGE),
        Err(VerificationError::InvalidSignature)
    );
}

#[test]
fn stale_assertion_is_expired_even_when_signed() {
    let hash = sign("bot-secret", "auth_date=1700000000\nfirst_name=Ann\nid=12345");
    let a = ann(hash);
    assert_eq!(
        verify_telegram_auth(&a, "bot-secret", 1700000000 + 86401, DEFAULT_MAX_AGE),
        Err(VerificationError::Expired)
    );
    assert_eq!(verify_telegram_auth(&a, "bot-secret", 1700000000 + 86400, DEFAULT_MAX_AGE), Ok(()));
}

#[test]
fn empty_first_name_is_malformed() {
    let mut a = ann("00".to_string());
    a.first_name = String::new();
    assert_eq!(
        verify_telegram_auth(&a, "bot-secret", 1700000000, DEFAULT_MAX_AGE),
        Err(VerificationError::MalformedInput)
    );
}

#[test]
fn assess_compares_against_lowercase_hex_of_digest() {
    let a = ann("ab01ff".to_string());
    assert_eq!(assess_assertion(&a, &[0xab, 0x01, 0xff], 1700000000, 60), Ok(()));
    assert_eq!(
        assess_assertion(&a, &[0xab, 0x01, 0xfe], 1700000000, 60),
        Err(VerificationError::InvalidSignature)
    );
    assert_eq!(assess_assertion(&a, &[0xab, 0x01, 0xff], 1700000061, 60), Err(VerificationError::Expired));
}

#[test]
fn service_uses_its_token_and_window() {
    let hash = sign("bot-secret", "auth_date=1700000000\nfirst_name=Ann\nid=12345");
    let a = ann(hash);
    let s = TelegramService::new("bot-secret".to_string());
    assert_eq!(s.max_age, 86400);
    assert_eq!(s.verify_auth(&a, 1700000500), Ok(()));
    let short = TelegramService::with_max_age("bot-secret".to_string(), 100);
    assert_eq!(short.verify_auth(&a, 1700000500), Err(VerificationError::Expired));
}

#[test]
fn constant_time_equality() {
    assert!(constant_time_eq(b"abc", b"abc"));
    assert!(!constant_time_eq(b"abc", b"abd"));
    assert!(!constant_time_eq(b"abc", b"ab"));
    assert!(constant_time_eq(b"", b""));
}

#[test]
fn decimal_text_of_integers() {
    assert_eq!(decimal_string(0), "0");
    assert_eq!(decimal_string(-42), "-42");
    assert_eq!(decimal_string(1700000000), "1700000000");
    assert_eq!(decimal_string(i64::MAX), "9223372036854775807");
    assert_eq!(decimal_string(i64::MIN), "-9223372036854775808");
}
