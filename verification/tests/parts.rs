use guild_gate::decimal::parse_decimal;
use guild_gate::policy::{is_member, is_success};
use guild_gate::request::RequestUrl;
use guild_gate::response::{Response, StatusCode};
use guild_gate::signer::{sign, SigningError, MIN_KEY_LEN};
use guild_gate::templates::{FormTemplate, UserProfile};

fn profile(email: Option<&str>) -> UserProfile {
    UserProfile {
        name: "alice".to_string(),
        discriminator: "0001".to_string(),
        email: email.map(|e| e.to_string()),
    }
}

#[test]
fn membership_scan() {
    assert!(!is_member(&vec![], 5));
    assert!(is_member(&vec![5], 5));
    assert!(is_member(&vec![1, 2, 5], 5));
    assert!(is_member(&vec![5, 1, 2], 5));
    assert!(!is_member(&vec![1, 2, 3], 5));
    assert!(is_member(&vec![0, u64::MAX], u64::MAX));
}

#[test]
fn membership_ignores_order_and_repeats() {
    assert_eq!(is_member(&vec![1, 2, 3], 2), is_member(&vec![3, 2, 2, 1], 2));
    assert_eq!(is_member(&vec![1, 2, 3], 4), is_member(&vec![3, 1, 2, 3], 4));
}

#[test]
fn status_code_bounds() {
    assert!(StatusCode::from_u16(99).is_none());
    assert!(StatusCode::from_u16(0).is_none());
    assert!(StatusCode::from_u16(1000).is_none());
    assert!(StatusCode::from_u16(u16::MAX).is_none());
    assert_eq!(StatusCode::from_u16(100).unwrap().as_u16(), 100);
    assert_eq!(StatusCode::from_u16(999).unwrap().as_u16(), 999);
    assert_eq!(StatusCode::ok().as_u16(), 200);
    assert_eq!(StatusCode::temporary_redirect().as_u16(), 307);
    assert_eq!(StatusCode::not_implemented().as_u16(), 501);
}

#[test]
fn status_envelope_has_digits_and_reason() {
    let envelope = Response::from(StatusCode::from_u16(404).unwrap()).into_envelope();
    assert_eq!(envelope.status, 404);
    assert!(envelope.headers.is_empty());
    assert_eq!(envelope.body.as_deref(), Some("404: Not Found"));
    let envelope = Response::StatusCode(StatusCode::from_u16(100).unwrap()).into_envelope();
    assert_eq!(envelope.body.as_deref(), Some("100: Continue"));
}

#[test]
fn status_without_reason_is_unknown() {
    let envelope = Response::StatusCode(StatusCode::from_u16(599).unwrap()).into_envelope();
    assert_eq!(envelope.status, 599);
    assert_eq!(envelope.body.as_deref(), Some("599: Unknown Status"));
    let envelope = Response::StatusCode(StatusCode::from_u16(999).unwrap()).into_envelope();
    assert_eq!(envelope.body.as_deref(), Some("999: Unknown Status"));
}

#[test]
fn content_envelope() {
    let envelope = Response::Content("<p>hi</p>".to_string()).into_envelope();
    assert_eq!(envelope.status, 200);
    assert_eq!(
        envelope.headers,
        vec![("Content-Type".to_string(), "text/html;charset=UTF-8".to_string())]
    );
    assert_eq!(envelope.body.as_deref(), Some("<p>hi</p>"));
}

#[test]
fn redirect_envelope() {
    let envelope = Response::Redirect("https://example.com/a?b=c".to_string()).into_envelope();
    assert_eq!(envelope.status, 307);
    assert_eq!(
        envelope.headers,
        vec![("Location".to_string(), "https://example.com/a?b=c".to_string())]
    );
    assert_eq!(envelope.body, None);
}

#[test]
fn url_is_split_into_path_and_pairs() {
    let url = RequestUrl::parse("https://example.com/oauth/authorize?code=a%20b&x=1&code=z+z").unwrap();
    assert_eq!(url.path, "/oauth/authorize");
    assert_eq!(
        url.query,
        vec![
            ("code".to_string(), "a b".to_string()),
            ("x".to_string(), "1".to_string()),
            ("code".to_string(), "z z".to_string()),
        ]
    );
    assert_eq!(url.param("code").as_deref(), Some("z z"));
    assert_eq!(url.param("x").as_deref(), Some("1"));
    assert_eq!(url.param("y"), None);
    let root = RequestUrl::parse("https://example.com").unwrap();
    assert_eq!(root.path, "/");
    assert!(root.query.is_empty());
    assert_eq!(root.param("code"), None);
}

#[test]
fn invalid_url_is_refused() {
    assert!(RequestUrl::parse("").is_none());
    assert!(RequestUrl::parse("/oauth/authorize?code=1").is_none());
    assert!(RequestUrl::parse("not a url").is_none());
}

#[test]
fn key_length_is_checked_first() {
    assert_eq!(MIN_KEY_LEN, 32);
    assert_eq!(sign(&profile(None), &vec![]), Err(SigningError::KeyTooShort));
    assert_eq!(sign(&profile(None), &vec![7u8; 31]), Err(SigningError::KeyTooShort));
    assert!(sign(&profile(None), &vec![7u8; 32]).is_ok());
    assert!(sign(&profile(Some("a@example.com")), &vec![7u8; 200]).is_ok());
}

#[test]
fn signature_depends_on_key() {
    let a = sign(&profile(None), &vec![1u8; 32]).unwrap();
    let b = sign(&profile(None), &vec![2u8; 32]).unwrap();
    assert_ne!(a, b);
    let head = |t: &str| t.rsplit_once('.').unwrap().0.to_string();
    assert_eq!(head(&a), head(&b));
}

#[test]
fn form_takes_profile_fields() {
    let form = FormTemplate::for_profile(profile(Some("a@example.com")), "t.o.k".to_string(), "https://e".to_string());
    assert_eq!(form.username, "alice");
    assert_eq!(form.discriminator, "0001");
    assert_eq!(form.token, "t.o.k");
    assert_eq!(form.email, "a@example.com");
    assert_eq!(form.form_embed_url, "https://e");
    let form = FormTemplate::for_profile(profile(None), "t".to_string(), "u".to_string());
    assert_eq!(form.email, "<no email found>");
}

#[test]
fn only_2xx_counts_as_success() {
    assert!(is_success(200));
    assert!(is_success(204));
    assert!(is_success(299));
    assert!(!is_success(199));
    assert!(!is_success(300));
    assert!(!is_success(307));
    assert!(!is_success(401));
    assert!(!is_success(500));
    assert!(!is_success(0));
}

#[test]
fn decimal_texts_are_read() {
    assert_eq!(parse_decimal("0"), Some(0));
    assert_eq!(parse_decimal("42"), Some(42));
    assert_eq!(parse_decimal("+42"), Some(42));
    assert_eq!(parse_decimal("0042"), Some(42));
    assert_eq!(parse_decimal("381880193251409931"), Some(381880193251409931));
    assert_eq!(parse_decimal("18446744073709551615"), Some(u64::MAX));
    assert_eq!(parse_decimal("00018446744073709551615"), Some(u64::MAX));
}

#[test]
fn other_texts_are_refused() {
    for text in ["", "+", "-", "-1", "++1", "1+", " 42", "42 ", "4_2", "4.2", "0x10", "forty", "٤٢", "１２"] {
        assert_eq!(parse_decimal(text), None, "{:?}", text);
    }
    assert_eq!(parse_decimal("18446744073709551616"), None);
    assert_eq!(parse_decimal("18446744073709551620"), None);
    assert_eq!(parse_decimal("99999999999999999999999999"), None);
}

#[test]
fn decimal_reading_agrees_with_std() {
    for text in ["", "+", "+0", "7", "+7", "-7", "007", "18446744073709551615", "18446744073709551616", "1e3", "12a"] {
        assert_eq!(parse_decimal(text), text.parse::<u64>().ok(), "{:?}", text);
    }
}
