use generic_mailer::encode_mime_b;
use generic_mailer::encoded_word;
use generic_mailer::is_safe_ascii;
use generic_mailer::quote_display_name;
use generic_mailer::Address;
use generic_mailer::IntoAddress;
use generic_mailer::IntoText;
use std::borrow::Cow;

#[test]
fn test_no_name() {
    let addr = Address::new("test@example.com");
    assert!(addr.name.is_none());
    assert_eq!(addr.email, "test@example.com");
    assert_eq!(addr.to_string(), "test@example.com");
}

#[test]
fn test_with_name() {
    let addr = Address::with_name("Test User", "test@example.com");
    assert!(matches!(addr.name.as_deref(), Some("Test User")));
    assert_eq!(addr.email, "test@example.com");
    assert_eq!(addr.to_string(), "\"Test User\" <test@example.com>");
}

#[test]
fn test_quote_display_name() {
    let quoted = quote_display_name("Mary");
    assert_eq!(quoted, "\"Mary\"");

    let quoted = quote_display_name("John Doe");
    assert_eq!(quoted, "\"John Doe\"");

    let quoted = quote_display_name("Marshall \"Eminem\" Mathers");
    assert_eq!(quoted, "\"Marshall \\\"Eminem\\\" Mathers\"");

    let quoted = quote_display_name("Saul\\Hudson");
    assert_eq!(quoted, "\"Saul\\\\Hudson\"");

    let quoted = quote_display_name("María Clara de Tolitol");
    assert_eq!(quoted, "=?UTF-8?B?TWFyw61hIENsYXJhIGRlIFRvbGl0b2w=?=");

    let quoted = quote_display_name("孫悟空");
    assert_eq!(quoted, "=?UTF-8?B?5a2r5oKf56m6?=");
}

#[test]
fn test_from_str() {
    let addr = Address::from("test@example.com");
    assert!(addr.name.is_none());
    assert_eq!(addr.email, "test@example.com");
}

#[test]
fn test_from_string() {
    let addr = Address::from("test@example.com".to_string());
    assert!(addr.name.is_none());
    assert_eq!(addr.email, "test@example.com");
}

#[test]
fn test_from_tuple() {
    let addr = Address::from(("Test User", "test@example.com"));
    assert!(matches!(addr.name.as_deref(), Some("Test User")));
    assert_eq!(addr.email, "test@example.com");

    let addr = Address::from(("Test User", "test@example.com".to_string()));
    assert!(matches!(addr.name.as_deref(), Some("Test User")));
    assert_eq!(addr.email, "test@example.com");

    let addr = Address::from(("Test User".to_string(), "test@example.com"));
    assert!(matches!(addr.name.as_deref(), Some("Test User")));
    assert_eq!(addr.email, "test@example.com");

    let addr = Address::from(("Test User".to_string(), "test@example.com".to_string()));
    assert!(matches!(addr.name.as_deref(), Some("Test User")));
    assert_eq!(addr.email, "test@example.com");
}

#[test]
fn new_takes_any_email_as_it_is() {
    let addr = Address::new("");
    assert!(addr.name.is_none());
    assert_eq!(addr.email, "");
    assert_eq!(addr.to_string(), "");

    let addr = Address::new("not an email at all <>");
    assert!(addr.name.is_none());
    assert_eq!(addr.email, "not an email at all <>");
    assert_eq!(addr.to_string(), "not an email at all <>");

    let addr = Address::new(String::from("owned@example.com"));
    assert_eq!(addr.email, "owned@example.com");
}

#[test]
fn with_name_displays_quoted_name_and_email() {
    for (name, email) in [
        ("Mary", "mary@example.com"),
        ("", "nobody@example.com"),
        ("a \\ b \" c", ""),
        ("~ !", "x"),
    ] {
        let addr = Address::with_name(name, email);
        let expected = format!("{} <{}>", quote_display_name(name), email);
        assert_eq!(addr.to_string(), expected);
    }
    assert_eq!(Address::with_name("", "e").to_string(), "\"\" <e>");
}

#[test]
fn with_name_displays_encoded_name_and_email() {
    let addr = Address::with_name("Grüße", "g@example.com");
    assert_eq!(addr.to_string(), "=?UTF-8?B?R3LDvMOfZQ==?= <g@example.com>");
}

#[test]
fn quoting_escapes_backslash_and_quote_only() {
    assert_eq!(quote_display_name(""), "\"\"");
    assert_eq!(quote_display_name("\\"), "\"\\\\\"");
    assert_eq!(quote_display_name("\""), "\"\\\"\"");
    assert_eq!(quote_display_name("\\\""), "\"\\\\\\\"\"");
    assert_eq!(quote_display_name(" ~"), "\" ~\"");
    assert_eq!(quote_display_name("a<b>(c),;:@"), "\"a<b>(c),;:@\"");
}

#[test]
fn one_unsafe_byte_encodes_the_whole_name() {
    assert_eq!(quote_display_name("é"), "=?UTF-8?B?w6k=?=");
    assert_eq!(quote_display_name("a\tb"), "=?UTF-8?B?YQli?=");
    assert_eq!(quote_display_name("\u{7f}"), "=?UTF-8?B?fw==?=");
    assert_eq!(quote_display_name("Zoë \"Z\" \\ Q"), "=?UTF-8?B?Wm/DqyAiWiIgXCBR?=");
}

#[test]
fn safe_ascii_is_space_through_tilde() {
    assert!(!is_safe_ascii(0x00));
    assert!(!is_safe_ascii(0x1f));
    assert!(is_safe_ascii(0x20));
    assert!(is_safe_ascii(b'A'));
    assert!(is_safe_ascii(0x7e));
    assert!(!is_safe_ascii(0x7f));
    assert!(!is_safe_ascii(0x80));
    assert!(!is_safe_ascii(0xff));
}

#[test]
fn encode_mime_b_is_one_base64_word() {
    assert_eq!(encode_mime_b(""), "=?UTF-8?B??=");
    assert_eq!(encode_mime_b("a"), "=?UTF-8?B?YQ==?=");
    assert_eq!(encode_mime_b("ab"), "=?UTF-8?B?YWI=?=");
    assert_eq!(encode_mime_b("abc"), "=?UTF-8?B?YWJj?=");
    assert_eq!(encode_mime_b("孫悟空"), "=?UTF-8?B?5a2r5oKf56m6?=");
}

#[test]
fn encode_mime_b_does_not_fold_long_text() {
    let long = "é".repeat(600);
    let word = encode_mime_b(&long);
    assert!(word.starts_with("=?UTF-8?B?"));
    assert!(word.ends_with("?="));
    assert_eq!(word.len(), 10 + 1600 + 2);
    assert!(!word.contains('\n'));
    assert!(!word.contains(' '));
}

#[test]
fn encoded_word_wraps_its_payload() {
    assert_eq!(encoded_word(""), "=?UTF-8?B??=");
    assert_eq!(encoded_word("YQ=="), "=?UTF-8?B?YQ==?=");
}

#[test]
fn conversions_keep_text_without_copying_borrowed_input() {
    let addr = Address::from(("N", "e"));
    assert!(matches!(addr.name, Some(Cow::Borrowed("N"))));
    assert!(matches!(addr.email, Cow::Borrowed("e")));

    let addr = Address::from(("N".to_string(), "e".to_string()));
    assert!(matches!(addr.name, Some(Cow::Owned(_))));
    assert!(matches!(addr.email, Cow::Owned(_)));

    let kept: Address = Address::new("e").into_address();
    assert_eq!(kept, Address::new("e"));
    assert_eq!("e".into_address(), Address::new("e"));
    assert_eq!(("N", "e").into_address(), Address::with_name("N", "e"));
    assert_eq!(Cow::Borrowed("t").into_text(), "t");
}

#[test]
fn a_clone_equals_what_it_was_made_of() {
    let borrowed = Address::with_name("N", "e@example.com");
    assert_eq!(borrowed.clone(), borrowed);
    let owned = Address::with_name("N".to_string(), "e@example.com".to_string());
    assert_eq!(owned.clone(), owned);
    assert_eq!(owned, borrowed);
    assert_ne!(owned, Address::new("e@example.com"));
}
