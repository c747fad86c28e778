use pinepods_web::password::{encode_password, sanitize_html_with_blank_target};
use pinepods_web::settings::{AddUserResponse, SetThemeResponse};
use pinepods_web::text::{parse_code, truncate_description, validate_user_input, verify_totp_code_at};

#[test]
fn short_description_is_kept() {
    assert_eq!(truncate_description("hello".to_string(), 5), ("hello".to_string(), false));
    assert_eq!(truncate_description(String::new(), 0), (String::new(), false));
}

#[test]
fn long_description_is_cut() {
    assert_eq!(truncate_description("hello world".to_string(), 5), ("hello...".to_string(), true));
}

#[test]
fn length_is_counted_in_bytes_and_cut_in_characters() {
    // four characters, eight bytes
    assert_eq!(truncate_description("éééé".to_string(), 5), ("éééé...".to_string(), true));
    assert_eq!(truncate_description("éééé".to_string(), 2), ("éé...".to_string(), true));
}

#[test]
fn user_input_rules_in_order() {
    assert_eq!(
        validate_user_input("abc", "secret1", "a@b.c"),
        Err("Username must be at least 4 characters long".to_string())
    );
    assert_eq!(
        validate_user_input("abcd", "12345", "a@b.c"),
        Err("Password must be at least 6 characters long".to_string())
    );
    assert_eq!(
        validate_user_input("abcd", "123456", "a@b"),
        Err("Email is not in a valid format".to_string())
    );
    assert_eq!(validate_user_input("abcd", "123456", "a@b.c"), Ok(()));
}

#[test]
fn email_forms() {
    let ok = |e: &str| validate_user_input("abcd", "123456", e).is_ok();
    assert!(ok("user@example.com"));
    assert!(ok("first.last@sub.example.org"));
    assert!(!ok("user@@example.com"));
    assert!(!ok("us er@example.com"));
    assert!(!ok("@example.com"));
    assert!(!ok("user@example."));
    assert!(!ok("user@.com"));
    assert!(!ok(""));
    assert!(!ok("a\u{3000}b@example.com"));
    assert!(!ok("ab@exa\u{85}mple.com"));
    assert!(ok("a\u{200b}b@example.com"));
    assert!(ok("ab@example.com\u{e9}"));
}

#[test]
fn codes_read_as_u32() {
    assert_eq!(parse_code("123456"), Some(123456));
    assert_eq!(parse_code("+42"), Some(42));
    assert_eq!(parse_code("007"), Some(7));
    assert_eq!(parse_code("4294967295"), Some(u32::MAX));
    assert_eq!(parse_code("4294967296"), None);
    assert_eq!(parse_code("99999999999x"), None);
    assert_eq!(parse_code(""), None);
    assert_eq!(parse_code("+"), None);
    assert_eq!(parse_code("-1"), None);
    assert_eq!(parse_code("12 "), None);
    for s in ["0", "1", "65535", "+0", "18446744073709551616", "abc", "١٢"] {
        assert_eq!(parse_code(s), s.parse::<u32>().ok(), "{}", s);
    }
}

#[test]
fn totp_code_is_checked_at_the_given_time() {
    let secret = "JBSWY3DPEHPK3PXP";
    let t: u64 = 1_700_000_000;
    let code = otpauth::TOTP::new(secret).generate(30, t);
    let text = format!("{}", code);
    assert!(verify_totp_code_at(secret, &text, t));
    let other = format!("{}", (code + 1) % 1_000_000);
    assert!(!verify_totp_code_at(secret, &other, t));
    assert!(!verify_totp_code_at(secret, "not a code", t));
    assert!(!verify_totp_code_at(secret, "1000000", t));
}

#[test]
fn links_open_in_a_new_tab() {
    let out = sanitize_html_with_blank_target("<p>Hi <a href=\"https://x.org\">x</a></p><script>alert(1)</script>");
    assert!(out.contains("target=\"_blank\""));
    assert!(out.contains("href=\"https://x.org\""));
    assert!(!out.contains("script"));
    assert_eq!(sanitize_html_with_blank_target("plain"), "plain");
}

#[test]
fn password_hash_is_argon2id() {
    let h = encode_password("hunter22").unwrap();
    assert!(h.starts_with("$argon2id$v=19$"));
    assert_ne!(h, "hunter22");
}

#[test]
fn success_replies() {
    assert!(SetThemeResponse { message: "Success".to_string() }.is_success());
    assert!(!SetThemeResponse { message: "Failure".to_string() }.is_success());
    assert!(AddUserResponse { detail: "Success".to_string() }.is_success());
    assert!(!AddUserResponse { detail: "success".to_string() }.is_success());
}
