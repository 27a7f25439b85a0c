use website_editor::gate::{bearer_token, err_invalid_token, require_password_set};
use website_editor::text::{contains_char, is_blank, render_i64, str_eq, strip_prefix, trim};
use website_editor::token::Claims;

#[test]
fn trim_removes_outer_whitespace_only() {
    assert_eq!(trim("  alice \t\n"), "alice");
    assert_eq!(trim("a b"), "a b");
    assert_eq!(trim(""), "");
    assert_eq!(trim(" \u{3000}x\u{00A0}"), "x");
    assert_eq!(trim(&trim("  x  ")), trim("  x  "));
    assert!(is_blank("   "));
    assert!(!is_blank(" a "));
}

#[test]
fn string_helpers() {
    assert!(str_eq("abc", "abc"));
    assert!(!str_eq("abc", "abd"));
    assert!(!str_eq("abc", "ab"));
    assert!(contains_char("a@b", '@'));
    assert!(!contains_char("ab", '@'));
    assert_eq!(strip_prefix("Bearer tok", "Bearer "), Some("tok".to_string()));
    assert_eq!(strip_prefix("Basic tok", "Bearer "), None);
    assert_eq!(strip_prefix("Bear", "Bearer "), None);
}

#[test]
fn decimal_rendering() {
    assert_eq!(render_i64(0), "0");
    assert_eq!(render_i64(200), "200");
    assert_eq!(render_i64(-42), "-42");
    assert_eq!(render_i64(i64::MAX), i64::MAX.to_string());
    assert_eq!(render_i64(i64::MIN), i64::MIN.to_string());
}

#[test]
fn bearer_header_parsing() {
    let e = bearer_token(None).unwrap_err();
    assert_eq!((e.message.as_str(), e.code), ("missing authorization header", 3001));
    let e = bearer_token(Some("Token abc")).unwrap_err();
    assert_eq!(e.message, "authorization header must be `Bearer <token>`");
    assert_eq!(e.status(), 401);
    assert_eq!(bearer_token(Some("Bearer abc.def")).unwrap(), "abc.def");
    assert_eq!(bearer_token(Some("Bearer ")).unwrap(), "");
    let e = err_invalid_token();
    assert_eq!((e.message.as_str(), e.code), ("invalid or expired token", 3001));
}

#[test]
fn pending_password_change_blocks_protected_routes() {
    let mut claims = Claims {
        sub: 1,
        username: "bobby".to_string(),
        iat: 0,
        exp: 900,
        must_change_password: true,
    };
    let e = require_password_set(&claims).unwrap_err();
    assert_eq!(e.status(), 428);
    claims.must_change_password = false;
    assert!(require_password_set(&claims).is_ok());
}
