//! Tests for the option-value grammars: visibility specifiers,
//! capability-path lists, and identifiers.

use enum_decompose::decl::Visibility;
use enum_decompose::syntax::{check_path, parse_path_list, parse_visibility};
use enum_decompose::text::{check_ident, str_eq};

#[test]
fn visibility_forms() {
    assert!(matches!(parse_visibility(""), Some(Visibility::Inherited)));
    assert!(matches!(parse_visibility("   "), Some(Visibility::Inherited)));
    assert!(matches!(parse_visibility("pub"), Some(Visibility::Public)));
    assert!(matches!(parse_visibility("  pub  "), Some(Visibility::Public)));
    assert!(matches!(parse_visibility("pub(crate)"), Some(Visibility::Crate)));
    assert!(matches!(parse_visibility("pub ( crate )"), Some(Visibility::Crate)));
    assert!(matches!(parse_visibility("pub(super)"), Some(Visibility::Super)));
    assert!(matches!(parse_visibility("pub(self)"), Some(Visibility::SelfScope)));
    match parse_visibility("pub(in crate::outer)") {
        Some(Visibility::InPath(p)) => assert!(p == "crate::outer"),
        _ => panic!("expected a path-restricted visibility"),
    }
}

#[test]
fn visibility_rejections() {
    assert!(parse_visibility("pubx").is_none());
    assert!(parse_visibility("pub(").is_none());
    assert!(parse_visibility("pub()").is_none());
    assert!(parse_visibility("pub(crates)").is_none());
    assert!(parse_visibility("pub(in)").is_none());
    assert!(parse_visibility("pub(in )").is_none());
    assert!(parse_visibility("crate").is_none());
    assert!(parse_visibility("pub(crate").is_none());
}

#[test]
fn path_lists() {
    let ps = parse_path_list("Debug, Clone, Default").unwrap();
    assert!(ps == vec!["Debug".to_string(), "Clone".to_string(), "Default".to_string()]);
    assert!(parse_path_list("").unwrap().is_empty());
    assert!(parse_path_list("   ").unwrap().is_empty());
    let ps = parse_path_list("Debug,").unwrap();
    assert!(ps == vec!["Debug".to_string()]);
    let ps = parse_path_list("std::fmt::Debug , serde::Serialize").unwrap();
    assert!(ps == vec!["std::fmt::Debug".to_string(), "serde::Serialize".to_string()]);
    assert!(parse_path_list(",Debug").is_none());
    assert!(parse_path_list("Debug,,Clone").is_none());
    assert!(parse_path_list(",").is_none());
    assert!(parse_path_list("Debug Clone").is_none());
    assert!(parse_path_list("a::").is_none());
    assert!(parse_path_list("a:b").is_none());
}

#[test]
fn paths_and_idents() {
    assert!(check_path("a"));
    assert!(check_path("a::b::c"));
    assert!(check_path("_x1::Y2"));
    assert!(!check_path(""));
    assert!(!check_path("1a"));
    assert!(!check_path("a::"));
    assert!(!check_path("::a"));
    assert!(check_ident("ForceRenamed"));
    assert!(check_ident("_private"));
    assert!(!check_ident("123Bad"));
    assert!(!check_ident(""));
    assert!(!check_ident("has space"));
    assert!(!check_ident("has::path"));
}

#[test]
fn plain_string_equality() {
    assert!(str_eq("", ""));
    assert!(str_eq("abc", "abc"));
    assert!(!str_eq("abc", "abd"));
    assert!(!str_eq("abc", "abcd"));
}
