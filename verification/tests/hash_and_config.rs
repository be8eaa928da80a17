//! The identifier generator and the configuration resolver, on concrete
//! inputs.

use cross_check::config::{AnnotationArg, ConfigError, Configuration, resolve};
use cross_check::hash::djb2_hash;
use cross_check::inject::check_id;

fn kw(s: &str) -> AnnotationArg {
    AnnotationArg::Keyword(s.to_string())
}

#[test]
fn derive_is_deterministic() {
    assert_eq!(djb2_hash("foo"), djb2_hash("foo"));
    assert_eq!(djb2_hash(""), djb2_hash(""));
    assert_eq!(djb2_hash("some longer identifier"), djb2_hash("some longer identifier"));
}

#[test]
fn derive_matches_reference_table() {
    assert_eq!(djb2_hash(""), 5381);
    assert_eq!(djb2_hash("foo"), 193491849);
    assert_eq!(djb2_hash("add"), 193486030);
    assert_eq!(djb2_hash("x"), 177693);
}

#[test]
fn bare_annotation_resolves_to_defaults() {
    let cfg = resolve(&vec![]).unwrap();
    assert_eq!(cfg, Configuration { enabled: true, name: None, id: None });
}

#[test]
fn enable_and_disable_keywords() {
    for word in ["never", "disable", "no"] {
        let cfg = resolve(&vec![kw(word)]).unwrap();
        assert!(!cfg.enabled);
    }
    for word in ["always", "enable", "yes"] {
        let cfg = resolve(&vec![kw(word)]).unwrap();
        assert!(cfg.enabled);
    }
}

#[test]
fn later_arguments_win() {
    let cfg = resolve(&vec![kw("never"), kw("yes")]).unwrap();
    assert!(cfg.enabled);
    let cfg = resolve(&vec![
        AnnotationArg::Id(1),
        AnnotationArg::Id(2),
        kw("enable"),
    ])
    .unwrap();
    assert_eq!(cfg.id, Some(2));
}

#[test]
fn unknown_keyword_is_fatal() {
    let err = resolve(&vec![kw("frobnicate")]).unwrap_err();
    assert_eq!(err, ConfigError::UnknownOption("frobnicate".to_string()));
}

#[test]
fn id_out_of_range_is_fatal() {
    let err = resolve(&vec![AnnotationArg::Id(0x1_0000_0000)]).unwrap_err();
    assert_eq!(err, ConfigError::IdOutOfRange(0x1_0000_0000));
    let cfg = resolve(&vec![AnnotationArg::Id(0xffff_ffff)]).unwrap();
    assert_eq!(cfg.id, Some(u32::MAX));
}

#[test]
fn id_takes_precedence_over_name() {
    let cfg = resolve(&vec![
        AnnotationArg::Name("x".to_string()),
        AnnotationArg::Id(42),
    ])
    .unwrap();
    assert_eq!(check_id(&cfg, "foo"), 42);
}

#[test]
fn name_takes_precedence_over_identifier() {
    let cfg = resolve(&vec![AnnotationArg::Name("x".to_string())]).unwrap();
    assert_eq!(check_id(&cfg, "foo"), 177693);
    assert_eq!(check_id(&cfg, "foo"), djb2_hash("x"));
}

#[test]
fn default_uses_function_identifier() {
    let cfg = resolve(&vec![]).unwrap();
    assert_eq!(check_id(&cfg, "foo"), 193491849);
    assert_eq!(check_id(&cfg, "foo"), djb2_hash("foo"));
}
