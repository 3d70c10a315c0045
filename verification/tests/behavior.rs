//! Scenario tests for the transformation's behaviour: naming, skipping,
//! layering, normalization, determinism, and the error cases.

use enum_decompose::checks::{check_a, check_b, success_a, success_b};
use enum_decompose::decl::{FieldDecl, Payload, RecordFields, SumTypeDecl, VariantDecl, Visibility};
use enum_decompose::decompose;
use enum_decompose::options::{OptionParseError, OptionValue, PerVariantOptionParseError,
    RawOption};
use enum_decompose::transform::TransformError;

fn b_opt_str(name: &str, value: &str) -> RawOption {
    RawOption { name: name.to_string(), value: OptionValue::StrValue(value.to_string()) }
}

fn b_opt_flag(name: &str) -> RawOption {
    RawOption { name: name.to_string(), value: OptionValue::Flag }
}

fn b_opt_bool(name: &str, value: bool) -> RawOption {
    RawOption { name: name.to_string(), value: OptionValue::BoolValue(value) }
}

fn b_field(ty: &str) -> FieldDecl {
    FieldDecl { name: None, ty: ty.to_string(), vis: Visibility::Inherited }
}

fn b_variant(name: &str, payload: Payload) -> VariantDecl {
    VariantDecl { name: name.to_string(), payload, annotations: vec![] }
}

fn b_variant_with(name: &str, payload: Payload, annotations: Vec<RawOption>) -> VariantDecl {
    VariantDecl { name: name.to_string(), payload, annotations }
}

fn b_sum(name: &str, variants: Vec<VariantDecl>) -> SumTypeDecl {
    SumTypeDecl {
        name: name.to_string(),
        vis: Visibility::Inherited,
        derives: vec![],
        variants,
    }
}

/// Default naming: variant `B` of sum type `Test1` yields `Test1B`.
#[test]
fn default_naming() {
    let input = b_sum(
        "Test1",
        vec![b_variant("B", Payload::Positional(vec![b_field("usize")]))],
    );
    let out = decompose(&vec![], &input).unwrap();
    assert!(out.records[0].name == "Test1B");
}

/// Renaming overrides prefix and suffix entirely.
#[test]
fn rename_overrides_naming() {
    let input = b_sum(
        "Test1",
        vec![b_variant_with(
            "B",
            Payload::Positional(vec![b_field("usize")]),
            vec![b_opt_str("rename", "ForceRenamed")],
        )],
    );
    let out = decompose(
        &vec![b_opt_str("prefix", "P"), b_opt_str("suffix", "S")],
        &input,
    )
    .unwrap();
    assert!(out.records[0].name == "ForceRenamed");
}

/// An empty-payload variant under default options is emitted unchanged:
/// no record and no conversion is generated for it.
#[test]
fn empty_payload_default_skip() {
    let input = b_sum(
        "Test1",
        vec![
            b_variant("A", Payload::Positional(vec![b_field("usize")])),
            b_variant("B", Payload::Empty),
        ],
    );
    let out = decompose(&vec![], &input).unwrap();
    assert_eq!(out.records.len(), 1);
    assert_eq!(out.conversions.len(), 1);
    assert!(out.records[0].name == "Test1A");
    assert!(out.sum_type.variants[1].name == "B");
    assert!(matches!(out.sum_type.variants[1].payload, Payload::Empty));
    assert!(out.sum_type.variants[1].annotations.is_empty());
}

/// With `skip_empty = false` the same variant yields a record with no
/// fields and a conversion producing the unit-like variant from it.
#[test]
fn empty_payload_forced_inclusion() {
    let input = b_sum(
        "Test1",
        vec![
            b_variant("A", Payload::Positional(vec![b_field("usize")])),
            b_variant("B", Payload::Empty),
        ],
    );
    let out = decompose(&vec![b_opt_bool("skip_empty", false)], &input).unwrap();
    assert_eq!(out.records.len(), 2);
    assert_eq!(out.conversions.len(), 2);
    assert!(out.records[1].name == "Test1B");
    assert!(matches!(out.records[1].fields, RecordFields::Marker));
    assert!(out.conversions[1].variant_name == "B");
    assert!(out.conversions[1].record_name == "Test1B");
    // The variant itself now holds one positional reference to the record.
    match &out.sum_type.variants[1].payload {
        Payload::Positional(fs) => {
            assert_eq!(fs.len(), 1);
            assert!(fs[0].ty == "Test1B");
            assert!(fs[0].name.is_none());
            assert!(matches!(fs[0].vis, Visibility::Inherited));
        },
        _ => panic!("expected a positional payload"),
    }
}

/// A variant annotated `skip` is left untouched even when `skip_empty`
/// is false and even though it carries a payload.
#[test]
fn explicit_skip_always_wins() {
    let input = b_sum(
        "Test1",
        vec![
            b_variant_with(
                "A",
                Payload::Positional(vec![b_field("usize")]),
                vec![b_opt_flag("skip")],
            ),
            b_variant_with("B", Payload::Empty, vec![b_opt_flag("skip")]),
        ],
    );
    let out = decompose(&vec![b_opt_bool("skip_empty", false)], &input).unwrap();
    assert_eq!(out.records.len(), 0);
    assert_eq!(out.conversions.len(), 0);
    assert!(matches!(out.sum_type.variants[0].payload, Payload::Positional(ref fs) if fs.len() == 1));
    assert!(out.sum_type.variants[0].annotations.is_empty());
    assert!(matches!(out.sum_type.variants[1].payload, Payload::Empty));
}

/// Visibility layering: the variant-level override beats the
/// invocation-level default, which beats the sum type's own visibility.
#[test]
fn visibility_layering() {
    let mk = || {
        SumTypeDecl {
            name: "Test1".to_string(),
            vis: Visibility::Crate,
            derives: vec![],
            variants: vec![
                b_variant("A", Payload::Positional(vec![b_field("usize")])),
                b_variant_with(
                    "B",
                    Payload::Positional(vec![b_field("usize")]),
                    vec![b_opt_str("vis", "pub(super)")],
                ),
            ],
        }
    };
    // No option anywhere: the sum type's own visibility.
    let out = decompose(&vec![], &mk()).unwrap();
    assert!(matches!(out.records[0].vis, Visibility::Crate));
    assert!(matches!(out.records[1].vis, Visibility::Super));
    // Invocation-level default beats the sum type's visibility; the
    // variant-level override still wins.
    let out = decompose(&vec![b_opt_str("vis", "pub")], &mk()).unwrap();
    assert!(matches!(out.records[0].vis, Visibility::Public));
    assert!(matches!(out.records[1].vis, Visibility::Super));
}

/// Field-visibility layering, with the maximally-public fallback.
#[test]
fn fields_vis_layering() {
    let mk = || {
        b_sum(
            "Test1",
            vec![
                b_variant("A", Payload::Positional(vec![b_field("usize")])),
                b_variant_with(
                    "B",
                    Payload::Positional(vec![b_field("usize")]),
                    vec![b_opt_str("fields_vis", "pub(crate)")],
                ),
            ],
        )
    };
    let out = decompose(&vec![], &mk()).unwrap();
    match (&out.records[0].fields, &out.records[1].fields) {
        (RecordFields::Positional(a), RecordFields::Positional(b)) => {
            assert!(matches!(a[0].vis, Visibility::Public));
            assert!(matches!(b[0].vis, Visibility::Crate));
        },
        _ => panic!("expected positional record fields"),
    }
    let out = decompose(&vec![b_opt_str("fields_vis", "")], &mk()).unwrap();
    match (&out.records[0].fields, &out.records[1].fields) {
        (RecordFields::Positional(a), RecordFields::Positional(b)) => {
            assert!(matches!(a[0].vis, Visibility::Inherited));
            assert!(matches!(b[0].vis, Visibility::Crate));
        },
        _ => panic!("expected positional record fields"),
    }
}

/// Capability-list layering: the sum type's own list is used only when no
/// `derive` was given anywhere.
#[test]
fn derive_layering() {
    let mk = || {
        SumTypeDecl {
            name: "Test1".to_string(),
            vis: Visibility::Inherited,
            derives: vec!["Debug".to_string(), "Clone".to_string()],
            variants: vec![
                b_variant("A", Payload::Positional(vec![b_field("usize")])),
                b_variant_with(
                    "B",
                    Payload::Positional(vec![b_field("usize")]),
                    vec![b_opt_str("derive", "Hash")],
                ),
            ],
        }
    };
    let out = decompose(&vec![], &mk()).unwrap();
    assert!(out.records[0].derives == vec!["Debug".to_string(), "Clone".to_string()]);
    assert!(out.records[1].derives == vec!["Hash".to_string()]);
    let out = decompose(&vec![b_opt_str("derive", "Default")], &mk()).unwrap();
    assert!(out.records[0].derives == vec!["Default".to_string()]);
    assert!(out.records[1].derives == vec!["Hash".to_string()]);
    // An explicitly empty invocation-level list still counts as given.
    let out = decompose(&vec![b_opt_str("derive", "")], &mk()).unwrap();
    assert!(out.records[0].derives.is_empty());
}

/// A variant declared with an empty parenthesized payload produces a
/// record with no field list at all.
#[test]
fn zero_field_positional_normalization() {
    let input = b_sum("Test1", vec![b_variant("C", Payload::Positional(vec![]))]);
    let out = decompose(&vec![b_opt_bool("skip_empty", false)], &input).unwrap();
    assert!(matches!(out.records[0].fields, RecordFields::Marker));
    // A braced empty payload, in contrast, keeps its empty braced list.
    let input = b_sum("Test1", vec![b_variant("D", Payload::Named(vec![]))]);
    let out = decompose(&vec![b_opt_bool("skip_empty", false)], &input).unwrap();
    assert!(matches!(out.records[0].fields, RecordFields::Named(ref fs) if fs.is_empty()));
}

/// Determinism: the same declaration and options give identical output
/// across repeated invocations.
#[test]
fn deterministic_output() {
    let mk = || {
        b_sum(
            "Test1",
            vec![
                b_variant("A", Payload::Positional(vec![b_field("usize")])),
                b_variant_with("B", Payload::Empty, vec![b_opt_flag("skip")]),
            ],
        )
    };
    let opts = || vec![b_opt_str("prefix", "P"), b_opt_str("suffix", "S")];
    let out1 = decompose(&opts(), &mk()).unwrap();
    let out2 = decompose(&opts(), &mk()).unwrap();
    assert!(out1 == out2);
}

/// The visibility queries the test fixtures rely on: by default the
/// records of `Invisible` inherit the enum's visibility.
#[test]
fn invisible_records() {
    let mk = |vis: Visibility, annotations: Vec<RawOption>| {
        SumTypeDecl {
            name: "Invisible".to_string(),
            vis,
            derives: vec!["Debug".to_string(), "Clone".to_string()],
            variants: vec![
                b_variant("A", Payload::Positional(vec![b_field("usize")])),
                b_variant_with("B", Payload::Positional(vec![b_field("usize")]), annotations),
            ],
        }
    };
    // A public enum: both records inherit its visibility.
    let out = decompose(&vec![], &mk(Visibility::Public, vec![])).unwrap();
    assert!(check_a(&out) && check_b(&out));
    assert!(success_a(&out) && success_b(&out));
    // A private enum with a forced public visibility.
    let out = decompose(&vec![b_opt_str("vis", "pub")], &mk(Visibility::Inherited, vec![]))
        .unwrap();
    assert!(success_a(&out) && success_b(&out));
    // A variant-level empty override hides one record again.
    let out = decompose(
        &vec![b_opt_str("vis", "pub")],
        &mk(Visibility::Inherited, vec![b_opt_str("vis", "")]),
    )
    .unwrap();
    assert!(success_a(&out));
    assert!(!success_b(&out));
    assert!(check_b(&out));
}

/// An unrecognized invocation-level option aborts the invocation.
#[test]
fn unknown_global_option() {
    let input = b_sum("Test1", vec![b_variant("A", Payload::Positional(vec![b_field("u8")]))]);
    let r = decompose(&vec![b_opt_str("prefx", "X")], &input);
    match r {
        Err(TransformError::Options(OptionParseError::UnknownOption(n))) => {
            assert!(n == "prefx")
        },
        _ => panic!("expected an unknown-option error"),
    }
}

/// A duplicated invocation-level option aborts the invocation.
#[test]
fn duplicate_global_option() {
    let input = b_sum("Test1", vec![b_variant("A", Payload::Positional(vec![b_field("u8")]))]);
    let r = decompose(&vec![b_opt_str("prefix", "X"), b_opt_str("prefix", "Y")], &input);
    match r {
        Err(TransformError::Options(OptionParseError::DuplicateOption(n))) => {
            assert!(n == "prefix")
        },
        _ => panic!("expected a duplicate-option error"),
    }
}

/// A malformed visibility value aborts the invocation.
#[test]
fn malformed_global_visibility() {
    let input = b_sum("Test1", vec![b_variant("A", Payload::Positional(vec![b_field("u8")]))]);
    let r = decompose(&vec![b_opt_str("vis", "pub(")], &input);
    match r {
        Err(TransformError::Options(OptionParseError::InvalidValue(n))) => assert!(n == "vis"),
        _ => panic!("expected an invalid-value error"),
    }
}

/// A malformed capability list aborts the invocation.
#[test]
fn malformed_global_derive() {
    let input = b_sum("Test1", vec![b_variant("A", Payload::Positional(vec![b_field("u8")]))]);
    let r = decompose(&vec![b_opt_str("derive", "Debug,,Clone")], &input);
    match r {
        Err(TransformError::Options(OptionParseError::InvalidValue(n))) => assert!(n == "derive"),
        _ => panic!("expected an invalid-value error"),
    }
}

/// A wrongly shaped value aborts the invocation: `skip_empty` takes a
/// bool, not a string.
#[test]
fn wrong_value_shape() {
    let input = b_sum("Test1", vec![b_variant("A", Payload::Positional(vec![b_field("u8")]))]);
    let r = decompose(&vec![b_opt_str("skip_empty", "false")], &input);
    assert!(matches!(
        r,
        Err(TransformError::Options(OptionParseError::InvalidValue(_)))
    ));
}

/// A per-variant error names the offending variant; the invocation-level
/// bag is resolved first, so its errors win.
#[test]
fn per_variant_errors() {
    let mk = |anns: Vec<RawOption>| {
        b_sum(
            "Test1",
            vec![
                b_variant("A", Payload::Positional(vec![b_field("u8")])),
                b_variant_with("B", Payload::Positional(vec![b_field("u8")]), anns),
            ],
        )
    };
    // Unknown per-variant option, reported with the variant's index.
    let r = decompose(&vec![], &mk(vec![b_opt_str("color", "red")]));
    match r {
        Err(TransformError::VariantOptions {
            index,
            error: PerVariantOptionParseError::UnknownOption(n),
        }) => {
            assert_eq!(index, 1);
            assert!(n == "color");
        },
        _ => panic!("expected a per-variant unknown-option error"),
    }
    // A malformed rename is rejected.
    let r = decompose(&vec![], &mk(vec![b_opt_str("rename", "123Bad")]));
    assert!(matches!(
        r,
        Err(TransformError::VariantOptions {
            index: 1,
            error: PerVariantOptionParseError::InvalidValue(_)
        })
    ));
    // An invocation-level error aborts before any variant is looked at.
    let r = decompose(&vec![b_opt_str("nope", "x")], &mk(vec![b_opt_str("color", "red")]));
    assert!(matches!(r, Err(TransformError::Options(_))));
}

/// Resolution strips per-variant option bags even from variants that are
/// skipped, and still reports their errors.
#[test]
fn skipped_variant_errors_still_reported() {
    let input = b_sum(
        "Test1",
        vec![b_variant_with(
            "B",
            Payload::Empty,
            vec![b_opt_flag("skip"), b_opt_str("bogus", "x")],
        )],
    );
    let r = decompose(&vec![], &input);
    assert!(matches!(
        r,
        Err(TransformError::VariantOptions {
            index: 0,
            error: PerVariantOptionParseError::UnknownOption(_)
        })
    ));
}
