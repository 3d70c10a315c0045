//! End-to-end runs of the transformation on a family of sum-type
//! declarations: derive copying, derive overrides, renaming, skipping,
//! and forced inclusion of empty variants.

use enum_decompose::checks::{assert_clone_debug, assert_default, assert_eq as record_has_eq};
use enum_decompose::convert::{apply_conversion, construct_variant};
use enum_decompose::decl::{FieldDecl, Payload, RecordFields, SumTypeDecl, VariantDecl, Visibility};
use enum_decompose::decompose;
use enum_decompose::options::{OptionValue, RawOption};

fn p_opt_str(name: &str, value: &str) -> RawOption {
    RawOption { name: name.to_string(), value: OptionValue::StrValue(value.to_string()) }
}

fn p_opt_flag(name: &str) -> RawOption {
    RawOption { name: name.to_string(), value: OptionValue::Flag }
}

fn p_opt_bool(name: &str, value: bool) -> RawOption {
    RawOption { name: name.to_string(), value: OptionValue::BoolValue(value) }
}

fn p_field(ty: &str) -> FieldDecl {
    FieldDecl { name: None, ty: ty.to_string(), vis: Visibility::Inherited }
}

fn p_named_field(name: &str, ty: &str) -> FieldDecl {
    FieldDecl { name: Some(name.to_string()), ty: ty.to_string(), vis: Visibility::Inherited }
}

fn p_variant(name: &str, payload: Payload) -> VariantDecl {
    VariantDecl { name: name.to_string(), payload, annotations: vec![] }
}

fn p_variant_with(name: &str, payload: Payload, annotations: Vec<RawOption>) -> VariantDecl {
    VariantDecl { name: name.to_string(), payload, annotations }
}

fn p_sum(name: &str, derives: &[&str], variants: Vec<VariantDecl>) -> SumTypeDecl {
    SumTypeDecl {
        name: name.to_string(),
        vis: Visibility::Inherited,
        derives: derives.iter().map(|d| d.to_string()).collect(),
        variants,
    }
}

fn p_derive_names(derives: &Vec<String>) -> Vec<String> {
    derives.clone()
}

/// `enum Test { VariantA(usize, i64) }`: the conversion generated for the
/// extracted variant builds the same sum-type value as constructing the
/// variant directly with the same payload.
#[test]
fn check_into() {
    let input = p_sum(
        "Test",
        &["Debug", "Clone", "Eq", "PartialEq"],
        vec![p_variant("VariantA", Payload::Positional(vec![p_field("usize"), p_field("i64")]))],
    );
    let out = decompose(&vec![], &input).unwrap();
    assert_eq!(out.conversions.len(), 1);
    let conversion = &out.conversions[0];
    assert!(conversion.record_name == "TestVariantA");
    assert!(conversion.sum_type_name == "Test");
    assert!(conversion.variant_name == "VariantA");
    let converted = apply_conversion(conversion, (0usize, 16i64));
    let direct = construct_variant(&"VariantA".to_string(), (0usize, 16i64));
    assert!(converted == direct);
}

/// The same round trip, checked field by field.
#[test]
fn tests_check_into() {
    let input = p_sum(
        "Test",
        &["Debug", "Clone", "Eq", "PartialEq"],
        vec![p_variant("VariantA", Payload::Positional(vec![p_field("usize"), p_field("i64")]))],
    );
    let out = decompose(&vec![], &input).unwrap();
    let conversion = &out.conversions[0];
    let converted = apply_conversion(conversion, (0usize, 16i64));
    let direct = construct_variant(&"VariantA".to_string(), (0usize, 16i64));
    assert!(converted.variant_name == direct.variant_name);
    assert!(converted.payload == direct.payload);
}

/// The capability lists of generated records: enum capabilities copied
/// by default, invocation-level
/// `derive` replacing them, variant-level `derive` overriding both,
/// renaming, skipping, and forced inclusion of empty variants.
#[test]
fn type_checks() {
    // Normal derive: enum capabilities are copied.
    let test = p_sum(
        "Test",
        &["Debug", "Clone", "Eq", "PartialEq"],
        vec![p_variant("VariantA", Payload::Positional(vec![p_field("usize"), p_field("i64")]))],
    );
    let out = decompose(&vec![], &test).unwrap();
    assert_eq!(out.records.len(), 1);
    assert!(out.records[0].name == "TestVariantA");
    assert!(assert_clone_debug(&out.records[0]));

    // Derive with only a variant-level override.
    let test_derive_field_only = p_sum(
        "TestDeriveFieldOnly",
        &["Debug", "Clone"],
        vec![
            p_variant("VariantA", Payload::Positional(vec![p_field("usize"), p_field("f64")])),
            p_variant_with(
                "VariantB",
                Payload::Named(vec![p_named_field("value", "String")]),
                vec![p_opt_str("derive", "Debug, Clone, Default")],
            ),
        ],
    );
    let out = decompose(&vec![], &test_derive_field_only).unwrap();
    assert_eq!(out.records.len(), 2);
    assert!(out.records[0].name == "TestDeriveFieldOnlyVariantA");
    assert!(assert_clone_debug(&out.records[0]));
    assert!(out.records[1].name == "TestDeriveFieldOnlyVariantB");
    assert!(assert_clone_debug(&out.records[1]));
    assert!(assert_default(&out.records[1]));

    // Derive with variant-level and invocation-level override.
    let test_derive = p_sum(
        "TestDerive",
        &["Debug", "Clone"],
        vec![
            p_variant("VariantA", Payload::Positional(vec![p_field("usize"), p_field("f64")])),
            p_variant_with(
                "VariantB",
                Payload::Named(vec![p_named_field("value", "String")]),
                vec![p_opt_str("derive", "Debug, Clone, Default, Eq, PartialEq")],
            ),
        ],
    );
    let out = decompose(&vec![p_opt_str("derive", "Debug, Clone, Default")], &test_derive)
        .unwrap();
    assert!(assert_clone_debug(&out.records[0]));
    assert!(assert_default(&out.records[0]));
    assert!(assert_clone_debug(&out.records[1]));
    assert!(assert_default(&out.records[1]));
    assert!(record_has_eq(&out.records[1]));
    // The invocation-level list replaced the enum's own capabilities.
    assert!(p_derive_names(&out.records[0].derives)
        == vec!["Debug".to_string(), "Clone".to_string(), "Default".to_string()]);

    // Renaming.
    let test_rename = p_sum(
        "TestRename",
        &["Debug", "Clone"],
        vec![
            p_variant("VariantA", Payload::Positional(vec![p_field("usize"), p_field("i64")])),
            p_variant_with(
                "VariantB",
                Payload::Named(vec![p_named_field("value", "String")]),
                vec![p_opt_str("rename", "ForceRenamed")],
            ),
        ],
    );
    let out = decompose(
        &vec![p_opt_str("prefix", "Renamed"), p_opt_str("suffix", "Struct")],
        &test_rename,
    )
    .unwrap();
    assert!(out.records[0].name == "RenamedVariantAStruct");
    assert!(assert_clone_debug(&out.records[0]));
    assert!(out.records[1].name == "ForceRenamed");
    assert!(assert_clone_debug(&out.records[1]));

    // Variant skipping.
    let test_field_skip = p_sum(
        "TestFieldSkip",
        &["Debug", "Clone"],
        vec![
            p_variant("VariantA", Payload::Positional(vec![p_field("usize")])),
            p_variant_with(
                "VariantB",
                Payload::Positional(vec![p_field("usize")]),
                vec![p_opt_flag("skip")],
            ),
        ],
    );
    let out = decompose(&vec![], &test_field_skip).unwrap();
    assert_eq!(out.records.len(), 1);
    assert!(out.records[0].name == "TestFieldSkipVariantA");
    assert!(assert_clone_debug(&out.records[0]));

    // Forced inclusion of empty variants.
    let test_empty_no_skip = p_sum(
        "TestEmptyFieldNoSkip",
        &["Debug", "Clone"],
        vec![
            p_variant("VariantA", Payload::Positional(vec![p_field("usize")])),
            p_variant("VariantB", Payload::Empty),
            p_variant("VariantC", Payload::Positional(vec![])),
            p_variant("VariantD", Payload::Named(vec![])),
        ],
    );
    let out = decompose(&vec![p_opt_bool("skip_empty", false)], &test_empty_no_skip).unwrap();
    assert_eq!(out.records.len(), 4);
    for (k, name) in [
        "TestEmptyFieldNoSkipVariantA",
        "TestEmptyFieldNoSkipVariantB",
        "TestEmptyFieldNoSkipVariantC",
        "TestEmptyFieldNoSkipVariantD",
    ]
    .iter()
    .enumerate()
    {
        assert!(out.records[k].name == *name);
        assert!(assert_clone_debug(&out.records[k]));
    }
}

/// Capability and shape checks on a record whose capabilities were
/// copied from its enum.
#[test]
fn tests_type_checks() {
    let test = p_sum(
        "Test",
        &["Debug", "Clone", "Eq", "PartialEq"],
        vec![p_variant("VariantA", Payload::Positional(vec![p_field("usize"), p_field("i64")]))],
    );
    let out = decompose(&vec![], &test).unwrap();
    assert!(out.records[0].name == "TestVariantA");
    assert!(assert_clone_debug(&out.records[0]));
    assert!(record_has_eq(&out.records[0]));
    assert!(matches!(out.records[0].fields, RecordFields::Positional(ref fs) if fs.len() == 2));
}
