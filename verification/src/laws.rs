//! The properties the transformation promises, each proved from the
//! specification functions that `decompose`'s contract is stated over.

use vstd::prelude::*;
use crate::convert::VariantValue;
use crate::decl::{SpecConversion, SpecPayload, SpecRecordFields, SpecSumTypeDecl, SpecVisibility,
    SpecVariantDecl, TransformOutput};
use crate::options::{SpecGlobalOptions, SpecRawOption, SpecVariantOptions};
use crate::options::spec_parse_global_options;
use crate::transform::{spec_conversion_for, spec_decompose, spec_eligible, spec_eligible_variants,
    spec_opts_of, spec_payload_is_empty, spec_prefix, spec_record_derives, spec_record_fields,
    spec_record_fields_vis, spec_record_name, spec_record_vis, spec_result_of, spec_skip_empty,
    spec_suffix, spec_synth_record, TransformError};

verus! {

/// How many fields a generated record's field list holds.
pub open spec fn spec_record_field_count(f: SpecRecordFields) -> nat {
    match f {
        SpecRecordFields::Marker => 0,
        SpecRecordFields::Positional(fs) => fs.len(),
        SpecRecordFields::Named(fs) => fs.len(),
    }
}

/// The invocation-level options of a successful invocation.
pub open spec fn spec_resolved_global(opts: Seq<SpecRawOption>) -> SpecGlobalOptions {
    spec_parse_global_options(opts)->Ok_0
}

/// Determinism: the transformation's outcome is a function of the
/// declaration and the option bag alone. `decompose` promises its result
/// equal to `spec_decompose` of its inputs, so any two invocations on the
/// same input yield the same output.
pub proof fn lemma_deterministic(
    r1: Result<TransformOutput, TransformError>,
    r2: Result<TransformOutput, TransformError>,
    opts: Seq<SpecRawOption>,
    sum: SpecSumTypeDecl,
)
    requires
        spec_result_of(r1) == spec_decompose(opts, sum),
        spec_result_of(r2) == spec_decompose(opts, sum),
    ensures
        spec_result_of(r1) == spec_result_of(r2),
{
}

/// Default naming: with no prefix, suffix, or rename given, the record
/// generated for a variant is named by the sum type's name followed by
/// the variant's name.
pub proof fn lemma_default_naming(
    g: SpecGlobalOptions,
    vo: SpecVariantOptions,
    sum_name: Seq<char>,
    variant_name: Seq<char>,
)
    requires
        g.prefix is None,
        g.suffix is None,
        vo.rename is None,
    ensures
        spec_record_name(g, vo, sum_name, variant_name) == sum_name + variant_name,
{
    assert(spec_prefix(g, sum_name) + variant_name + spec_suffix(g) =~= sum_name + variant_name);
}

/// Renaming overrides naming: a variant with a `rename` yields a record
/// bearing exactly that name, whatever prefix and suffix say.
pub proof fn lemma_rename_overrides(
    g: SpecGlobalOptions,
    vo: SpecVariantOptions,
    sum_name: Seq<char>,
    variant_name: Seq<char>,
)
    requires
        vo.rename is Some,
    ensures
        spec_record_name(g, vo, sum_name, variant_name) == vo.rename->0,
{
}

/// No extracted variant is one the filter rejected: a variant that is not
/// eligible never appears among the extracted variants, so no record and
/// no conversion is generated from it.
proof fn lemma_ineligible_not_extracted(sum: SpecSumTypeDecl, g: SpecGlobalOptions, v: SpecVariantDecl)
    requires
        !spec_eligible(g, v),
    ensures
        !spec_eligible_variants(sum, g).contains(v),
{
    let pred = |x: SpecVariantDecl| spec_eligible(g, x);
    if spec_eligible_variants(sum, g).contains(v) {
        let k = choose|k: int|
            0 <= k < spec_eligible_variants(sum, g).len() && spec_eligible_variants(sum, g)[k]
                == v;
        sum.variants.lemma_filter_pred(pred, k);
    }
}

/// Empty-payload default skip: while `skip_empty` holds (as it does by
/// default), a variant with no payload and no `skip` of its own is left
/// untouched — same name, same payload, only its option bag stripped —
/// and no record and no conversion is generated from it.
pub proof fn lemma_empty_payload_skipped(opts: Seq<SpecRawOption>, sum: SpecSumTypeDecl, i: int)
    requires
        spec_decompose(opts, sum) is Ok,
        0 <= i < sum.variants.len(),
        spec_payload_is_empty(sum.variants[i].payload),
        spec_skip_empty(spec_resolved_global(opts)),
    ensures
        ({
            let g = spec_resolved_global(opts);
            let out = spec_decompose(opts, sum)->Ok_0;
            let v = sum.variants[i];
            &&& !spec_eligible(g, v)
            &&& out.sum_type.variants.len() == sum.variants.len()
            &&& out.sum_type.variants[i].name == v.name
            &&& out.sum_type.variants[i].payload == v.payload
            &&& out.sum_type.variants[i].annotations == Seq::<SpecRawOption>::empty()
            &&& !spec_eligible_variants(sum, g).contains(v)
            &&& out.records == spec_eligible_variants(sum, g).map_values(
                |w: SpecVariantDecl| spec_synth_record(sum, g, w),
            )
            &&& out.conversions == spec_eligible_variants(sum, g).map_values(
                |w: SpecVariantDecl| spec_conversion_for(sum, g, w),
            )
        }),
{
    let g = spec_resolved_global(opts);
    let v = sum.variants[i];
    lemma_ineligible_not_extracted(sum, g, v);
}

/// Empty-payload forced inclusion: with `skip_empty` false, an
/// empty-payload variant without `skip` is extracted after all — its
/// record carries no field, and its conversion produces the variant from
/// that record.
pub proof fn lemma_empty_payload_included(opts: Seq<SpecRawOption>, sum: SpecSumTypeDecl, i: int)
    requires
        spec_decompose(opts, sum) is Ok,
        0 <= i < sum.variants.len(),
        spec_payload_is_empty(sum.variants[i].payload),
        !spec_skip_empty(spec_resolved_global(opts)),
        spec_opts_of(sum.variants[i]).skip != Some(true),
    ensures
        ({
            let g = spec_resolved_global(opts);
            let v = sum.variants[i];
            &&& spec_eligible(g, v)
            &&& spec_eligible_variants(sum, g).contains(v)
            &&& spec_record_field_count(spec_synth_record(sum, g, v).fields) == 0
            &&& spec_conversion_for(sum, g, v).variant_name == v.name
            &&& spec_conversion_for(sum, g, v).record_name == spec_synth_record(sum, g, v).name
        }),
{
    let g = spec_resolved_global(opts);
    let v = sum.variants[i];
    let pred = |x: SpecVariantDecl| spec_eligible(g, x);
    sum.variants.lemma_filter_contains(pred, i);
    match v.payload {
        SpecPayload::Empty => {},
        SpecPayload::Positional(fs) => {
            assert(fs.map_values(
                |f: crate::decl::SpecFieldDecl| crate::transform::spec_set_field_vis(
                    f,
                    spec_record_fields_vis(g, spec_opts_of(v)),
                ),
            ).len() == fs.len());
        },
        SpecPayload::Named(fs) => {
            assert(fs.map_values(
                |f: crate::decl::SpecFieldDecl| crate::transform::spec_set_field_vis(
                    f,
                    spec_record_fields_vis(g, spec_opts_of(v)),
                ),
            ).len() == fs.len());
        },
    }
}

/// Explicit skip always wins: a variant marked `skip` is left untouched —
/// same name, same payload, only its option bag stripped — whatever
/// `skip_empty` says, and no record and no conversion is generated from
/// it.
pub proof fn lemma_skip_always_wins(opts: Seq<SpecRawOption>, sum: SpecSumTypeDecl, i: int)
    requires
        spec_decompose(opts, sum) is Ok,
        0 <= i < sum.variants.len(),
        spec_opts_of(sum.variants[i]).skip == Some(true),
    ensures
        ({
            let g = spec_resolved_global(opts);
            let out = spec_decompose(opts, sum)->Ok_0;
            let v = sum.variants[i];
            &&& !spec_eligible(g, v)
            &&& out.sum_type.variants.len() == sum.variants.len()
            &&& out.sum_type.variants[i].name == v.name
            &&& out.sum_type.variants[i].payload == v.payload
            &&& out.sum_type.variants[i].annotations == Seq::<SpecRawOption>::empty()
            &&& !spec_eligible_variants(sum, g).contains(v)
        }),
{
    let g = spec_resolved_global(opts);
    lemma_ineligible_not_extracted(sum, g, sum.variants[i]);
}

/// Visibility layering: the variant-level `vis` override takes precedence
/// over the invocation-level default, which takes precedence over the sum
/// type's own visibility.
pub proof fn lemma_visibility_layering(
    g: SpecGlobalOptions,
    vo: SpecVariantOptions,
    sum_vis: SpecVisibility,
)
    ensures
        vo.vis is Some ==> spec_record_vis(g, vo, sum_vis) == vo.vis->0,
        vo.vis is None && g.vis is Some ==> spec_record_vis(g, vo, sum_vis) == g.vis->0,
        vo.vis is None && g.vis is None ==> spec_record_vis(g, vo, sum_vis) == sum_vis,
{
}

/// Field-visibility layering: the variant-level `fields_vis` override
/// takes precedence over the invocation-level default, which takes
/// precedence over the maximally-public fallback.
pub proof fn lemma_fields_vis_layering(g: SpecGlobalOptions, vo: SpecVariantOptions)
    ensures
        vo.fields_vis is Some ==> spec_record_fields_vis(g, vo) == vo.fields_vis->0,
        vo.fields_vis is None && g.fields_vis is Some ==> spec_record_fields_vis(g, vo)
            == g.fields_vis->0,
        vo.fields_vis is None && g.fields_vis is None ==> spec_record_fields_vis(g, vo)
            == SpecVisibility::Public,
{
}

/// Capability-list layering: the variant-level `derive` override takes
/// precedence over the invocation-level default; the sum type's own
/// capability list is used only when no `derive` was given anywhere.
pub proof fn lemma_derive_layering(
    g: SpecGlobalOptions,
    vo: SpecVariantOptions,
    sum_derives: Seq<Seq<char>>,
)
    ensures
        vo.derive is Some ==> spec_record_derives(g, vo, sum_derives) == vo.derive->0,
        vo.derive is None && g.derive is Some ==> spec_record_derives(g, vo, sum_derives)
            == g.derive->0,
        vo.derive is None && g.derive is None ==> spec_record_derives(g, vo, sum_derives)
            == sum_derives,
{
}

/// Zero-field positional normalization: a payload declared as an empty
/// parenthesized field list yields a record with no field list at all,
/// never one with an empty parenthesized list.
pub proof fn lemma_positional_empty_is_marker(p: SpecPayload, fvis: SpecVisibility)
    requires
        p matches SpecPayload::Positional(fs) && fs.len() == 0,
    ensures
        spec_record_fields(p, fvis) == SpecRecordFields::Marker,
{
}

/// After rewriting, every extracted variant holds exactly one positional
/// field whose type is its generated record's name — unnamed, with
/// inherited visibility — and its option bag is stripped.
pub proof fn lemma_rewritten_reference(opts: Seq<SpecRawOption>, sum: SpecSumTypeDecl, i: int)
    requires
        spec_decompose(opts, sum) is Ok,
        0 <= i < sum.variants.len(),
        spec_eligible(spec_resolved_global(opts), sum.variants[i]),
    ensures
        ({
            let g = spec_resolved_global(opts);
            let out = spec_decompose(opts, sum)->Ok_0;
            let v = sum.variants[i];
            &&& out.sum_type.variants.len() == sum.variants.len()
            &&& out.sum_type.variants[i].name == v.name
            &&& out.sum_type.variants[i].annotations == Seq::<SpecRawOption>::empty()
            &&& out.sum_type.variants[i].payload matches SpecPayload::Positional(fs)
                && fs.len() == 1
                && fs[0].ty == spec_synth_record(sum, g, v).name
                && fs[0].name is None
                && fs[0].vis == SpecVisibility::Inherited
        }),
{
}

/// Round trip, structural part: in a successful transformation the
/// records and conversions pair up one to one with the extracted
/// variants, in order; the `j`-th conversion names the `j`-th extracted
/// variant, its sum type, and the `j`-th record.
pub proof fn lemma_conversion_round_trip(opts: Seq<SpecRawOption>, sum: SpecSumTypeDecl, j: int)
    requires
        spec_decompose(opts, sum) is Ok,
        0 <= j < spec_decompose(opts, sum)->Ok_0.conversions.len(),
    ensures
        ({
            let g = spec_resolved_global(opts);
            let out = spec_decompose(opts, sum)->Ok_0;
            let c = out.conversions[j];
            &&& out.conversions.len() == out.records.len()
            &&& out.conversions.len() == spec_eligible_variants(sum, g).len()
            &&& c.variant_name == spec_eligible_variants(sum, g)[j].name
            &&& c.sum_type_name == sum.name
            &&& c.record_name == out.records[j].name
        }),
{
}

/// Round trip, value part: any two sum-type values that carry the same
/// payload under a conversion's variant name are identical in every
/// observable field. `apply_conversion` builds the first from a record
/// value; `construct_variant` builds the second directly; with the
/// structural part above, the two ways of constructing the variant agree.
pub proof fn lemma_round_trip_values<T>(
    c: SpecConversion,
    converted: VariantValue<T>,
    direct: VariantValue<T>,
    payload: T,
)
    requires
        converted.variant_name@ == c.variant_name,
        converted.payload == payload,
        direct.variant_name@ == c.variant_name,
        direct.payload == payload,
    ensures
        converted.variant_name@ == direct.variant_name@,
        converted.payload == direct.payload,
{
}

} // verus!
