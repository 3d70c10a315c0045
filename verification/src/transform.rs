//! The transformation pipeline.
//!
//! `decompose` resolves the invocation-level option bag, resolves every
//! variant's option bag, and, for each eligible variant, synthesizes a
//! record declaration mirroring the variant's payload, rewrites the
//! variant to a single positional reference to that record, and emits a
//! conversion from the record into the variant. The output concatenates
//! the rewritten sum type, the records, and the conversions, in original
//! variant order. The whole behaviour is pinned down by `spec_decompose`.

use vstd::prelude::*;
use vstd::string::*;
use crate::decl::{Conversion, FieldDecl, Payload, RecordDecl, RecordFields, SpecConversion,
    SpecFieldDecl, SpecPayload, SpecRecordDecl, SpecRecordFields, SpecSumTypeDecl,
    SpecTransformOutput, SpecVariantDecl, SpecVisibility, SumTypeDecl, TransformOutput,
    VariantDecl, Visibility};
use crate::options::{clone_string, parse_global_options, parse_variant_options, OptionParseError,
    PerVariantOptionParseError, RawOption, SpecGlobalOptions, SpecOptionParseError,
    SpecVariantOptions, spec_parse_global_options, spec_parse_variant_options};

verus! {

/// A failed invocation: either the invocation-level option bag or one
/// variant's option bag was rejected. No output is produced alongside an
/// error.
#[derive(Debug, PartialEq)]
pub enum TransformError {
    /// A malformed or unknown invocation-level option.
    Options(OptionParseError),
    /// A malformed or unknown option of the variant at `index`.
    VariantOptions { index: usize, error: PerVariantOptionParseError },
}

#[verifier::ext_equal]
pub enum SpecTransformError {
    Options(SpecOptionParseError),
    VariantOptions { index: int, error: SpecOptionParseError },
}

impl View for TransformError {
    type V = SpecTransformError;

    open spec fn view(&self) -> SpecTransformError {
        match self {
            TransformError::Options(e) => SpecTransformError::Options(e@),
            TransformError::VariantOptions { index, error } => SpecTransformError::VariantOptions {
                index: *index as int,
                error: error@,
            },
        }
    }
}

/// Whether empty-payload variants are left unmodified: true unless the
/// invocation set `skip_empty` to false.
pub open spec fn spec_skip_empty(g: SpecGlobalOptions) -> bool {
    match g.skip_empty {
        Some(b) => b,
        None => true,
    }
}

/// The record-name prefix: the sum type's own name unless the invocation
/// gave one.
pub open spec fn spec_prefix(g: SpecGlobalOptions, sum_name: Seq<char>) -> Seq<char> {
    match g.prefix {
        Some(p) => p,
        None => sum_name,
    }
}

/// The record-name suffix: empty unless the invocation gave one.
pub open spec fn spec_suffix(g: SpecGlobalOptions) -> Seq<char> {
    match g.suffix {
        Some(x) => x,
        None => Seq::empty(),
    }
}

/// Whether a payload carries no field at all.
pub open spec fn spec_payload_is_empty(p: SpecPayload) -> bool {
    match p {
        SpecPayload::Empty => true,
        SpecPayload::Positional(fs) => fs.len() == 0,
        SpecPayload::Named(fs) => fs.len() == 0,
    }
}

/// What resolving one variant's option bag yields.
pub open spec fn spec_variant_opts(v: SpecVariantDecl) -> Result<
    SpecVariantOptions,
    SpecOptionParseError,
> {
    spec_parse_variant_options(v.annotations)
}

/// Whether one variant's option bag resolves.
pub open spec fn spec_variant_ok(v: SpecVariantDecl) -> bool {
    spec_variant_opts(v) is Ok
}

/// The resolved options of a variant whose bag resolves.
pub open spec fn spec_opts_of(v: SpecVariantDecl) -> SpecVariantOptions {
    spec_variant_opts(v)->Ok_0
}

/// Whether a variant is extracted: not marked `skip`, and not an
/// empty-payload variant under `skip_empty`.
pub open spec fn spec_eligible(g: SpecGlobalOptions, v: SpecVariantDecl) -> bool {
    &&& spec_opts_of(v).skip != Some(true)
    &&& !(spec_skip_empty(g) && spec_payload_is_empty(v.payload))
}

/// The generated record's name: the variant's `rename` if given, else
/// prefix + variant name + suffix.
pub open spec fn spec_record_name(
    g: SpecGlobalOptions,
    vo: SpecVariantOptions,
    sum_name: Seq<char>,
    variant_name: Seq<char>,
) -> Seq<char> {
    match vo.rename {
        Some(n) => n,
        None => spec_prefix(g, sum_name) + variant_name + spec_suffix(g),
    }
}

/// The generated record's visibility: variant override, else invocation
/// default, else the sum type's own visibility.
pub open spec fn spec_record_vis(
    g: SpecGlobalOptions,
    vo: SpecVariantOptions,
    sum_vis: SpecVisibility,
) -> SpecVisibility {
    match vo.vis {
        Some(v) => v,
        None => match g.vis {
            Some(v) => v,
            None => sum_vis,
        },
    }
}

/// The generated record's field visibility: variant override, else
/// invocation default, else maximally public.
pub open spec fn spec_record_fields_vis(
    g: SpecGlobalOptions,
    vo: SpecVariantOptions,
) -> SpecVisibility {
    match vo.fields_vis {
        Some(v) => v,
        None => match g.fields_vis {
            Some(v) => v,
            None => SpecVisibility::Public,
        },
    }
}

/// The generated record's capability list: variant override, else
/// invocation default, else the sum type's own capability list.
pub open spec fn spec_record_derives(
    g: SpecGlobalOptions,
    vo: SpecVariantOptions,
    sum_derives: Seq<Seq<char>>,
) -> Seq<Seq<char>> {
    match vo.derive {
        Some(d) => d,
        None => match g.derive {
            Some(d) => d,
            None => sum_derives,
        },
    }
}

/// A field with its visibility replaced.
pub open spec fn spec_set_field_vis(f: SpecFieldDecl, vis: SpecVisibility) -> SpecFieldDecl {
    SpecFieldDecl { name: f.name, ty: f.ty, vis }
}

/// The generated record's field list: it mirrors the payload shape, every
/// field visibility resolved, and an empty positional payload normalized
/// to no field list at all.
pub open spec fn spec_record_fields(p: SpecPayload, fvis: SpecVisibility) -> SpecRecordFields {
    match p {
        SpecPayload::Empty => SpecRecordFields::Marker,
        SpecPayload::Positional(fs) => if fs.len() == 0 {
            SpecRecordFields::Marker
        } else {
            SpecRecordFields::Positional(fs.map_values(|f| spec_set_field_vis(f, fvis)))
        },
        SpecPayload::Named(fs) => SpecRecordFields::Named(
            fs.map_values(|f| spec_set_field_vis(f, fvis)),
        ),
    }
}

/// The record declaration generated for an eligible variant.
pub open spec fn spec_synth_record(
    sum: SpecSumTypeDecl,
    g: SpecGlobalOptions,
    v: SpecVariantDecl,
) -> SpecRecordDecl {
    let vo = spec_opts_of(v);
    SpecRecordDecl {
        name: spec_record_name(g, vo, sum.name, v.name),
        vis: spec_record_vis(g, vo, sum.vis),
        fields: spec_record_fields(v.payload, spec_record_fields_vis(g, vo)),
        derives: spec_record_derives(g, vo, sum.derives),
    }
}

/// The conversion generated for an eligible variant.
pub open spec fn spec_conversion_for(
    sum: SpecSumTypeDecl,
    g: SpecGlobalOptions,
    v: SpecVariantDecl,
) -> SpecConversion {
    SpecConversion {
        record_name: spec_record_name(g, spec_opts_of(v), sum.name, v.name),
        sum_type_name: sum.name,
        variant_name: v.name,
    }
}

/// A variant after the pass: its option bag is always stripped; an
/// eligible variant's payload is replaced by one positional field whose
/// type is the generated record's name.
pub open spec fn spec_rewritten_variant(
    sum: SpecSumTypeDecl,
    g: SpecGlobalOptions,
    v: SpecVariantDecl,
) -> SpecVariantDecl {
    SpecVariantDecl {
        name: v.name,
        payload: if spec_eligible(g, v) {
            SpecPayload::Positional(
                seq![
                    SpecFieldDecl {
                        name: None,
                        ty: spec_record_name(g, spec_opts_of(v), sum.name, v.name),
                        vis: SpecVisibility::Inherited,
                    },
                ],
            )
        } else {
            v.payload
        },
        annotations: Seq::empty(),
    }
}

/// The variants that are extracted, in original order.
pub open spec fn spec_eligible_variants(
    sum: SpecSumTypeDecl,
    g: SpecGlobalOptions,
) -> Seq<SpecVariantDecl> {
    sum.variants.filter(|v: SpecVariantDecl| spec_eligible(g, v))
}

/// The assembled output of a successful invocation.
pub open spec fn spec_assemble(sum: SpecSumTypeDecl, g: SpecGlobalOptions) -> SpecTransformOutput {
    SpecTransformOutput {
        sum_type: SpecSumTypeDecl {
            name: sum.name,
            vis: sum.vis,
            derives: sum.derives,
            variants: sum.variants.map_values(|v: SpecVariantDecl| spec_rewritten_variant(sum, g, v)),
        },
        records: spec_eligible_variants(sum, g).map_values(
            |v: SpecVariantDecl| spec_synth_record(sum, g, v),
        ),
        conversions: spec_eligible_variants(sum, g).map_values(
            |v: SpecVariantDecl| spec_conversion_for(sum, g, v),
        ),
    }
}

/// The first variant, from `i` on, whose option bag is rejected, with its
/// error.
pub open spec fn spec_first_variant_error(vs: Seq<SpecVariantDecl>, i: int) -> Option<
    (int, SpecOptionParseError),
>
    decreases vs.len() - i,
{
    if i < 0 || vs.len() <= i {
        None
    } else {
        match spec_variant_opts(vs[i]) {
            Err(e) => Some((i, e)),
            Ok(_) => spec_first_variant_error(vs, i + 1),
        }
    }
}

/// What the whole transformation yields: the resolution errors in their
/// detection order, or the assembled output.
pub open spec fn spec_decompose(
    opts: Seq<crate::options::SpecRawOption>,
    sum: SpecSumTypeDecl,
) -> Result<SpecTransformOutput, SpecTransformError> {
    match spec_parse_global_options(opts) {
        Err(e) => Err(SpecTransformError::Options(e)),
        Ok(g) => match spec_first_variant_error(sum.variants, 0) {
            Some((i, e)) => Err(SpecTransformError::VariantOptions { index: i, error: e }),
            None => Ok(spec_assemble(sum, g)),
        },
    }
}

/// The result of `decompose`, seen at the specification level.
pub open spec fn spec_result_of(r: Result<TransformOutput, TransformError>) -> Result<
    SpecTransformOutput,
    SpecTransformError,
> {
    match r {
        Ok(o) => Ok(o@),
        Err(e) => Err(e@),
    }
}

proof fn lemma_first_error_none(vs: Seq<SpecVariantDecl>, j: int)
    requires
        0 <= j,
        forall|k: int| j <= k < vs.len() ==> spec_variant_ok(#[trigger] vs[k]),
    ensures
        spec_first_variant_error(vs, j) is None,
    decreases vs.len() - j,
{
    if j < vs.len() {
        lemma_first_error_none(vs, j + 1);
    }
}

proof fn lemma_first_error_found(vs: Seq<SpecVariantDecl>, j: int, i: int)
    requires
        0 <= j <= i < vs.len(),
        forall|k: int| j <= k < i ==> spec_variant_ok(#[trigger] vs[k]),
        !spec_variant_ok(vs[i]),
    ensures
        spec_first_variant_error(vs, j) == Some((i, spec_variant_opts(vs[i])->Err_0)),
    decreases i - j,
{
    if j < i {
        lemma_first_error_found(vs, j + 1, i);
    }
}

/// A copy of a capability list.
pub fn clone_strings(v: &Vec<String>) -> (r: Vec<String>)
    ensures
        r.deep_view() == v.deep_view(),
{
    let mut r: Vec<String> = Vec::new();
    let n = v.len();
    let mut i: usize = 0;
    while i < n
        invariant
            i <= n,
            n == v.len(),
            r.deep_view() =~= v.deep_view().take(i as int),
        decreases n - i,
    {
        let x = clone_string(&v[i]);
        let ghost dv0 = r.deep_view();
        r.push(x);
        proof {
            assert(r.deep_view() =~= dv0.push(x.deep_view()));
            assert(x.deep_view() == v.deep_view()[i as int]);
            assert(v.deep_view().take(i + 1) =~= v.deep_view().take(i as int).push(
                v.deep_view()[i as int],
            ));
            assert(r.deep_view() == v.deep_view().take(i + 1));
        }
        i = i + 1;
    }
    proof {
        assert(v.deep_view().take(n as int) =~= v.deep_view());
    }
    r
}

/// A copy of a field list.
fn clone_fields(v: &Vec<FieldDecl>) -> (r: Vec<FieldDecl>)
    ensures
        r.deep_view() == v.deep_view(),
{
    let mut r: Vec<FieldDecl> = Vec::new();
    let n = v.len();
    let mut i: usize = 0;
    while i < n
        invariant
            i <= n,
            n == v.len(),
            r.deep_view() =~= v.deep_view().take(i as int),
        decreases n - i,
    {
        let x = v[i].clone();
        let ghost dv0 = r.deep_view();
        r.push(x);
        proof {
            assert(r.deep_view() =~= dv0.push(x.deep_view()));
            assert(x.deep_view() == v.deep_view()[i as int]);
            assert(v.deep_view().take(i + 1) =~= v.deep_view().take(i as int).push(
                v.deep_view()[i as int],
            ));
            assert(r.deep_view() == v.deep_view().take(i + 1));
        }
        i = i + 1;
    }
    proof {
        assert(v.deep_view().take(n as int) =~= v.deep_view());
    }
    r
}

/// A copy of a payload.
fn clone_payload(p: &Payload) -> (r: Payload)
    ensures
        r@ == p@,
{
    match p {
        Payload::Empty => Payload::Empty,
        Payload::Positional(fs) => Payload::Positional(clone_fields(fs)),
        Payload::Named(fs) => Payload::Named(clone_fields(fs)),
    }
}

/// Whether a payload carries no field at all.
pub fn payload_is_empty(p: &Payload) -> (r: bool)
    ensures
        r == spec_payload_is_empty(p@),
{
    match p {
        Payload::Empty => true,
        Payload::Positional(fs) => fs.len() == 0,
        Payload::Named(fs) => fs.len() == 0,
    }
}

/// The payload's field list with every visibility replaced.
fn fields_with_vis(fs: &Vec<FieldDecl>, vis: &Visibility) -> (r: Vec<FieldDecl>)
    ensures
        r.deep_view() == fs.deep_view().map_values(
            |f: SpecFieldDecl| spec_set_field_vis(f, vis@),
        ),
{
    let mut r: Vec<FieldDecl> = Vec::new();
    let n = fs.len();
    let mut i: usize = 0;
    while i < n
        invariant
            i <= n,
            n == fs.len(),
            r.deep_view() =~= fs.deep_view().take(i as int).map_values(
                |f: SpecFieldDecl| spec_set_field_vis(f, vis@),
            ),
        decreases n - i,
    {
        let f = &fs[i];
        let nf = FieldDecl {
            name: match &f.name {
                Some(x) => Some(clone_string(x)),
                None => None,
            },
            ty: clone_string(&f.ty),
            vis: vis.clone(),
        };
        r.push(nf);
        proof {
            broadcast use vstd::prelude::Seq::lemma_take_succ_push;
            broadcast use vstd::prelude::Seq::lemma_push_map_commute;

            assert(fs.deep_view()[i as int] == f.deep_view());
            assert(r.deep_view() =~= fs.deep_view().take(i + 1).map_values(
                |f: SpecFieldDecl| spec_set_field_vis(f, vis@),
            ));
        }
        i = i + 1;
    }
    proof {
        assert(fs.deep_view().take(n as int) =~= fs.deep_view());
    }
    r
}

/// The field list of the record generated for a payload.
fn record_fields_for(p: &Payload, fvis: &Visibility) -> (r: RecordFields)
    ensures
        r@ == spec_record_fields(p@, fvis@),
{
    match p {
        Payload::Empty => RecordFields::Marker,
        Payload::Positional(fs) => if fs.len() == 0 {
            RecordFields::Marker
        } else {
            RecordFields::Positional(fields_with_vis(fs, fvis))
        },
        Payload::Named(fs) => RecordFields::Named(fields_with_vis(fs, fvis)),
    }
}

/// Runs the whole transformation on one sum-type declaration and its
/// invocation-level option bag. On success the output holds the rewritten
/// sum type, every generated record, and every generated conversion, in
/// original variant order; on failure nothing is produced but the error.
/// `spec_decompose` states the exact result either way, so two invocations
/// on the same input yield the same output.
pub fn decompose(opts: &Vec<RawOption>, input: &SumTypeDecl) -> (r: Result<
    TransformOutput,
    TransformError,
>)
    ensures
        spec_result_of(r) == spec_decompose(opts.deep_view(), input@),
{
    broadcast use vstd::prelude::Seq::lemma_take_succ_push;
    broadcast use vstd::prelude::Seq::lemma_push_map_commute;
    broadcast use vstd::prelude::Seq::lemma_filter_push;

    let g = match parse_global_options(opts) {
        Ok(g) => g,
        Err(e) => {
            return Err(TransformError::Options(e));
        },
    };
    let skip_empty = match g.skip_empty {
        Some(b) => b,
        None => true,
    };
    let prefix = match &g.prefix {
        Some(p) => clone_string(p),
        None => clone_string(&input.name),
    };
    let suffix = match &g.suffix {
        Some(x) => clone_string(x),
        None => String::new(),
    };
    proof {
        assert(skip_empty == spec_skip_empty(g@));
        assert(prefix@ == spec_prefix(g@, input@.name));
        assert(suffix@ == spec_suffix(g@));
    }
    let ghost sum = input@;
    let ghost gv = g@;
    let ghost elig = |v: SpecVariantDecl| spec_eligible(gv, v);
    let ghost rewr = |v: SpecVariantDecl| spec_rewritten_variant(sum, gv, v);
    let ghost rec = |v: SpecVariantDecl| spec_synth_record(sum, gv, v);
    let ghost conv = |v: SpecVariantDecl| spec_conversion_for(sum, gv, v);

    let n = input.variants.len();
    let mut new_variants: Vec<VariantDecl> = Vec::new();
    let mut records: Vec<RecordDecl> = Vec::new();
    let mut conversions: Vec<Conversion> = Vec::new();
    let mut i: usize = 0;
    while i < n
        invariant
            i <= n,
            n == input.variants.len(),
            sum == input@,
            gv == g@,
            spec_parse_global_options(opts.deep_view()) == Ok::<
                SpecGlobalOptions,
                SpecOptionParseError,
            >(gv),
            skip_empty == spec_skip_empty(gv),
            prefix@ == spec_prefix(gv, sum.name),
            suffix@ == spec_suffix(gv),
            elig == (|v: SpecVariantDecl| spec_eligible(gv, v)),
            rewr == (|v: SpecVariantDecl| spec_rewritten_variant(sum, gv, v)),
            rec == (|v: SpecVariantDecl| spec_synth_record(sum, gv, v)),
            conv == (|v: SpecVariantDecl| spec_conversion_for(sum, gv, v)),
            forall|k: int| 0 <= k < i ==> spec_variant_ok(#[trigger] sum.variants[k]),
            new_variants.deep_view() == sum.variants.take(i as int).map_values(rewr),
            records.deep_view() == sum.variants.take(i as int).filter(elig).map_values(rec),
            conversions.deep_view() == sum.variants.take(i as int).filter(elig).map_values(conv),
        decreases n - i,
    {
        let v = &input.variants[i];
        proof {
            assert(sum.variants[i as int] == v.deep_view());
        }
        let vo = match parse_variant_options(&v.annotations) {
            Ok(vo) => vo,
            Err(e) => {
                proof {
                    lemma_first_error_found(sum.variants, 0, i as int);
                }
                return Err(TransformError::VariantOptions { index: i, error: e });
            },
        };
        proof {
            assert(spec_variant_ok(sum.variants[i as int]));
            assert(spec_opts_of(sum.variants[i as int]) == vo@);
        }
        let skipped = match vo.skip {
            Some(b) => b,
            None => false,
        };
        let empty = payload_is_empty(&v.payload);
        let eligible = !skipped && !(skip_empty && empty);
        proof {
            assert(eligible == spec_eligible(gv, sum.variants[i as int]));
        }
        let ghost vi = sum.variants[i as int];
        let ghost dnv0 = new_variants.deep_view();
        let ghost drec0 = records.deep_view();
        let ghost dconv0 = conversions.deep_view();
        if eligible {
            let record_name = match &vo.rename {
                Some(nm) => clone_string(nm),
                None => {
                    let mut nm = clone_string(&prefix);
                    nm.append(v.name.as_str());
                    nm.append(suffix.as_str());
                    nm
                },
            };
            proof {
                assert(record_name@ == spec_record_name(gv, vo@, sum.name,
                    sum.variants[i as int].name));
            }
            let record_vis = match &vo.vis {
                Some(x) => x.clone(),
                None => match &g.vis {
                    Some(x) => x.clone(),
                    None => input.vis.clone(),
                },
            };
            let record_fvis = match &vo.fields_vis {
                Some(x) => x.clone(),
                None => match &g.fields_vis {
                    Some(x) => x.clone(),
                    None => Visibility::Public,
                },
            };
            let record_derives = match &vo.derive {
                Some(d) => clone_strings(d),
                None => match &g.derive {
                    Some(d) => clone_strings(d),
                    None => clone_strings(&input.derives),
                },
            };
            let record = RecordDecl {
                name: clone_string(&record_name),
                vis: record_vis,
                fields: record_fields_for(&v.payload, &record_fvis),
                derives: record_derives,
            };
            proof {
                assert(record@ =~= rec(vi));
            }
            records.push(record);
            proof {
                assert(records.deep_view() =~= drec0.push(rec(vi)));
            }
            let conversion = Conversion {
                record_name: clone_string(&record_name),
                sum_type_name: clone_string(&input.name),
                variant_name: clone_string(&v.name),
            };
            proof {
                assert(conversion@ =~= conv(vi));
            }
            conversions.push(conversion);
            proof {
                assert(conversions.deep_view() =~= dconv0.push(conv(vi)));
            }
            let mut ref_fields: Vec<FieldDecl> = Vec::new();
            ref_fields.push(
                FieldDecl { name: None, ty: record_name, vis: Visibility::Inherited },
            );
            let rewritten = VariantDecl {
                name: clone_string(&v.name),
                payload: Payload::Positional(ref_fields),
                annotations: Vec::new(),
            };
            proof {
                assert(rewritten@.payload->Positional_0 =~= rewr(vi).payload->Positional_0);
                assert(rewritten@ =~= rewr(vi));
            }
            new_variants.push(rewritten);
            proof {
                assert(new_variants.deep_view() =~= dnv0.push(rewr(vi)));
            }
        } else {
            let untouched = VariantDecl {
                name: clone_string(&v.name),
                payload: clone_payload(&v.payload),
                annotations: Vec::new(),
            };
            proof {
                assert(untouched@ =~= rewr(vi));
            }
            new_variants.push(untouched);
            proof {
                assert(new_variants.deep_view() =~= dnv0.push(rewr(vi)));
            }
        }
        proof {
            broadcast use vstd::prelude::Seq::lemma_take_succ_push;
            broadcast use vstd::prelude::Seq::lemma_push_map_commute;
            broadcast use vstd::prelude::Seq::lemma_filter_push;

            assert(sum.variants.take(i + 1) =~= sum.variants.take(i as int).push(vi));
            assert(sum.variants.take(i as int).push(vi).map_values(rewr) == sum.variants.take(
                i as int,
            ).map_values(rewr).push(rewr(vi)));
            assert(new_variants.deep_view() == sum.variants.take(i + 1).map_values(rewr));
            if elig(vi) {
                assert(sum.variants.take(i as int).push(vi).filter(elig) == sum.variants.take(
                    i as int,
                ).filter(elig).push(vi));
                assert(records.deep_view() == sum.variants.take(i + 1).filter(elig).map_values(
                    rec,
                ));
                assert(conversions.deep_view() == sum.variants.take(i + 1).filter(
                    elig,
                ).map_values(conv));
            } else {
                assert(sum.variants.take(i as int).push(vi).filter(elig) == sum.variants.take(
                    i as int,
                ).filter(elig));
                assert(records.deep_view() == sum.variants.take(i + 1).filter(elig).map_values(
                    rec,
                ));
                assert(conversions.deep_view() == sum.variants.take(i + 1).filter(
                    elig,
                ).map_values(conv));
            }
        }
        i = i + 1;
    }
    let out = TransformOutput {
        sum_type: SumTypeDecl {
            name: clone_string(&input.name),
            vis: input.vis.clone(),
            derives: clone_strings(&input.derives),
            variants: new_variants,
        },
        records,
        conversions,
    };
    proof {
        lemma_first_error_none(sum.variants, 0);
        assert(sum.variants.take(n as int) =~= sum.variants);
        assert(out@.sum_type =~= spec_assemble(sum, gv).sum_type);
        assert(out@ =~= spec_assemble(sum, gv));
    }
    Ok(out)
}

} // verus!
