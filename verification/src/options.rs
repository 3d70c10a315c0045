//! Option bags and their resolution into validated option records.
//!
//! An invocation-level option bag configures the whole transformation; a
//! per-variant option bag overrides it for one variant. Both arrive as
//! lists of raw key/value options handed over by the host parser; the
//! resolvers here validate them, rejecting unknown names, duplicated
//! names, and values that do not parse into their expected shape.

use vstd::prelude::*;
use vstd::string::*;
use crate::decl::{SpecVisibility, Visibility};
use crate::syntax::{parse_path_list, parse_visibility, spec_parse_path_list,
    spec_parse_visibility};
use crate::text::{check_ident, is_ident, str_eq};

verus! {

/// The shape of one raw option value as the host parser hands it over.
#[derive(PartialEq)]
pub enum OptionValue {
    /// A bare key with no value.
    Flag,
    /// `key = <bool>`.
    BoolValue(bool),
    /// `key = "<text>"`.
    StrValue(String),
}

/// One raw option of an option bag: a name with its value shape.
#[derive(PartialEq)]
pub struct RawOption {
    pub name: String,
    pub value: OptionValue,
}

pub enum SpecOptionValue {
    Flag,
    BoolValue(bool),
    StrValue(Seq<char>),
}

#[verifier::ext_equal]
pub struct SpecRawOption {
    pub name: Seq<char>,
    pub value: SpecOptionValue,
}

impl View for OptionValue {
    type V = SpecOptionValue;

    open spec fn view(&self) -> SpecOptionValue {
        match self {
            OptionValue::Flag => SpecOptionValue::Flag,
            OptionValue::BoolValue(b) => SpecOptionValue::BoolValue(*b),
            OptionValue::StrValue(s) => SpecOptionValue::StrValue(s@),
        }
    }
}

impl DeepView for OptionValue {
    type V = SpecOptionValue;

    open spec fn deep_view(&self) -> SpecOptionValue {
        self.view()
    }
}

impl View for RawOption {
    type V = SpecRawOption;

    open spec fn view(&self) -> SpecRawOption {
        SpecRawOption { name: self.name@, value: self.value@ }
    }
}

impl DeepView for RawOption {
    type V = SpecRawOption;

    open spec fn deep_view(&self) -> SpecRawOption {
        self.view()
    }
}

/// Validated invocation-level options. Every field is `None` unless the
/// option bag set it; defaults are applied during extraction.
#[derive(PartialEq)]
pub struct GlobalOptions {
    /// Name prefix for generated records; the sum type's own name if absent.
    pub prefix: Option<String>,
    /// Name suffix for generated records; empty if absent.
    pub suffix: Option<String>,
    /// Whether variants with no payload are left unmodified; true if absent.
    pub skip_empty: Option<bool>,
    /// Default capability list for generated records; if absent, the sum
    /// type's own capability list is copied instead.
    pub derive: Option<Vec<String>>,
    /// Default visibility for generated records; the sum type's own
    /// visibility if absent.
    pub vis: Option<Visibility>,
    /// Default visibility for fields of generated records; maximally public
    /// if absent.
    pub fields_vis: Option<Visibility>,
}

/// Validated per-variant options. Every field is `None` unless the
/// variant's option bag set it.
#[derive(PartialEq)]
pub struct VariantOptions {
    /// Leave the variant completely untouched.
    pub skip: Option<bool>,
    /// Exact name for the generated record, overriding prefix and suffix.
    pub rename: Option<String>,
    /// Capability list override for the generated record.
    pub derive: Option<Vec<String>>,
    /// Visibility override for the generated record.
    pub vis: Option<Visibility>,
    /// Visibility override for the fields of the generated record.
    pub fields_vis: Option<Visibility>,
}

#[verifier::ext_equal]
pub struct SpecGlobalOptions {
    pub prefix: Option<Seq<char>>,
    pub suffix: Option<Seq<char>>,
    pub skip_empty: Option<bool>,
    pub derive: Option<Seq<Seq<char>>>,
    pub vis: Option<SpecVisibility>,
    pub fields_vis: Option<SpecVisibility>,
}

#[verifier::ext_equal]
pub struct SpecVariantOptions {
    pub skip: Option<bool>,
    pub rename: Option<Seq<char>>,
    pub derive: Option<Seq<Seq<char>>>,
    pub vis: Option<SpecVisibility>,
    pub fields_vis: Option<SpecVisibility>,
}

impl View for GlobalOptions {
    type V = SpecGlobalOptions;

    open spec fn view(&self) -> SpecGlobalOptions {
        SpecGlobalOptions {
            prefix: self.prefix.deep_view(),
            suffix: self.suffix.deep_view(),
            skip_empty: self.skip_empty,
            derive: self.derive.deep_view(),
            vis: self.vis.deep_view(),
            fields_vis: self.fields_vis.deep_view(),
        }
    }
}

impl View for VariantOptions {
    type V = SpecVariantOptions;

    open spec fn view(&self) -> SpecVariantOptions {
        SpecVariantOptions {
            skip: self.skip,
            rename: self.rename.deep_view(),
            derive: self.derive.deep_view(),
            vis: self.vis.deep_view(),
            fields_vis: self.fields_vis.deep_view(),
        }
    }
}

/// A malformed or unknown invocation-level option. Each variant carries the
/// offending option's name.
#[derive(Debug, PartialEq)]
pub enum OptionParseError {
    UnknownOption(String),
    DuplicateOption(String),
    InvalidValue(String),
}

/// A malformed or unknown per-variant option. Each variant carries the
/// offending option's name.
#[derive(Debug, PartialEq)]
pub enum PerVariantOptionParseError {
    UnknownOption(String),
    DuplicateOption(String),
    InvalidValue(String),
}

#[verifier::ext_equal]
pub enum SpecOptionParseError {
    UnknownOption(Seq<char>),
    DuplicateOption(Seq<char>),
    InvalidValue(Seq<char>),
}

impl View for OptionParseError {
    type V = SpecOptionParseError;

    open spec fn view(&self) -> SpecOptionParseError {
        match self {
            OptionParseError::UnknownOption(n) => SpecOptionParseError::UnknownOption(n@),
            OptionParseError::DuplicateOption(n) => SpecOptionParseError::DuplicateOption(n@),
            OptionParseError::InvalidValue(n) => SpecOptionParseError::InvalidValue(n@),
        }
    }
}

impl View for PerVariantOptionParseError {
    type V = SpecOptionParseError;

    open spec fn view(&self) -> SpecOptionParseError {
        match self {
            PerVariantOptionParseError::UnknownOption(n) => SpecOptionParseError::UnknownOption(
                n@,
            ),
            PerVariantOptionParseError::DuplicateOption(n) => SpecOptionParseError::DuplicateOption(
                n@,
            ),
            PerVariantOptionParseError::InvalidValue(n) => SpecOptionParseError::InvalidValue(n@),
        }
    }
}

/// A boolean option accepts a bare flag (meaning true) or a bool value.
pub open spec fn spec_bool_value(v: SpecOptionValue) -> Option<bool> {
    match v {
        SpecOptionValue::Flag => Some(true),
        SpecOptionValue::BoolValue(b) => Some(b),
        SpecOptionValue::StrValue(_) => None,
    }
}

/// A string-valued option accepts only `key = "<text>"`.
pub open spec fn spec_str_value(v: SpecOptionValue) -> Option<Seq<char>> {
    match v {
        SpecOptionValue::StrValue(s) => Some(s),
        _ => None,
    }
}

/// Folds one raw option into the invocation-level accumulator: unknown
/// names, duplicated names, and malformed values are rejected.
pub open spec fn spec_apply_global(acc: SpecGlobalOptions, o: SpecRawOption) -> Result<
    SpecGlobalOptions,
    SpecOptionParseError,
> {
    if o.name == "prefix"@ {
        if acc.prefix is Some {
            Err(SpecOptionParseError::DuplicateOption(o.name))
        } else {
            match spec_str_value(o.value) {
                Some(s) => Ok(SpecGlobalOptions { prefix: Some(s), ..acc }),
                None => Err(SpecOptionParseError::InvalidValue(o.name)),
            }
        }
    } else if o.name == "suffix"@ {
        if acc.suffix is Some {
            Err(SpecOptionParseError::DuplicateOption(o.name))
        } else {
            match spec_str_value(o.value) {
                Some(s) => Ok(SpecGlobalOptions { suffix: Some(s), ..acc }),
                None => Err(SpecOptionParseError::InvalidValue(o.name)),
            }
        }
    } else if o.name == "skip_empty"@ {
        if acc.skip_empty is Some {
            Err(SpecOptionParseError::DuplicateOption(o.name))
        } else {
            match spec_bool_value(o.value) {
                Some(b) => Ok(SpecGlobalOptions { skip_empty: Some(b), ..acc }),
                None => Err(SpecOptionParseError::InvalidValue(o.name)),
            }
        }
    } else if o.name == "derive"@ {
        if acc.derive is Some {
            Err(SpecOptionParseError::DuplicateOption(o.name))
        } else {
            match spec_str_value(o.value) {
                Some(s) => match spec_parse_path_list(s) {
                    Some(paths) => Ok(SpecGlobalOptions { derive: Some(paths), ..acc }),
                    None => Err(SpecOptionParseError::InvalidValue(o.name)),
                },
                None => Err(SpecOptionParseError::InvalidValue(o.name)),
            }
        }
    } else if o.name == "vis"@ {
        if acc.vis is Some {
            Err(SpecOptionParseError::DuplicateOption(o.name))
        } else {
            match spec_str_value(o.value) {
                Some(s) => match spec_parse_visibility(s) {
                    Some(v) => Ok(SpecGlobalOptions { vis: Some(v), ..acc }),
                    None => Err(SpecOptionParseError::InvalidValue(o.name)),
                },
                None => Err(SpecOptionParseError::InvalidValue(o.name)),
            }
        }
    } else if o.name == "fields_vis"@ {
        if acc.fields_vis is Some {
            Err(SpecOptionParseError::DuplicateOption(o.name))
        } else {
            match spec_str_value(o.value) {
                Some(s) => match spec_parse_visibility(s) {
                    Some(v) => Ok(SpecGlobalOptions { fields_vis: Some(v), ..acc }),
                    None => Err(SpecOptionParseError::InvalidValue(o.name)),
                },
                None => Err(SpecOptionParseError::InvalidValue(o.name)),
            }
        }
    } else {
        Err(SpecOptionParseError::UnknownOption(o.name))
    }
}

/// Scans the invocation-level option bag left to right; the first offending
/// option aborts the scan.
pub open spec fn spec_scan_global(
    opts: Seq<SpecRawOption>,
    i: int,
    acc: SpecGlobalOptions,
) -> Result<SpecGlobalOptions, SpecOptionParseError>
    decreases opts.len() - i,
{
    if i < 0 || opts.len() <= i {
        Ok(acc)
    } else {
        match spec_apply_global(acc, opts[i]) {
            Ok(acc2) => spec_scan_global(opts, i + 1, acc2),
            Err(e) => Err(e),
        }
    }
}

/// The empty invocation-level accumulator.
pub open spec fn spec_global_none() -> SpecGlobalOptions {
    SpecGlobalOptions {
        prefix: None,
        suffix: None,
        skip_empty: None,
        derive: None,
        vis: None,
        fields_vis: None,
    }
}

/// What resolving the invocation-level option bag yields.
pub open spec fn spec_parse_global_options(opts: Seq<SpecRawOption>) -> Result<
    SpecGlobalOptions,
    SpecOptionParseError,
> {
    spec_scan_global(opts, 0, spec_global_none())
}

/// Folds one raw option into the per-variant accumulator.
pub open spec fn spec_apply_variant(acc: SpecVariantOptions, o: SpecRawOption) -> Result<
    SpecVariantOptions,
    SpecOptionParseError,
> {
    if o.name == "skip"@ {
        if acc.skip is Some {
            Err(SpecOptionParseError::DuplicateOption(o.name))
        } else {
            match spec_bool_value(o.value) {
                Some(b) => Ok(SpecVariantOptions { skip: Some(b), ..acc }),
                None => Err(SpecOptionParseError::InvalidValue(o.name)),
            }
        }
    } else if o.name == "rename"@ {
        if acc.rename is Some {
            Err(SpecOptionParseError::DuplicateOption(o.name))
        } else {
            match spec_str_value(o.value) {
                Some(s) => if is_ident(s) {
                    Ok(SpecVariantOptions { rename: Some(s), ..acc })
                } else {
                    Err(SpecOptionParseError::InvalidValue(o.name))
                },
                None => Err(SpecOptionParseError::InvalidValue(o.name)),
            }
        }
    } else if o.name == "derive"@ {
        if acc.derive is Some {
            Err(SpecOptionParseError::DuplicateOption(o.name))
        } else {
            match spec_str_value(o.value) {
                Some(s) => match spec_parse_path_list(s) {
                    Some(paths) => Ok(SpecVariantOptions { derive: Some(paths), ..acc }),
                    None => Err(SpecOptionParseError::InvalidValue(o.name)),
                },
                None => Err(SpecOptionParseError::InvalidValue(o.name)),
            }
        }
    } else if o.name == "vis"@ {
        if acc.vis is Some {
            Err(SpecOptionParseError::DuplicateOption(o.name))
        } else {
            match spec_str_value(o.value) {
                Some(s) => match spec_parse_visibility(s) {
                    Some(v) => Ok(SpecVariantOptions { vis: Some(v), ..acc }),
                    None => Err(SpecOptionParseError::InvalidValue(o.name)),
                },
                None => Err(SpecOptionParseError::InvalidValue(o.name)),
            }
        }
    } else if o.name == "fields_vis"@ {
        if acc.fields_vis is Some {
            Err(SpecOptionParseError::DuplicateOption(o.name))
        } else {
            match spec_str_value(o.value) {
                Some(s) => match spec_parse_visibility(s) {
                    Some(v) => Ok(SpecVariantOptions { fields_vis: Some(v), ..acc }),
                    None => Err(SpecOptionParseError::InvalidValue(o.name)),
                },
                None => Err(SpecOptionParseError::InvalidValue(o.name)),
            }
        }
    } else {
        Err(SpecOptionParseError::UnknownOption(o.name))
    }
}

/// Scans a per-variant option bag left to right; the first offending option
/// aborts the scan.
pub open spec fn spec_scan_variant(
    opts: Seq<SpecRawOption>,
    i: int,
    acc: SpecVariantOptions,
) -> Result<SpecVariantOptions, SpecOptionParseError>
    decreases opts.len() - i,
{
    if i < 0 || opts.len() <= i {
        Ok(acc)
    } else {
        match spec_apply_variant(acc, opts[i]) {
            Ok(acc2) => spec_scan_variant(opts, i + 1, acc2),
            Err(e) => Err(e),
        }
    }
}

/// The empty per-variant accumulator.
pub open spec fn spec_variant_none() -> SpecVariantOptions {
    SpecVariantOptions { skip: None, rename: None, derive: None, vis: None, fields_vis: None }
}

/// What resolving a per-variant option bag yields.
pub open spec fn spec_parse_variant_options(opts: Seq<SpecRawOption>) -> Result<
    SpecVariantOptions,
    SpecOptionParseError,
> {
    spec_scan_variant(opts, 0, spec_variant_none())
}

/// Resolves the invocation-level option bag into a validated
/// `GlobalOptions` record, rejecting unknown or malformed options.
pub fn parse_global_options(opts: &Vec<RawOption>) -> (r: Result<GlobalOptions, OptionParseError>)
    ensures
        match r {
            Ok(g) => spec_parse_global_options(opts.deep_view()) == Ok::<
                SpecGlobalOptions,
                SpecOptionParseError,
            >(g@),
            Err(e) => spec_parse_global_options(opts.deep_view()) == Err::<
                SpecGlobalOptions,
                SpecOptionParseError,
            >(e@),
        },
{
    let mut acc = GlobalOptions {
        prefix: None,
        suffix: None,
        skip_empty: None,
        derive: None,
        vis: None,
        fields_vis: None,
    };
    proof {
        assert(acc@ =~= spec_global_none());
    }
    let n = opts.len();
    let mut i: usize = 0;
    while i < n
        invariant
            i <= n,
            n == opts.len(),
            spec_parse_global_options(opts.deep_view()) == spec_scan_global(
                opts.deep_view(),
                i as int,
                acc@,
            ),
        decreases n - i,
    {
        let o = &opts[i];
        proof {
            assert(opts.deep_view()[i as int] == o.deep_view());
        }
        match apply_global(acc, o) {
            Ok(acc2) => {
                acc = acc2;
            },
            Err(e) => {
                return Err(e);
            },
        }
        i = i + 1;
    }
    Ok(acc)
}

/// Folds one raw option into the invocation-level accumulator.
fn apply_global(acc: GlobalOptions, o: &RawOption) -> (r: Result<GlobalOptions, OptionParseError>)
    ensures
        match r {
            Ok(acc2) => spec_apply_global(acc@, o@) == Ok::<
                SpecGlobalOptions,
                SpecOptionParseError,
            >(acc2@),
            Err(e) => spec_apply_global(acc@, o@) == Err::<
                SpecGlobalOptions,
                SpecOptionParseError,
            >(e@),
        },
{
    let name = o.name.as_str();
    if str_eq(name, "prefix") {
        if acc.prefix.is_some() {
            return Err(OptionParseError::DuplicateOption(clone_string(&o.name)));
        }
        match str_value(&o.value) {
            Some(s) => Ok(GlobalOptions { prefix: Some(s), ..acc }),
            None => Err(OptionParseError::InvalidValue(clone_string(&o.name))),
        }
    } else if str_eq(name, "suffix") {
        if acc.suffix.is_some() {
            return Err(OptionParseError::DuplicateOption(clone_string(&o.name)));
        }
        match str_value(&o.value) {
            Some(s) => Ok(GlobalOptions { suffix: Some(s), ..acc }),
            None => Err(OptionParseError::InvalidValue(clone_string(&o.name))),
        }
    } else if str_eq(name, "skip_empty") {
        if acc.skip_empty.is_some() {
            return Err(OptionParseError::DuplicateOption(clone_string(&o.name)));
        }
        match bool_value(&o.value) {
            Some(b) => Ok(GlobalOptions { skip_empty: Some(b), ..acc }),
            None => Err(OptionParseError::InvalidValue(clone_string(&o.name))),
        }
    } else if str_eq(name, "derive") {
        if acc.derive.is_some() {
            return Err(OptionParseError::DuplicateOption(clone_string(&o.name)));
        }
        match &o.value {
            OptionValue::StrValue(s) => match parse_path_list(s.as_str()) {
                Some(paths) => Ok(GlobalOptions { derive: Some(paths), ..acc }),
                None => Err(OptionParseError::InvalidValue(clone_string(&o.name))),
            },
            _ => Err(OptionParseError::InvalidValue(clone_string(&o.name))),
        }
    } else if str_eq(name, "vis") {
        if acc.vis.is_some() {
            return Err(OptionParseError::DuplicateOption(clone_string(&o.name)));
        }
        match &o.value {
            OptionValue::StrValue(s) => match parse_visibility(s.as_str()) {
                Some(v) => Ok(GlobalOptions { vis: Some(v), ..acc }),
                None => Err(OptionParseError::InvalidValue(clone_string(&o.name))),
            },
            _ => Err(OptionParseError::InvalidValue(clone_string(&o.name))),
        }
    } else if str_eq(name, "fields_vis") {
        if acc.fields_vis.is_some() {
            return Err(OptionParseError::DuplicateOption(clone_string(&o.name)));
        }
        match &o.value {
            OptionValue::StrValue(s) => match parse_visibility(s.as_str()) {
                Some(v) => Ok(GlobalOptions { fields_vis: Some(v), ..acc }),
                None => Err(OptionParseError::InvalidValue(clone_string(&o.name))),
            },
            _ => Err(OptionParseError::InvalidValue(clone_string(&o.name))),
        }
    } else {
        Err(OptionParseError::UnknownOption(clone_string(&o.name)))
    }
}

/// Resolves one variant's option bag into a validated `VariantOptions`
/// record, rejecting unknown or malformed options.
pub fn parse_variant_options(opts: &Vec<RawOption>) -> (r: Result<
    VariantOptions,
    PerVariantOptionParseError,
>)
    ensures
        match r {
            Ok(vo) => spec_parse_variant_options(opts.deep_view()) == Ok::<
                SpecVariantOptions,
                SpecOptionParseError,
            >(vo@),
            Err(e) => spec_parse_variant_options(opts.deep_view()) == Err::<
                SpecVariantOptions,
                SpecOptionParseError,
            >(e@),
        },
{
    let mut acc = VariantOptions {
        skip: None,
        rename: None,
        derive: None,
        vis: None,
        fields_vis: None,
    };
    proof {
        assert(acc@ =~= spec_variant_none());
    }
    let n = opts.len();
    let mut i: usize = 0;
    while i < n
        invariant
            i <= n,
            n == opts.len(),
            spec_parse_variant_options(opts.deep_view()) == spec_scan_variant(
                opts.deep_view(),
                i as int,
                acc@,
            ),
        decreases n - i,
    {
        let o = &opts[i];
        proof {
            assert(opts.deep_view()[i as int] == o.deep_view());
        }
        match apply_variant(acc, o) {
            Ok(acc2) => {
                acc = acc2;
            },
            Err(e) => {
                return Err(e);
            },
        }
        i = i + 1;
    }
    Ok(acc)
}

/// Folds one raw option into the per-variant accumulator.
fn apply_variant(acc: VariantOptions, o: &RawOption) -> (r: Result<
    VariantOptions,
    PerVariantOptionParseError,
>)
    ensures
        match r {
            Ok(acc2) => spec_apply_variant(acc@, o@) == Ok::<
                SpecVariantOptions,
                SpecOptionParseError,
            >(acc2@),
            Err(e) => spec_apply_variant(acc@, o@) == Err::<
                SpecVariantOptions,
                SpecOptionParseError,
            >(e@),
        },
{
    let name = o.name.as_str();
    if str_eq(name, "skip") {
        if acc.skip.is_some() {
            return Err(PerVariantOptionParseError::DuplicateOption(clone_string(&o.name)));
        }
        match bool_value(&o.value) {
            Some(b) => Ok(VariantOptions { skip: Some(b), ..acc }),
            None => Err(PerVariantOptionParseError::InvalidValue(clone_string(&o.name))),
        }
    } else if str_eq(name, "rename") {
        if acc.rename.is_some() {
            return Err(PerVariantOptionParseError::DuplicateOption(clone_string(&o.name)));
        }
        match str_value(&o.value) {
            Some(s) => if check_ident(s.as_str()) {
                Ok(VariantOptions { rename: Some(s), ..acc })
            } else {
                Err(PerVariantOptionParseError::InvalidValue(clone_string(&o.name)))
            },
            None => Err(PerVariantOptionParseError::InvalidValue(clone_string(&o.name))),
        }
    } else if str_eq(name, "derive") {
        if acc.derive.is_some() {
            return Err(PerVariantOptionParseError::DuplicateOption(clone_string(&o.name)));
        }
        match &o.value {
            OptionValue::StrValue(s) => match parse_path_list(s.as_str()) {
                Some(paths) => Ok(VariantOptions { derive: Some(paths), ..acc }),
                None => Err(PerVariantOptionParseError::InvalidValue(clone_string(&o.name))),
            },
            _ => Err(PerVariantOptionParseError::InvalidValue(clone_string(&o.name))),
        }
    } else if str_eq(name, "vis") {
        if acc.vis.is_some() {
            return Err(PerVariantOptionParseError::DuplicateOption(clone_string(&o.name)));
        }
        match &o.value {
            OptionValue::StrValue(s) => match parse_visibility(s.as_str()) {
                Some(v) => Ok(VariantOptions { vis: Some(v), ..acc }),
                None => Err(PerVariantOptionParseError::InvalidValue(clone_string(&o.name))),
            },
            _ => Err(PerVariantOptionParseError::InvalidValue(clone_string(&o.name))),
        }
    } else if str_eq(name, "fields_vis") {
        if acc.fields_vis.is_some() {
            return Err(PerVariantOptionParseError::DuplicateOption(clone_string(&o.name)));
        }
        match &o.value {
            OptionValue::StrValue(s) => match parse_visibility(s.as_str()) {
                Some(v) => Ok(VariantOptions { fields_vis: Some(v), ..acc }),
                None => Err(PerVariantOptionParseError::InvalidValue(clone_string(&o.name))),
            },
            _ => Err(PerVariantOptionParseError::InvalidValue(clone_string(&o.name))),
        }
    } else {
        Err(PerVariantOptionParseError::UnknownOption(clone_string(&o.name)))
    }
}

/// The boolean carried by a flag or bool value, if any.
fn bool_value(v: &OptionValue) -> (r: Option<bool>)
    ensures
        r == spec_bool_value(v@),
{
    match v {
        OptionValue::Flag => Some(true),
        OptionValue::BoolValue(b) => Some(*b),
        OptionValue::StrValue(_) => None,
    }
}

/// The text carried by a string value, if any.
fn str_value(v: &OptionValue) -> (r: Option<String>)
    ensures
        match r {
            Some(s) => spec_str_value(v@) == Some(s@),
            None => spec_str_value(v@) is None,
        },
{
    match v {
        OptionValue::StrValue(s) => Some(clone_string(s)),
        _ => None,
    }
}

/// A copy of a string with the same characters.
pub fn clone_string(s: &String) -> (r: String)
    ensures
        r@ == s@,
{
    s.clone()
}

} // verus!
