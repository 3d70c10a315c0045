//! The structural declaration model.
//!
//! The host parser turns source text into this structural tree and back;
//! the transformation only ever sees these plain values. A sum type holds
//! ordered variants; a variant holds a payload shape and the option bag
//! that was attached to it; generated output is a rewritten sum type plus
//! record declarations and conversions.

use vstd::prelude::*;
use vstd::string::*;
use crate::options::{RawOption, SpecRawOption};

verus! {

/// A visibility specifier of a declaration or field.
#[derive(PartialEq)]
pub enum Visibility {
    /// No specifier: visible in the enclosing module only.
    Inherited,
    /// `pub`.
    Public,
    /// `pub(crate)`.
    Crate,
    /// `pub(super)`.
    Super,
    /// `pub(self)`.
    SelfScope,
    /// `pub(in <path>)`, with the path as written.
    InPath(String),
}

#[verifier::ext_equal]
pub enum SpecVisibility {
    Inherited,
    Public,
    Crate,
    Super,
    SelfScope,
    InPath(Seq<char>),
}

impl View for Visibility {
    type V = SpecVisibility;

    open spec fn view(&self) -> SpecVisibility {
        match self {
            Visibility::Inherited => SpecVisibility::Inherited,
            Visibility::Public => SpecVisibility::Public,
            Visibility::Crate => SpecVisibility::Crate,
            Visibility::Super => SpecVisibility::Super,
            Visibility::SelfScope => SpecVisibility::SelfScope,
            Visibility::InPath(p) => SpecVisibility::InPath(p@),
        }
    }
}

impl DeepView for Visibility {
    type V = SpecVisibility;

    open spec fn deep_view(&self) -> SpecVisibility {
        self.view()
    }
}

impl Clone for Visibility {
    fn clone(&self) -> (r: Self)
        ensures
            r@ == self@,
    {
        match self {
            Visibility::Inherited => Visibility::Inherited,
            Visibility::Public => Visibility::Public,
            Visibility::Crate => Visibility::Crate,
            Visibility::Super => Visibility::Super,
            Visibility::SelfScope => Visibility::SelfScope,
            Visibility::InPath(p) => Visibility::InPath(p.clone()),
        }
    }
}

/// One field of a payload or record: an optional name, an opaque type
/// reference, and a visibility.
#[derive(PartialEq)]
pub struct FieldDecl {
    pub name: Option<String>,
    pub ty: String,
    pub vis: Visibility,
}

#[verifier::ext_equal]
pub struct SpecFieldDecl {
    pub name: Option<Seq<char>>,
    pub ty: Seq<char>,
    pub vis: SpecVisibility,
}

impl View for FieldDecl {
    type V = SpecFieldDecl;

    open spec fn view(&self) -> SpecFieldDecl {
        SpecFieldDecl { name: self.name.deep_view(), ty: self.ty@, vis: self.vis@ }
    }
}

impl DeepView for FieldDecl {
    type V = SpecFieldDecl;

    open spec fn deep_view(&self) -> SpecFieldDecl {
        self.view()
    }
}

impl Clone for FieldDecl {
    fn clone(&self) -> (r: Self)
        ensures
            r@ == self@,
    {
        FieldDecl {
            name: match &self.name {
                Some(n) => Some(n.clone()),
                None => None,
            },
            ty: self.ty.clone(),
            vis: self.vis.clone(),
        }
    }
}

/// The payload shape of a variant.
#[derive(PartialEq)]
pub enum Payload {
    /// No payload at all.
    Empty,
    /// A parenthesized field list, possibly empty.
    Positional(Vec<FieldDecl>),
    /// A braced field list, possibly empty.
    Named(Vec<FieldDecl>),
}

#[verifier::ext_equal]
pub enum SpecPayload {
    Empty,
    Positional(Seq<SpecFieldDecl>),
    Named(Seq<SpecFieldDecl>),
}

impl View for Payload {
    type V = SpecPayload;

    open spec fn view(&self) -> SpecPayload {
        match self {
            Payload::Empty => SpecPayload::Empty,
            Payload::Positional(fs) => SpecPayload::Positional(fs.deep_view()),
            Payload::Named(fs) => SpecPayload::Named(fs.deep_view()),
        }
    }
}

impl DeepView for Payload {
    type V = SpecPayload;

    open spec fn deep_view(&self) -> SpecPayload {
        self.view()
    }
}

/// One variant of a sum type: its name, its payload shape, and the option
/// bag attached to it (consumed and removed during resolution).
#[derive(PartialEq)]
pub struct VariantDecl {
    pub name: String,
    pub payload: Payload,
    pub annotations: Vec<RawOption>,
}

#[verifier::ext_equal]
pub struct SpecVariantDecl {
    pub name: Seq<char>,
    pub payload: SpecPayload,
    pub annotations: Seq<SpecRawOption>,
}

impl View for VariantDecl {
    type V = SpecVariantDecl;

    open spec fn view(&self) -> SpecVariantDecl {
        SpecVariantDecl {
            name: self.name@,
            payload: self.payload@,
            annotations: self.annotations.deep_view(),
        }
    }
}

impl DeepView for VariantDecl {
    type V = SpecVariantDecl;

    open spec fn deep_view(&self) -> SpecVariantDecl {
        self.view()
    }
}

/// A sum-type declaration: name, visibility, its own capability list, and
/// its ordered variants.
#[derive(PartialEq)]
pub struct SumTypeDecl {
    pub name: String,
    pub vis: Visibility,
    pub derives: Vec<String>,
    pub variants: Vec<VariantDecl>,
}

#[verifier::ext_equal]
pub struct SpecSumTypeDecl {
    pub name: Seq<char>,
    pub vis: SpecVisibility,
    pub derives: Seq<Seq<char>>,
    pub variants: Seq<SpecVariantDecl>,
}

impl View for SumTypeDecl {
    type V = SpecSumTypeDecl;

    open spec fn view(&self) -> SpecSumTypeDecl {
        SpecSumTypeDecl {
            name: self.name@,
            vis: self.vis@,
            derives: self.derives.deep_view(),
            variants: self.variants.deep_view(),
        }
    }
}

/// The field list of a generated record declaration.
#[derive(PartialEq)]
pub enum RecordFields {
    /// No field list at all: a bare nominal marker.
    Marker,
    /// A parenthesized field list, never empty.
    Positional(Vec<FieldDecl>),
    /// A braced field list, possibly empty.
    Named(Vec<FieldDecl>),
}

#[verifier::ext_equal]
pub enum SpecRecordFields {
    Marker,
    Positional(Seq<SpecFieldDecl>),
    Named(Seq<SpecFieldDecl>),
}

impl View for RecordFields {
    type V = SpecRecordFields;

    open spec fn view(&self) -> SpecRecordFields {
        match self {
            RecordFields::Marker => SpecRecordFields::Marker,
            RecordFields::Positional(fs) => SpecRecordFields::Positional(fs.deep_view()),
            RecordFields::Named(fs) => SpecRecordFields::Named(fs.deep_view()),
        }
    }
}

impl DeepView for RecordFields {
    type V = SpecRecordFields;

    open spec fn deep_view(&self) -> SpecRecordFields {
        self.view()
    }
}

/// A generated record declaration.
#[derive(PartialEq)]
pub struct RecordDecl {
    pub name: String,
    pub vis: Visibility,
    pub fields: RecordFields,
    pub derives: Vec<String>,
}

#[verifier::ext_equal]
pub struct SpecRecordDecl {
    pub name: Seq<char>,
    pub vis: SpecVisibility,
    pub fields: SpecRecordFields,
    pub derives: Seq<Seq<char>>,
}

impl View for RecordDecl {
    type V = SpecRecordDecl;

    open spec fn view(&self) -> SpecRecordDecl {
        SpecRecordDecl {
            name: self.name@,
            vis: self.vis@,
            fields: self.fields@,
            derives: self.derives.deep_view(),
        }
    }
}

impl DeepView for RecordDecl {
    type V = SpecRecordDecl;

    open spec fn deep_view(&self) -> SpecRecordDecl {
        self.view()
    }
}

/// A generated conversion: from a value of the record type into the
/// sum-type value of the corresponding variant.
#[derive(PartialEq)]
pub struct Conversion {
    pub record_name: String,
    pub sum_type_name: String,
    pub variant_name: String,
}

#[verifier::ext_equal]
pub struct SpecConversion {
    pub record_name: Seq<char>,
    pub sum_type_name: Seq<char>,
    pub variant_name: Seq<char>,
}

impl View for Conversion {
    type V = SpecConversion;

    open spec fn view(&self) -> SpecConversion {
        SpecConversion {
            record_name: self.record_name@,
            sum_type_name: self.sum_type_name@,
            variant_name: self.variant_name@,
        }
    }
}

impl DeepView for Conversion {
    type V = SpecConversion;

    open spec fn deep_view(&self) -> SpecConversion {
        self.view()
    }
}

/// The assembled output: the rewritten sum type, then every generated
/// record, then every generated conversion, in original variant order.
#[derive(PartialEq)]
pub struct TransformOutput {
    pub sum_type: SumTypeDecl,
    pub records: Vec<RecordDecl>,
    pub conversions: Vec<Conversion>,
}

#[verifier::ext_equal]
pub struct SpecTransformOutput {
    pub sum_type: SpecSumTypeDecl,
    pub records: Seq<SpecRecordDecl>,
    pub conversions: Seq<SpecConversion>,
}

impl View for TransformOutput {
    type V = SpecTransformOutput;

    open spec fn view(&self) -> SpecTransformOutput {
        SpecTransformOutput {
            sum_type: self.sum_type@,
            records: self.records.deep_view(),
            conversions: self.conversions.deep_view(),
        }
    }
}

} // verus!
