//! The two tree shapes kept in lock-step by this layer.
//!
//! The `Serde*` types are this tool's rendering of the external attribute
//! parser's output: one node kind per level of a data type declaration.
//! `Container`, `Data`, `Variant` and `Field` are the adapted counterparts,
//! identical but for the resolved override directive on variants and fields.
//!
//! Each exec type has a mathematical view (`*View`) over sequences and plain
//! values; every conversion contract is stated over these views.

use vstd::prelude::*;

verus! {

/// Layout style of a struct or of one enum variant's fields, passed through
/// the conversion verbatim.
#[derive(Clone, Copy, Debug, PartialEq, Eq, Structural)]
pub enum Style {
    /// Named fields in braces.
    Struct,
    /// One unnamed field in parentheses.
    Newtype,
    /// Two or more unnamed fields in parentheses.
    Tuple,
    /// No fields at all.
    Unit,
}

/// A struct or variant member: a field name, or a position within a tuple.
#[derive(Debug, PartialEq, Eq)]
pub enum Member {
    Named(String),
    Unnamed(u32),
}

/// Mathematical view of a `Member`.
#[verifier::ext_equal]
pub enum MemberView {
    Named(Seq<char>),
    Unnamed(u32),
}

impl View for Member {
    type V = MemberView;

    open spec fn view(&self) -> MemberView {
        match self {
            Member::Named(s) => MemberView::Named(s@),
            Member::Unnamed(i) => MemberView::Unnamed(*i),
        }
    }
}

/// Stand-in for the external parser's parsed attribute set on one node.
/// The conversion never looks inside it: it is carried through verbatim, and
/// the caller may use the token to look the real attribute set up again.
#[derive(Clone, Copy, Debug, PartialEq, Eq, Structural)]
pub struct ParsedAttrs {
    pub token: u64,
}

/// One raw attribute as it stands on the original syntax node, reduced to
/// what the override resolver distinguishes.
#[derive(Debug, PartialEq, Eq)]
pub enum RawAttr {
    /// An attribute the override resolver does not recognize; the payload
    /// stands for its uninterpreted content.
    Other(u64),
    /// The tool's override attribute, carrying its raw argument text.
    Override(String),
}

/// Mathematical view of a `RawAttr`.
#[verifier::ext_equal]
pub enum RawAttrView {
    Other(u64),
    Override(Seq<char>),
}

impl View for RawAttr {
    type V = RawAttrView;

    open spec fn view(&self) -> RawAttrView {
        match self {
            RawAttr::Other(t) => RawAttrView::Other(*t),
            RawAttr::Override(s) => RawAttrView::Override(s@),
        }
    }
}

/// Stand-in for one original syntax node, owned by the earlier parsing
/// phase and borrowed by both trees: its identity (where diagnostics point)
/// and its raw attribute list (what the override resolver inspects).
#[derive(Debug, PartialEq, Eq)]
pub struct OrigNode {
    /// Identity of the node; diagnostics refer to it.
    pub id: u64,
    /// The raw attributes written on the node.
    pub attrs: Vec<RawAttr>,
}

/// Mathematical view of an `OrigNode`.
#[verifier::ext_equal]
pub struct OrigNodeView {
    pub id: u64,
    pub attrs: Seq<RawAttrView>,
}

impl View for OrigNode {
    type V = OrigNodeView;

    open spec fn view(&self) -> OrigNodeView {
        OrigNodeView { id: self.id, attrs: self.attrs@.map_values(|a: RawAttr| a@) }
    }
}

/// A resolved override directive: generate through this custom target
/// instead of the default path.
#[derive(Debug, PartialEq, Eq)]
pub struct Directive {
    /// The target named by the directive, exactly as written.
    pub target: String,
}

/// View of an optional directive: the target text, if any.
pub open spec fn directive_view(w: Option<Directive>) -> Option<Seq<char>> {
    match w {
        Option::None => Option::None,
        Option::Some(d) => Option::Some(d.target@),
    }
}

// ---------------------------------------------------------------------------
// The external parser's tree, one node kind per level.
// ---------------------------------------------------------------------------

/// One field of a struct or variant, as the external parser reports it.
#[derive(Debug)]
pub struct SerdeField<'a> {
    pub member: Member,
    pub attrs: ParsedAttrs,
    pub ty: String,
    pub original: &'a OrigNode,
}

/// Mathematical view of a `SerdeField`.
#[verifier::ext_equal]
pub struct SerdeFieldView {
    pub member: MemberView,
    pub attrs: ParsedAttrs,
    pub ty: Seq<char>,
    pub original: OrigNodeView,
}

impl<'a> View for SerdeField<'a> {
    type V = SerdeFieldView;

    open spec fn view(&self) -> SerdeFieldView {
        SerdeFieldView {
            member: self.member@,
            attrs: self.attrs,
            ty: self.ty@,
            original: self.original@,
        }
    }
}

/// One enum variant, as the external parser reports it.
#[derive(Debug)]
pub struct SerdeVariant<'a> {
    pub ident: String,
    pub attrs: ParsedAttrs,
    pub style: Style,
    pub fields: Vec<SerdeField<'a>>,
    pub original: &'a OrigNode,
}

/// Mathematical view of a `SerdeVariant`.
#[verifier::ext_equal]
pub struct SerdeVariantView {
    pub ident: Seq<char>,
    pub attrs: ParsedAttrs,
    pub style: Style,
    pub fields: Seq<SerdeFieldView>,
    pub original: OrigNodeView,
}

impl<'a> View for SerdeVariant<'a> {
    type V = SerdeVariantView;

    open spec fn view(&self) -> SerdeVariantView {
        SerdeVariantView {
            ident: self.ident@,
            attrs: self.attrs,
            style: self.style,
            fields: self.fields@.map_values(|f: SerdeField<'a>| f@),
            original: self.original@,
        }
    }
}

/// The body of a declaration, as the external parser reports it.
#[derive(Debug)]
pub enum SerdeData<'a> {
    Enum(Vec<SerdeVariant<'a>>),
    Struct(Style, Vec<SerdeField<'a>>),
}

/// Mathematical view of a `SerdeData`.
#[verifier::ext_equal]
pub enum SerdeDataView {
    Enum(Seq<SerdeVariantView>),
    Struct(Style, Seq<SerdeFieldView>),
}

impl<'a> View for SerdeData<'a> {
    type V = SerdeDataView;

    open spec fn view(&self) -> SerdeDataView {
        match self {
            SerdeData::Enum(vs) => SerdeDataView::Enum(vs@.map_values(|v: SerdeVariant<'a>| v@)),
            SerdeData::Struct(style, fs) => SerdeDataView::Struct(
                *style,
                fs@.map_values(|f: SerdeField<'a>| f@),
            ),
        }
    }
}

/// One whole declared data type, as the external parser reports it.
#[derive(Debug)]
pub struct SerdeContainer<'a> {
    pub ident: String,
    pub attrs: ParsedAttrs,
    pub data: SerdeData<'a>,
    pub generics: Vec<String>,
    pub original: &'a OrigNode,
}

/// Mathematical view of a `SerdeContainer`.
#[verifier::ext_equal]
pub struct SerdeContainerView {
    pub ident: Seq<char>,
    pub attrs: ParsedAttrs,
    pub data: SerdeDataView,
    pub generics: Seq<Seq<char>>,
    pub original: OrigNodeView,
}

impl<'a> View for SerdeContainer<'a> {
    type V = SerdeContainerView;

    open spec fn view(&self) -> SerdeContainerView {
        SerdeContainerView {
            ident: self.ident@,
            attrs: self.attrs,
            data: self.data@,
            generics: self.generics@.map_values(|g: String| g@),
            original: self.original@,
        }
    }
}

// ---------------------------------------------------------------------------
// The adapted tree: what the downstream generator consumes.
// ---------------------------------------------------------------------------

/// One adapted field: everything copied verbatim from the external node,
/// plus the resolved override directive.
#[derive(Debug, PartialEq, Eq)]
pub struct Field<'a> {
    pub member: Member,
    pub serde_attrs: ParsedAttrs,
    pub ty: String,
    pub original: &'a OrigNode,
    pub with: Option<Directive>,
}

/// Mathematical view of a `Field`.
#[verifier::ext_equal]
pub struct FieldView {
    pub member: MemberView,
    pub serde_attrs: ParsedAttrs,
    pub ty: Seq<char>,
    pub original: OrigNodeView,
    pub with: Option<Seq<char>>,
}

impl<'a> View for Field<'a> {
    type V = FieldView;

    open spec fn view(&self) -> FieldView {
        FieldView {
            member: self.member@,
            serde_attrs: self.serde_attrs,
            ty: self.ty@,
            original: self.original@,
            with: directive_view(self.with),
        }
    }
}

/// One adapted enum variant.
#[derive(Debug, PartialEq, Eq)]
pub struct Variant<'a> {
    pub ident: String,
    pub serde_attrs: ParsedAttrs,
    pub style: Style,
    pub fields: Vec<Field<'a>>,
    pub original: &'a OrigNode,
    pub with: Option<Directive>,
}

/// Mathematical view of a `Variant`.
#[verifier::ext_equal]
pub struct VariantView {
    pub ident: Seq<char>,
    pub serde_attrs: ParsedAttrs,
    pub style: Style,
    pub fields: Seq<FieldView>,
    pub original: OrigNodeView,
    pub with: Option<Seq<char>>,
}

impl<'a> View for Variant<'a> {
    type V = VariantView;

    open spec fn view(&self) -> VariantView {
        VariantView {
            ident: self.ident@,
            serde_attrs: self.serde_attrs,
            style: self.style,
            fields: self.fields@.map_values(|f: Field<'a>| f@),
            original: self.original@,
            with: directive_view(self.with),
        }
    }
}

/// The adapted body of a declaration.  The tag (enum against struct) and the
/// layout style are exactly those of the external node.
#[derive(Debug, PartialEq, Eq)]
pub enum Data<'a> {
    Enum(Vec<Variant<'a>>),
    Struct(Style, Vec<Field<'a>>),
}

/// Mathematical view of a `Data`.
#[verifier::ext_equal]
pub enum DataView {
    Enum(Seq<VariantView>),
    Struct(Style, Seq<FieldView>),
}

impl<'a> View for Data<'a> {
    type V = DataView;

    open spec fn view(&self) -> DataView {
        match self {
            Data::Enum(vs) => DataView::Enum(vs@.map_values(|v: Variant<'a>| v@)),
            Data::Struct(style, fs) => DataView::Struct(
                *style,
                fs@.map_values(|f: Field<'a>| f@),
            ),
        }
    }
}

/// One whole adapted declaration: what the downstream generator receives.
#[derive(Debug, PartialEq, Eq)]
pub struct Container<'a> {
    pub ident: String,
    pub serde_attrs: ParsedAttrs,
    pub data: Data<'a>,
    pub generics: Vec<String>,
    pub original: &'a OrigNode,
}

/// Mathematical view of a `Container`.
#[verifier::ext_equal]
pub struct ContainerView {
    pub ident: Seq<char>,
    pub serde_attrs: ParsedAttrs,
    pub data: DataView,
    pub generics: Seq<Seq<char>>,
    pub original: OrigNodeView,
}

impl<'a> View for Container<'a> {
    type V = ContainerView;

    open spec fn view(&self) -> ContainerView {
        ContainerView {
            ident: self.ident@,
            serde_attrs: self.serde_attrs,
            data: self.data@,
            generics: self.generics@.map_values(|g: String| g@),
            original: self.original@,
        }
    }
}

} // verus!
