use vstd::prelude::*;
use vstd::string::*;

use crate::model::{opt_str, ArgModel, GenericModel, Generics, Ident, IdentModel, LitStr, MethodArgument, Span, TokenModel, TypeRef, VisModel, Visibility};
use crate::rename::RenameRule;

verus! {

/// A failure of the option-bundle parser, with the message it gave.
#[derive(Clone, Debug)]
pub struct AttrError {
    pub message: String,
    pub span: Span,
}

/// The options attached to one field.
#[derive(Clone, Debug)]
pub struct FieldAttrs {
    /// An explicit exposed name.
    pub name: Option<LitStr>,
    pub description: Option<String>,
    pub deprecated: Option<String>,
    /// The field is left out of the interface.
    pub ignore: bool,
}

/// The options attached to the struct itself.
#[derive(Clone, Debug)]
pub struct StructAttrs {
    /// An explicit interface name.
    pub name: Option<LitStr>,
    pub description: Option<String>,
    pub context: Option<TypeRef>,
    pub scalar: Option<TypeRef>,
    pub rename_fields: Option<RenameRule>,
    pub implemented_for: Vec<TypeRef>,
    /// An explicit name for the type that unifies the implementors.
    pub enum_name: Option<Ident>,
    /// The interface belongs to the introspection system and may use the
    /// reserved prefix.
    pub is_internal: bool,
}

/// One field of the source struct. A field of a tuple struct has no
/// identifier. Its options are given as the parser returned them.
#[derive(Debug)]
pub struct SourceField {
    pub ident: Option<Ident>,
    pub span: Span,
    pub ty: TypeRef,
    pub attrs: Result<FieldAttrs, AttrError>,
}

/// The kind of item that the derivation was asked for.
#[derive(Clone, Copy, Debug, PartialEq, Eq, Structural)]
pub enum ItemKind {
    Struct,
    Enum,
    Union,
}

/// The decomposed source item.
#[derive(Debug)]
pub struct SourceStruct {
    pub kind: ItemKind,
    pub ident: Ident,
    pub span: Span,
    pub vis: Visibility,
    pub generics: Generics,
    pub fields: Vec<SourceField>,
    pub attrs: Result<StructAttrs, AttrError>,
}

#[derive(Clone, Copy, Debug, PartialEq, Eq, Structural)]
pub enum Severity {
    /// The whole derivation is invalid.
    Fatal,
    /// The offending item is dropped and its siblings are still processed.
    Recoverable,
}

#[derive(Clone, Copy, Debug, PartialEq, Eq, Structural)]
pub enum ErrorKind {
    /// The source has the wrong shape.
    Structure,
    /// An option bundle could not be parsed.
    Option,
    /// A reserved or non-unique name.
    Naming,
    /// No field is left in the interface.
    EmptyInterface,
}

/// A diagnostic, anchored at a source location.
#[derive(Clone, Debug)]
pub struct Diagnostic {
    pub kind: ErrorKind,
    pub severity: Severity,
    pub message: String,
    pub span: Span,
}

/// One field of the derived interface.
#[derive(Clone, Debug)]
pub struct FieldDefinition {
    /// The exposed name.
    pub name: String,
    /// The source identifier.
    pub ident: Ident,
    /// The declared type, with its lifetimes anonymized.
    pub ty: TypeRef,
    pub description: Option<String>,
    pub deprecated: Option<String>,
    pub arguments: Option<Vec<MethodArgument>>,
    pub has_receiver: bool,
    pub is_async: bool,
}

/// The scalar representation of an interface.
#[derive(Clone, Debug)]
pub enum ScalarType {
    /// A type parameter of the struct's generics.
    ExplicitGeneric(String),
    /// A concrete type.
    Concrete(TypeRef),
    /// The default representation, generic over the struct.
    ImplicitGeneric,
}

/// The resolved definition of an interface.
#[derive(Clone, Debug)]
pub struct InterfaceDefinition {
    pub generics: Generics,
    pub vis: Visibility,
    pub enum_ident: String,
    pub enum_alias_ident: String,
    pub name: String,
    pub description: Option<String>,
    pub context: TypeRef,
    pub scalar: ScalarType,
    pub fields: Vec<FieldDefinition>,
    pub implemented_for: Vec<TypeRef>,
}

pub struct DiagModel {
    pub kind: ErrorKind,
    pub severity: Severity,
    pub message: Seq<char>,
    pub span: Span,
}

pub struct FieldModel {
    pub name: Seq<char>,
    pub ident: IdentModel,
    pub ty: Seq<TokenModel>,
    pub description: Option<Seq<char>>,
    pub deprecated: Option<Seq<char>>,
    pub arguments: Option<Seq<ArgModel>>,
    pub has_receiver: bool,
    pub is_async: bool,
}

pub enum ScalarModel {
    ExplicitGeneric(Seq<char>),
    Concrete(Seq<TokenModel>),
    ImplicitGeneric,
}

pub struct DefModel {
    pub generics: Seq<GenericModel>,
    pub vis: VisModel,
    pub enum_ident: Seq<char>,
    pub enum_alias_ident: Seq<char>,
    pub name: Seq<char>,
    pub description: Option<Seq<char>>,
    pub context: Seq<TokenModel>,
    pub scalar: ScalarModel,
    pub fields: Seq<FieldModel>,
    pub implemented_for: Seq<Seq<TokenModel>>,
}

impl View for Diagnostic {
    type V = DiagModel;

    open spec fn view(&self) -> DiagModel {
        DiagModel {
            kind: self.kind,
            severity: self.severity,
            message: self.message@,
            span: self.span,
        }
    }
}

/// The view of a list of arguments.
pub open spec fn arg_views(a: Seq<MethodArgument>) -> Seq<ArgModel> {
    a.map_values(|m: MethodArgument| m@)
}

impl View for FieldDefinition {
    type V = FieldModel;

    open spec fn view(&self) -> FieldModel {
        FieldModel {
            name: self.name@,
            ident: self.ident@,
            ty: self.ty@,
            description: opt_str(self.description),
            deprecated: opt_str(self.deprecated),
            arguments: match self.arguments {
                Some(a) => Some(arg_views(a@)),
                None => None,
            },
            has_receiver: self.has_receiver,
            is_async: self.is_async,
        }
    }
}

impl View for ScalarType {
    type V = ScalarModel;

    open spec fn view(&self) -> ScalarModel {
        match self {
            ScalarType::ExplicitGeneric(s) => ScalarModel::ExplicitGeneric(s@),
            ScalarType::Concrete(t) => ScalarModel::Concrete(t@),
            ScalarType::ImplicitGeneric => ScalarModel::ImplicitGeneric,
        }
    }
}

/// The views of a list of diagnostics.
pub open spec fn diag_views(d: Seq<Diagnostic>) -> Seq<DiagModel> {
    d.map_values(|x: Diagnostic| x@)
}

/// The views of a list of field definitions.
pub open spec fn field_views(f: Seq<FieldDefinition>) -> Seq<FieldModel> {
    f.map_values(|x: FieldDefinition| x@)
}

/// The views of a list of type references.
pub open spec fn type_views(t: Seq<TypeRef>) -> Seq<Seq<TokenModel>> {
    t.map_values(|x: TypeRef| x@)
}

impl View for InterfaceDefinition {
    type V = DefModel;

    open spec fn view(&self) -> DefModel {
        DefModel {
            generics: self.generics@,
            vis: self.vis@,
            enum_ident: self.enum_ident@,
            enum_alias_ident: self.enum_alias_ident@,
            name: self.name@,
            description: opt_str(self.description),
            context: self.context@,
            scalar: self.scalar@,
            fields: field_views(self.fields@),
            implemented_for: type_views(self.implemented_for@),
        }
    }
}

pub open spec fn diag_spec(
    kind: ErrorKind,
    severity: Severity,
    message: Seq<char>,
    span: Span,
) -> DiagModel {
    DiagModel { kind, severity, message, span }
}

pub open spec fn msg_not_struct() -> Seq<char> {
    "can only be derived on structs"@
}

pub open spec fn msg_unnamed_field() -> Seq<char> {
    "expected named struct field"@
}

pub open spec fn msg_reserved() -> Seq<char> {
    "must not have a name which begins with `__` (two underscores), as this is used exclusively by the introspection system"@
}

pub open spec fn msg_no_fields() -> Seq<char> {
    "must have at least one field"@
}

pub open spec fn msg_duplicate() -> Seq<char> {
    "must have a different name for each field"@
}

/// Builds a diagnostic.
pub fn diagnostic(kind: ErrorKind, severity: Severity, message: &str, span: Span) -> (r:
    Diagnostic)
    ensures
        r@ == diag_spec(kind, severity, message@, span),
{
    Diagnostic { kind, severity, message: String::from_str(message), span }
}

/// Records `d` in `diags`.
pub fn record(diags: &mut Vec<Diagnostic>, d: Diagnostic)
    ensures
        diag_views(final(diags)@) == diag_views(old(diags)@).push(d@),
{
    diags.push(d);
    assert(diag_views(diags@) =~= diag_views(old(diags)@).push(d@));
}

} // verus!
