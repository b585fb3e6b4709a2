use vstd::prelude::*;
use vstd::string::*;

use crate::defs::{
    arg_views, diag_spec, diag_views, diagnostic, field_views, msg_not_struct, msg_reserved, record,
    type_views, AttrError, DefModel, DiagModel, Diagnostic, ErrorKind, FieldDefinition,
    FieldModel, InterfaceDefinition, ItemKind, ScalarModel, ScalarType, Severity, SourceStruct,
    StructAttrs,
};
use crate::fields::{check_fields, extract_fields, extract_spec, post_diags};
use crate::model::{
    copy_opt_str, opt_str, ArgModel, GenericModel, GenericParam, Generics, Ident, MethodArgument, TokenModel,
    TypeRef, TypeToken,
};
use crate::names::{has_reserved_prefix, reserved_spec, unraw, unraw_spec};
use crate::rename::RenameRule;

verus! {

/// The exposed interface name: the explicit name if there is one, else the
/// de-escaped struct identifier.
pub open spec fn struct_name_spec(ident: Ident, a: StructAttrs) -> Seq<char> {
    match a.name {
        Some(n) => n.value@,
        None => unraw_spec(ident.name@),
    }
}

/// The diagnostics raised on the struct-level options: a naming error,
/// anchored at the explicit name if there is one, else at the struct
/// identifier, when a non-internal interface takes a reserved name.
pub open spec fn struct_option_diags(ident: Ident, a: StructAttrs) -> Seq<DiagModel> {
    if !a.is_internal && reserved_spec(struct_name_spec(ident, a)) {
        seq![
            diag_spec(
                ErrorKind::Naming,
                Severity::Recoverable,
                msg_reserved(),
                match a.name {
                    Some(n) => n.span,
                    None => ident.span,
                },
            ),
        ]
    } else {
        Seq::empty()
    }
}

/// The renaming rule in force: camel case unless another one is given.
pub open spec fn rule_spec(a: StructAttrs) -> RenameRule {
    match a.rename_fields {
        Some(r) => r,
        None => RenameRule::CamelCase,
    }
}

/// Whether `name` is a type parameter of `g`.
pub open spec fn is_type_param(g: Seq<GenericModel>, name: Seq<char>) -> bool {
    exists|j: int| 0 <= j < g.len() && g[j] == GenericModel::Type(name)
}

/// The scalar representation: the default one when none is given; a type
/// parameter of the struct when the given type is one; else the given type.
pub open spec fn scalar_spec(scalar: Option<TypeRef>, g: Seq<GenericModel>) -> ScalarModel {
    match scalar {
        None => ScalarModel::ImplicitGeneric,
        Some(t) => if t@.len() == 1 && t@[0] is Ident && is_type_param(g, t@[0]->Ident_0) {
            ScalarModel::ExplicitGeneric(t@[0]->Ident_0)
        } else {
            ScalarModel::Concrete(t@)
        },
    }
}

/// The context type declared by the first context argument of `args`.
pub open spec fn arg_context(args: Seq<ArgModel>) -> Option<Seq<TokenModel>>
    decreases args.len(),
{
    if args.len() == 0 {
        None
    } else if args[0] is Context {
        Some(args[0]->Context_0)
    } else {
        arg_context(args.skip(1))
    }
}

/// The context type declared by the arguments of the first field that
/// declares one.
pub open spec fn field_context(fs: Seq<FieldModel>) -> Option<Seq<TokenModel>>
    decreases fs.len(),
{
    if fs.len() == 0 {
        None
    } else {
        match fs[0].arguments {
            Some(args) => match arg_context(args) {
                Some(t) => Some(t),
                None => field_context(fs.skip(1)),
            },
            None => field_context(fs.skip(1)),
        }
    }
}

/// The unit type `()`.
pub open spec fn unit_type() -> Seq<TokenModel> {
    seq![TokenModel::Punct('('), TokenModel::Punct(')')]
}

/// The context type: the explicit one, else the one the fields declare,
/// else the unit type.
pub open spec fn context_spec(explicit: Option<TypeRef>, fs: Seq<FieldModel>) -> Seq<TokenModel> {
    match explicit {
        Some(t) => t@,
        None => match field_context(fs) {
            Some(t) => t,
            None => unit_type(),
        },
    }
}

/// The public alias of the type that unifies the implementors.
pub open spec fn enum_alias_spec(struct_ident: Seq<char>, explicit: Option<Ident>) -> Seq<char> {
    match explicit {
        Some(c) => c.name@,
        None => struct_ident + "Value"@,
    }
}

/// The internal identifier of the type that unifies the implementors.
pub open spec fn enum_ident_spec(struct_ident: Seq<char>, explicit: Option<Ident>) -> Seq<char> {
    match explicit {
        Some(c) => c.name@ + "Enum"@,
        None => struct_ident + "ValueEnum"@,
    }
}

/// The definition of a struct whose derivation raised no diagnostic.
pub open spec fn definition_spec(s: SourceStruct, a: StructAttrs, fs: Seq<FieldModel>) -> DefModel {
    DefModel {
        generics: s.generics@,
        vis: s.vis@,
        enum_ident: enum_ident_spec(s.ident.name@, a.enum_name),
        enum_alias_ident: enum_alias_spec(s.ident.name@, a.enum_name),
        name: struct_name_spec(s.ident, a),
        description: opt_str(a.description),
        context: context_spec(a.context, fs),
        scalar: scalar_spec(a.scalar, s.generics@),
        fields: fs,
        implemented_for: type_views(a.implemented_for@),
    }
}

/// The diagnostic for a struct-level option bundle that did not parse.
pub open spec fn struct_option_error(e: AttrError) -> DiagModel {
    diag_spec(ErrorKind::Option, Severity::Fatal, e.message@, e.span)
}

/// All diagnostics that the derivation of a struct with options `a`
/// raises, stage by stage.
pub open spec fn diagnostics_spec(s: SourceStruct, a: StructAttrs) -> Seq<DiagModel> {
    struct_option_diags(s.ident, a) + extract_spec(s.fields@, rule_spec(a)).1 + post_diags(
        extract_spec(s.fields@, rule_spec(a)).0,
        s.span,
    )
}

/// The outcome of the derivation: the definition, or every diagnostic
/// raised on the way.
pub open spec fn derive_spec(s: SourceStruct) -> Result<DefModel, Seq<DiagModel>> {
    if s.kind != ItemKind::Struct {
        Err(seq![diag_spec(ErrorKind::Structure, Severity::Fatal, msg_not_struct(), s.span)])
    } else {
        match s.attrs {
            Err(e) => Err(seq![struct_option_error(e)]),
            Ok(a) => if diagnostics_spec(s, a).len() > 0 {
                Err(diagnostics_spec(s, a))
            } else {
                Ok(definition_spec(s, a, extract_spec(s.fields@, rule_spec(a)).0))
            },
        }
    }
}

/// The view of an outcome.
pub open spec fn outcome_view(r: Result<InterfaceDefinition, Vec<Diagnostic>>) -> Result<
    DefModel,
    Seq<DiagModel>,
> {
    match r {
        Ok(d) => Ok(d@),
        Err(e) => Err(diag_views(e@)),
    }
}

/// Resolves the exposed interface name, recording a naming error when a
/// non-internal interface takes a reserved name.
pub fn resolve_name(ident: &Ident, attrs: &StructAttrs, diags: &mut Vec<Diagnostic>) -> (r: String)
    ensures
        r@ == struct_name_spec(*ident, *attrs),
        diag_views(final(diags)@) == diag_views(old(diags)@) + struct_option_diags(*ident, *attrs),
{
    let name = match &attrs.name {
        Some(n) => n.value.clone(),
        None => unraw(ident.name.as_str()),
    };
    if !attrs.is_internal && has_reserved_prefix(name.as_str()) {
        let anchor = match &attrs.name {
            Some(n) => n.span,
            None => ident.span,
        };
        record(diags, diagnostic(ErrorKind::Naming, Severity::Recoverable, "must not have a name which begins with `__` (two underscores), as this is used exclusively by the introspection system", anchor));
    }
    assert(diag_views(diags@) =~= diag_views(old(diags)@) + struct_option_diags(*ident, *attrs));
    name
}

/// Resolves the scalar representation against the struct's generics.
pub fn parse_scalar(scalar: &Option<TypeRef>, generics: &Generics) -> (r: ScalarType)
    ensures
        r@ == scalar_spec(*scalar, generics@),
{
    match scalar {
        None => ScalarType::ImplicitGeneric,
        Some(t) => {
            if t.tokens.len() == 1 {
                if let TypeToken::Ident(name) = &t.tokens[0] {
                    let mut j: usize = 0;
                    while j < generics.params.len()
                        invariant
                            j <= generics.params@.len(),
                            t.tokens@.len() == 1,
                            *scalar == Some(*t),
                            t.tokens@[0] == TypeToken::Ident(*name),
                            forall|k: int|
                                0 <= k < j ==> #[trigger] generics@[k] != GenericModel::Type(
                                    name@,
                                ),
                        decreases generics.params@.len() - j,
                    {
                        if let GenericParam::Type(p) = &generics.params[j] {
                            assert(generics@[j as int] == generics.params@[j as int]@);
                            if *p == *name {
                                assert(generics@[j as int] == GenericModel::Type(name@));
                                assert(t@[0] == TokenModel::Ident(name@));
                                return ScalarType::ExplicitGeneric(name.clone());
                            }
                        }
                        j = j + 1;
                    }
                    assert(!is_type_param(generics@, name@));
                    assert(t@[0] == t.tokens@[0]@);
                }
            }
            ScalarType::Concrete(t.duplicate())
        },
    }
}

/// The context type declared by the first context argument of `args`.
fn find_arg_context(args: &Vec<MethodArgument>) -> (r: Option<TypeRef>)
    ensures
        match r {
            Some(t) => arg_context(arg_views(args@)) == Some(t@),
            None => arg_context(arg_views(args@)) is None,
        },
{
    let ghost all = arg_views(args@);
    assert(all.skip(0) =~= all);
    let mut i: usize = 0;
    while i < args.len()
        invariant
            i <= args@.len(),
            all == arg_views(args@),
            arg_context(all.skip(i as int)) == arg_context(all),
        decreases args@.len() - i,
    {
        assert(all.skip(i as int).skip(1) =~= all.skip(i + 1));
        assert(all.skip(i as int)[0] == args@[i as int]@);
        if let MethodArgument::Context(t) = &args[i] {
            return Some(t.duplicate());
        }
        i = i + 1;
    }
    assert(all.skip(i as int).len() == 0);
    None
}

/// Resolves the context type of the interface: the explicit one wins;
/// else the first one declared through the fields' arguments; else `()`.
pub fn resolve_context(explicit: &Option<TypeRef>, fields: &Vec<FieldDefinition>) -> (r: TypeRef)
    ensures
        r@ == context_spec(*explicit, field_views(fields@)),
{
    let t = match explicit {
        Some(t) => t,
        None => {
            return find_context(fields);
        },
    };
    t.duplicate()
}

/// The context type declared through the fields' arguments, else `()`.
fn find_context(fields: &Vec<FieldDefinition>) -> (r: TypeRef)
    ensures
        r@ == context_spec(None, field_views(fields@)),
{
    let ghost all = field_views(fields@);
    assert(all.skip(0) =~= all);
    let mut i: usize = 0;
    while i < fields.len()
        invariant
            i <= fields@.len(),
            all == field_views(fields@),
            field_context(all.skip(i as int)) == field_context(all),
        decreases fields@.len() - i,
    {
        assert(all.skip(i as int).skip(1) =~= all.skip(i + 1));
        assert(all.skip(i as int)[0] == fields@[i as int]@);
        if let Some(args) = &fields[i].arguments {
            assert(all.skip(i as int)[0].arguments == Some(arg_views(args@)));
            if let Some(t) = find_arg_context(args) {
                assert(all.skip(i as int).len() > 0);
                assert(field_context(all.skip(i as int)) == Some(t@));
                return t;
            }
        }
        i = i + 1;
    }
    assert(all.skip(i as int).len() == 0);
    let unit = TypeRef { tokens: vec![TypeToken::Punct('('), TypeToken::Punct(')')] };
    assert(unit@ =~= unit_type());
    unit
}

/// Synthesizes the identifiers of the type that unifies the implementors:
/// the internal one first, then its public alias.
pub fn synthesize_names(struct_ident: &Ident, explicit: &Option<Ident>) -> (r: (String, String))
    ensures
        r.0@ == enum_ident_spec(struct_ident.name@, *explicit),
        r.1@ == enum_alias_spec(struct_ident.name@, *explicit),
{
    match explicit {
        Some(c) => {
            let alias = c.name.clone();
            let ident = c.name.clone().concat("Enum");
            (ident, alias)
        },
        None => {
            let alias = struct_ident.name.clone().concat("Value");
            let ident = struct_ident.name.clone().concat("ValueEnum");
            (ident, alias)
        },
    }
}

/// Copies a list of type references.
fn copy_types(v: &Vec<TypeRef>) -> (r: Vec<TypeRef>)
    ensures
        type_views(r@) == type_views(v@),
{
    let mut out: Vec<TypeRef> = Vec::new();
    let mut i: usize = 0;
    while i < v.len()
        invariant
            i <= v@.len(),
            out@.len() == i,
            forall|j: int| 0 <= j < i ==> #[trigger] out@[j]@ == v@[j]@,
        decreases v@.len() - i,
    {
        out.push(v[i].duplicate());
        i = i + 1;
    }
    assert(type_views(out@) =~= type_views(v@));
    out
}

/// Derives the definition of a GraphQL interface from a struct.
///
/// The struct-level options are resolved first, then every field is
/// processed and the retained ones are checked as a whole. Diagnostics are
/// collected through both stages; if any was raised, all of them are
/// returned and no definition is built. Otherwise the context type and the
/// identifiers of the implementors' type are resolved.
pub fn expand(ast: &SourceStruct) -> (r: Result<InterfaceDefinition, Vec<Diagnostic>>)
    ensures
        outcome_view(r) == derive_spec(*ast),
{
    let mut diags: Vec<Diagnostic> = Vec::new();
    if ast.kind != ItemKind::Struct {
        record(&mut diags, diagnostic(ErrorKind::Structure, Severity::Fatal, "can only be derived on structs", ast.span));
        assert(diag_views(diags@) =~= seq![diag_spec(ErrorKind::Structure, Severity::Fatal, msg_not_struct(), ast.span)]);
        return Err(diags);
    }
    let attr = match &ast.attrs {
        Ok(a) => a,
        Err(e) => {
            record(
                &mut diags,
                Diagnostic {
                    kind: ErrorKind::Option,
                    severity: Severity::Fatal,
                    message: e.message.clone(),
                    span: e.span,
                },
            );
            assert(diag_views(diags@) =~= seq![struct_option_error(*e)]);
            return Err(diags);
        },
    };
    let name = resolve_name(&ast.ident, attr, &mut diags);
    let scalar = parse_scalar(&attr.scalar, &ast.generics);
    let renaming = match attr.rename_fields {
        Some(r) => r,
        None => RenameRule::CamelCase,
    };
    let fields = extract_fields(&ast.fields, renaming, &mut diags);
    check_fields(&fields, ast.span, &mut diags);
    assert(diag_views(diags@) =~= diagnostics_spec(*ast, *attr));
    if diags.len() > 0 {
        return Err(diags);
    }
    let context = resolve_context(&attr.context, &fields);
    let (enum_ident, enum_alias_ident) = synthesize_names(&ast.ident, &attr.enum_name);
    let def = InterfaceDefinition {
        generics: ast.generics.duplicate(),
        vis: ast.vis.duplicate(),
        enum_ident,
        enum_alias_ident,
        name,
        description: copy_opt_str(&attr.description),
        context,
        scalar,
        fields,
        implemented_for: copy_types(&attr.implemented_for),
    };
    assert(def@ == definition_spec(*ast, *attr, extract_spec(ast.fields@, rule_spec(*attr)).0));
    Ok(def)
}

} // verus!
