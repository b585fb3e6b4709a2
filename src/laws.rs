use vstd::prelude::*;

use crate::defs::{
    diag_spec, msg_duplicate, msg_no_fields, msg_reserved, DiagModel, ErrorKind, InterfaceDefinition,
    Diagnostic, ItemKind, Severity, SourceField, SourceStruct,
};
use crate::derive::{
    derive_spec, diagnostics_spec, outcome_view, rule_spec, struct_name_spec, struct_option_diags,
};
use crate::fields::{extract_spec, field_name_spec, field_outcome, names_distinct, post_diags};
use crate::names::{reserved_spec, unraw_spec};
use crate::rename::{camel_case_spec, rename_spec, RenameRule};

verus! {

/// A struct none of whose fields is retained fails, and its last
/// diagnostic is the empty-interface error anchored at the struct, whatever
/// diagnostics its other options and fields raised before.
pub proof fn law_no_retained_fields(s: SourceStruct)
    requires
        s.kind == ItemKind::Struct,
        s.attrs is Ok,
        extract_spec(s.fields@, rule_spec(s.attrs->Ok_0)).0.len() == 0,
    ensures
        derive_spec(s) is Err,
        derive_spec(s)->Err_0.last() == diag_spec(
            ErrorKind::EmptyInterface,
            Severity::Fatal,
            msg_no_fields(),
            s.span,
        ),
{
    let a = s.attrs->Ok_0;
    let d = diagnostics_spec(s, a);
    assert(d.len() > 0);
    assert(d.last() == post_diags(extract_spec(s.fields@, rule_spec(a)).0, s.span)[0]);
}

/// A struct two of whose retained fields have the same exposed name fails,
/// and its last diagnostic is a naming error anchored at the struct itself.
pub proof fn law_duplicate_names(s: SourceStruct, i: int, j: int)
    requires
        s.kind == ItemKind::Struct,
        s.attrs is Ok,
        0 <= i < j < extract_spec(s.fields@, rule_spec(s.attrs->Ok_0)).0.len(),
        extract_spec(s.fields@, rule_spec(s.attrs->Ok_0)).0[i].name == extract_spec(
            s.fields@,
            rule_spec(s.attrs->Ok_0),
        ).0[j].name,
    ensures
        derive_spec(s) is Err,
        derive_spec(s)->Err_0.last() == diag_spec(
            ErrorKind::Naming,
            Severity::Fatal,
            msg_duplicate(),
            s.span,
        ),
{
    let a = s.attrs->Ok_0;
    let d = diagnostics_spec(s, a);
    assert(d.len() > 0);
    assert(d.last() == post_diags(extract_spec(s.fields@, rule_spec(a)).0, s.span)[0]);
}

/// Every diagnostic that a field raises is among those of the whole
/// sequence of fields.
proof fn lemma_extract_keeps_diags(fs: Seq<SourceField>, rule: RenameRule, k: int, m: int)
    requires
        0 <= k < fs.len(),
        0 <= m < field_outcome(fs[k], rule).1.len(),
    ensures
        extract_spec(fs, rule).1.contains(field_outcome(fs[k], rule).1[m]),
    decreases fs.len(),
{
    let x = field_outcome(fs[k], rule).1[m];
    let ds = extract_spec(fs.drop_last(), rule).1;
    let d = field_outcome(fs.last(), rule).1;
    if k == fs.len() - 1 {
        assert((ds + d)[ds.len() + m] == x);
    } else {
        assert(fs.drop_last()[k] == fs[k]);
        lemma_extract_keeps_diags(fs.drop_last(), rule, k, m);
        let w = choose|w: int| 0 <= w < ds.len() && ds[w] == x;
        assert((ds + d)[w] == x);
    }
}

/// A field named with the reserved prefix and given no explicit name keeps
/// that prefix under every renaming rule.
pub proof fn lemma_reserved_ident_stays_reserved(name: Seq<char>, rule: RenameRule)
    requires
        reserved_spec(name),
    ensures
        reserved_spec(rename_spec(rule, unraw_spec(name))),
{
    assert(unraw_spec(name) == name);
    let c = camel_case_spec(name);
    assert(c[0] == '_' && c[1] == '_');
}

/// A field whose identifier begins with the reserved prefix, and which is
/// neither renamed explicitly nor ignored, is dropped with a naming error
/// anchored at its identifier, and the derivation fails. This holds of
/// internal interfaces too: their status exempts no field.
pub proof fn law_reserved_field_name(s: SourceStruct, k: int)
    requires
        s.kind == ItemKind::Struct,
        s.attrs is Ok,
        0 <= k < s.fields@.len(),
        s.fields@[k].ident is Some,
        s.fields@[k].attrs is Ok,
        !s.fields@[k].attrs->Ok_0.ignore,
        s.fields@[k].attrs->Ok_0.name is None,
        reserved_spec(s.fields@[k].ident->Some_0.name@),
    ensures
        field_outcome(s.fields@[k], rule_spec(s.attrs->Ok_0)).0 is None,
        derive_spec(s) is Err,
        derive_spec(s)->Err_0.contains(
            diag_spec(
                ErrorKind::Naming,
                Severity::Recoverable,
                msg_reserved(),
                s.fields@[k].ident->Some_0.span,
            ),
        ),
{
    let a = s.attrs->Ok_0;
    let rule = rule_spec(a);
    let f = s.fields@[k];
    let id = f.ident->Some_0;
    lemma_reserved_ident_stays_reserved(id.name@, rule);
    assert(field_name_spec(id, f.attrs->Ok_0, rule) == rename_spec(rule, unraw_spec(id.name@)));
    let x = diag_spec(ErrorKind::Naming, Severity::Recoverable, msg_reserved(), id.span);
    assert(field_outcome(f, rule).1 == seq![x]);
    lemma_extract_keeps_diags(s.fields@, rule, k, 0);
    let d1 = struct_option_diags(s.ident, a);
    let d2 = extract_spec(s.fields@, rule).1;
    let d3 = post_diags(extract_spec(s.fields@, rule).0, s.span);
    let w = choose|w: int| 0 <= w < d2.len() && d2[w] == x;
    assert((d1 + d2 + d3)[d1.len() + w] == x);
}

/// A non-internal interface whose exposed name begins with the reserved
/// prefix fails, and its first diagnostic is the naming error.
pub proof fn law_reserved_struct_name(s: SourceStruct)
    requires
        s.kind == ItemKind::Struct,
        s.attrs is Ok,
        !s.attrs->Ok_0.is_internal,
        reserved_spec(struct_name_spec(s.ident, s.attrs->Ok_0)),
    ensures
        derive_spec(s) is Err,
        derive_spec(s)->Err_0[0] == diag_spec(
            ErrorKind::Naming,
            Severity::Recoverable,
            msg_reserved(),
            match s.attrs->Ok_0.name {
                Some(n) => n.span,
                None => s.ident.span,
            },
        ),
{
    let a = s.attrs->Ok_0;
    let rule = rule_spec(a);
    let d1 = struct_option_diags(s.ident, a);
    let d2 = extract_spec(s.fields@, rule).1;
    let d3 = post_diags(extract_spec(s.fields@, rule).0, s.span);
    assert((d1 + d2 + d3)[0] == d1[0]);
}

/// An internal interface raises no diagnostic on its name, reserved or
/// not: all its diagnostics come from its fields.
pub proof fn law_internal_struct_name(s: SourceStruct)
    requires
        s.kind == ItemKind::Struct,
        s.attrs is Ok,
        s.attrs->Ok_0.is_internal,
    ensures
        struct_option_diags(s.ident, s.attrs->Ok_0) == Seq::<DiagModel>::empty(),
        diagnostics_spec(s, s.attrs->Ok_0) == extract_spec(s.fields@, rule_spec(s.attrs->Ok_0)).1
            + post_diags(extract_spec(s.fields@, rule_spec(s.attrs->Ok_0)).0, s.span),
{
    let a = s.attrs->Ok_0;
    let rule = rule_spec(a);
    let d2 = extract_spec(s.fields@, rule).1;
    let d3 = post_diags(extract_spec(s.fields@, rule).0, s.span);
    assert(Seq::<DiagModel>::empty() + d2 + d3 =~= d2 + d3);
}

/// No retained field has a name with the reserved prefix.
proof fn lemma_kept_names_unreserved(fs: Seq<SourceField>, rule: RenameRule)
    ensures
        forall|i: int|
            0 <= i < extract_spec(fs, rule).0.len() ==> !reserved_spec(
                #[trigger] extract_spec(fs, rule).0[i].name,
            ),
    decreases fs.len(),
{
    if fs.len() > 0 {
        lemma_kept_names_unreserved(fs.drop_last(), rule);
    }
}

/// A derived definition is well formed: it has at least one field, the
/// field names are pairwise distinct and none has the reserved prefix, and
/// the interface name has that prefix only where the interface is internal.
pub proof fn law_definition_well_formed(s: SourceStruct)
    requires
        derive_spec(s) is Ok,
    ensures
        derive_spec(s)->Ok_0.fields.len() > 0,
        names_distinct(derive_spec(s)->Ok_0.fields),
        forall|i: int|
            0 <= i < derive_spec(s)->Ok_0.fields.len() ==> !reserved_spec(
                #[trigger] derive_spec(s)->Ok_0.fields[i].name,
            ),
        reserved_spec(derive_spec(s)->Ok_0.name) ==> s.attrs->Ok_0.is_internal,
{
    let a = s.attrs->Ok_0;
    let rule = rule_spec(a);
    let d1 = struct_option_diags(s.ident, a);
    let d2 = extract_spec(s.fields@, rule).1;
    let d3 = post_diags(extract_spec(s.fields@, rule).0, s.span);
    assert((d1 + d2 + d3).len() == d1.len() + d2.len() + d3.len());
    lemma_kept_names_unreserved(s.fields@, rule);
}

/// Two derivations of the same struct give the same outcome: the
/// definition, or the diagnostics, are equal.
pub proof fn law_derivation_is_repeatable(
    s: SourceStruct,
    first: Result<InterfaceDefinition, Vec<Diagnostic>>,
    second: Result<InterfaceDefinition, Vec<Diagnostic>>,
)
    requires
        outcome_view(first) == derive_spec(s),
        outcome_view(second) == derive_spec(s),
    ensures
        outcome_view(first) == outcome_view(second),
{
}

} // verus!
