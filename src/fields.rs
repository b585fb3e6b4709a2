use vstd::prelude::*;
use vstd::string::*;

use crate::defs::{
    diag_spec, diag_views, diagnostic, field_views, msg_duplicate, msg_no_fields, msg_reserved,
    msg_unnamed_field, record, AttrError, DiagModel, Diagnostic, ErrorKind, FieldAttrs,
    FieldDefinition, FieldModel, Severity, SourceField,
};
use crate::model::{anonymized_spec, copy_opt_str, opt_str, Ident, Span};
use crate::names::{has_reserved_prefix, reserved_spec, unraw, unraw_spec};
use crate::rename::{rename_spec, RenameRule};

verus! {

/// The exposed name of a field: its explicit name if it has one, else the
/// renaming rule applied to its de-escaped identifier.
pub open spec fn field_name_spec(id: Ident, a: FieldAttrs, rule: RenameRule) -> Seq<char> {
    match a.name {
        Some(n) => n.value@,
        None => rename_spec(rule, unraw_spec(id.name@)),
    }
}

/// Where a naming error of a field is anchored: at its explicit name if it
/// has one, else at its identifier.
pub open spec fn field_anchor(id: Ident, a: FieldAttrs) -> Span {
    match a.name {
        Some(n) => n.span,
        None => id.span,
    }
}

/// The diagnostic for a failed option bundle of a field.
pub open spec fn field_option_diag(e: AttrError) -> DiagModel {
    diag_spec(ErrorKind::Option, Severity::Recoverable, e.message@, e.span)
}

/// The definition derived from a retained field.
pub open spec fn field_model(f: SourceField, id: Ident, a: FieldAttrs, rule: RenameRule) -> FieldModel {
    FieldModel {
        name: field_name_spec(id, a, rule),
        ident: id@,
        ty: anonymized_spec(f.ty@),
        description: opt_str(a.description),
        deprecated: opt_str(a.deprecated),
        arguments: None,
        has_receiver: false,
        is_async: false,
    }
}

/// What becomes of one source field: the definition it gives, if it is
/// retained, and the diagnostics it raises.
pub open spec fn field_outcome(f: SourceField, rule: RenameRule) -> (Option<FieldModel>, Seq<DiagModel>) {
    match f.ident {
        None => (
            None,
            seq![diag_spec(ErrorKind::Structure, Severity::Fatal, msg_unnamed_field(), f.span)],
        ),
        Some(id) => match f.attrs {
            Err(e) => (None, seq![field_option_diag(e)]),
            Ok(a) => if a.ignore {
                (None, Seq::empty())
            } else if reserved_spec(field_name_spec(id, a, rule)) {
                (
                    None,
                    seq![
                        diag_spec(
                            ErrorKind::Naming,
                            Severity::Recoverable,
                            msg_reserved(),
                            field_anchor(id, a),
                        ),
                    ],
                )
            } else {
                (Some(field_model(f, id, a, rule)), Seq::empty())
            },
        },
    }
}

/// The retained definitions and the diagnostics of a sequence of fields,
/// processed in order.
pub open spec fn extract_spec(fs: Seq<SourceField>, rule: RenameRule) -> (Seq<FieldModel>, Seq<DiagModel>)
    decreases fs.len(),
{
    if fs.len() == 0 {
        (Seq::empty(), Seq::empty())
    } else {
        let (kept, ds) = extract_spec(fs.drop_last(), rule);
        let (o, d) = field_outcome(fs.last(), rule);
        (
            match o {
                Some(m) => kept.push(m),
                None => kept,
            },
            ds + d,
        )
    }
}

/// Whether the exposed names of the fields are pairwise distinct.
pub open spec fn names_distinct(fs: Seq<FieldModel>) -> bool {
    forall|i: int, j: int| 0 <= i < j < fs.len() ==> fs[i].name != fs[j].name
}

/// The diagnostics of the checks made on the retained fields as a whole.
pub open spec fn post_diags(fs: Seq<FieldModel>, span: Span) -> Seq<DiagModel> {
    if fs.len() == 0 {
        seq![diag_spec(ErrorKind::EmptyInterface, Severity::Fatal, msg_no_fields(), span)]
    } else if !names_distinct(fs) {
        seq![diag_spec(ErrorKind::Naming, Severity::Fatal, msg_duplicate(), span)]
    } else {
        Seq::empty()
    }
}

/// Records that a field has no identifier.
fn err_unnamed_field(span: Span, diags: &mut Vec<Diagnostic>)
    ensures
        diag_views(final(diags)@) == diag_views(old(diags)@).push(
            diag_spec(ErrorKind::Structure, Severity::Fatal, msg_unnamed_field(), span),
        ),
{
    record(diags, diagnostic(ErrorKind::Structure, Severity::Fatal, "expected named struct field", span));
}

/// Derives the definition of one field, or drops it. Every diagnostic
/// raised on the way is appended to `diags`.
pub fn parse_field(field: &SourceField, renaming: RenameRule, diags: &mut Vec<Diagnostic>) -> (r:
    Option<FieldDefinition>)
    ensures
        ({
            let (o, d) = field_outcome(*field, renaming);
            &&& diag_views(final(diags)@) == diag_views(old(diags)@) + d
            &&& match r {
                Some(fd) => o == Some(fd@),
                None => o is None,
            }
        }),
{
    let id = match &field.ident {
        Some(id) => id,
        None => {
            err_unnamed_field(field.span, diags);
            return None;
        },
    };
    let attr = match &field.attrs {
        Ok(a) => a,
        Err(e) => {
            record(
                diags,
                Diagnostic {
                    kind: ErrorKind::Option,
                    severity: Severity::Recoverable,
                    message: e.message.clone(),
                    span: e.span,
                },
            );
            return None;
        },
    };
    if attr.ignore {
        assert(diag_views(diags@) =~= diag_views(old(diags)@) + Seq::<DiagModel>::empty());
        return None;
    }
    let name = match &attr.name {
        Some(n) => n.value.clone(),
        None => {
            let bare = unraw(id.name.as_str());
            renaming.apply(bare.as_str())
        },
    };
    if has_reserved_prefix(name.as_str()) {
        let anchor = match &attr.name {
            Some(n) => n.span,
            None => id.span,
        };
        record(diags, diagnostic(ErrorKind::Naming, Severity::Recoverable, "must not have a name which begins with `__` (two underscores), as this is used exclusively by the introspection system", anchor));
        return None;
    }
    assert(diag_views(diags@) =~= diag_views(old(diags)@) + Seq::<DiagModel>::empty());
    let ty = field.ty.lifetimes_anonymized();
    Some(
        FieldDefinition {
            name,
            ident: id.duplicate(),
            ty,
            description: copy_opt_str(&attr.description),
            deprecated: copy_opt_str(&attr.deprecated),
            arguments: None,
            has_receiver: false,
            is_async: false,
        },
    )
}

/// Derives the definitions of all fields, in declaration order, appending
/// the diagnostics of every field to `diags`.
pub fn extract_fields(fields: &Vec<SourceField>, renaming: RenameRule, diags: &mut Vec<Diagnostic>) -> (r:
    Vec<FieldDefinition>)
    ensures
        ({
            let (kept, d) = extract_spec(fields@, renaming);
            &&& field_views(r@) == kept
            &&& diag_views(final(diags)@) == diag_views(old(diags)@) + d
        }),
{
    let mut out: Vec<FieldDefinition> = Vec::new();
    let mut i: usize = 0;
    while i < fields.len()
        invariant
            i <= fields@.len(),
            ({
                let (kept, d) = extract_spec(fields@.take(i as int), renaming);
                &&& field_views(out@) == kept
                &&& diag_views(diags@) == diag_views(old(diags)@) + d
            }),
        decreases fields@.len() - i,
    {
        let ghost before_out = out@;
        let ghost before_diags = diags@;
        assert(fields@.take(i + 1).drop_last() =~= fields@.take(i as int));
        assert(fields@.take(i + 1).last() == fields@[i as int]);
        match parse_field(&fields[i], renaming, diags) {
            Some(fd) => {
                out.push(fd);
                assert(field_views(out@) =~= field_views(before_out).push(fd@));
            },
            None => {},
        }
        let ghost d_prev = extract_spec(fields@.take(i as int), renaming).1;
        let ghost d_new = field_outcome(fields@[i as int], renaming).1;
        assert(diag_views(diags@) =~= diag_views(old(diags)@) + (d_prev + d_new));
        i = i + 1;
    }
    assert(fields@.take(i as int) =~= fields@);
    out
}

/// Whether the exposed names of `fields` are pairwise distinct.
pub fn all_different(fields: &Vec<FieldDefinition>) -> (r: bool)
    ensures
        r == names_distinct(field_views(fields@)),
{
    let n = fields.len();
    let ghost fv = field_views(fields@);
    let mut i: usize = 0;
    while i < n
        invariant
            n == fields@.len(),
            fv == field_views(fields@),
            i <= n,
            forall|a: int, b: int| 0 <= a < i && a < b < n ==> fv[a].name != fv[b].name,
        decreases n - i,
    {
        let mut j: usize = i + 1;
        while j < n
            invariant
                n == fields@.len(),
                fv == field_views(fields@),
                i < n,
                i + 1 <= j <= n,
                forall|a: int, b: int| 0 <= a < i && a < b < n ==> fv[a].name != fv[b].name,
                forall|b: int| i < b < j ==> fv[i as int].name != fv[b].name,
            decreases n - j,
        {
            if fields[i].name == fields[j].name {
                assert(fv[i as int].name == fv[j as int].name);
                return false;
            }
            j = j + 1;
        }
        i = i + 1;
    }
    true
}

/// Runs the checks made on the retained fields as a whole: there is at
/// least one, and their names are pairwise distinct. Both are anchored at
/// the struct's location.
pub fn check_fields(fields: &Vec<FieldDefinition>, span: Span, diags: &mut Vec<Diagnostic>)
    ensures
        diag_views(final(diags)@) == diag_views(old(diags)@) + post_diags(field_views(fields@), span),
{
    if fields.len() == 0 {
        record(diags, diagnostic(ErrorKind::EmptyInterface, Severity::Fatal, "must have at least one field", span));
    } else if !all_different(fields) {
        record(diags, diagnostic(ErrorKind::Naming, Severity::Fatal, "must have a different name for each field", span));
    } else {
        assert(diag_views(diags@) =~= diag_views(old(diags)@) + Seq::<DiagModel>::empty());
    }
    assert(diag_views(diags@) =~= diag_views(old(diags)@) + post_diags(field_views(fields@), span));
}

} // verus!
