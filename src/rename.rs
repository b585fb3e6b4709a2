use vstd::prelude::*;
use vstd::string::*;

use crate::names::reserved_spec;

verus! {

/// What `char::to_uppercase` yields for one character.
pub uninterp spec fn upper_of(c: char) -> Seq<char>;

/// Relies on `char::to_uppercase`: the upper-case mapping of a character,
/// which depends on that character alone.
#[verifier::external_body]
fn char_to_upper(c: char) -> (r: String)
    ensures
        r@ == upper_of(c),
{
    c.to_uppercase().collect()
}

/// A policy mapping a declared identifier to its exposed name.
#[derive(Clone, Copy, Debug, PartialEq, Eq, Structural)]
pub enum RenameRule {
    /// The identifier is exposed as it is.
    Identity,
    /// Underscore-separated words are joined, each word but the first
    /// starting with an upper-case letter.
    CamelCase,
}

/// Camel-casing of `s`: every `_` is dropped, and the character that
/// follows a run of `_` (when `cap` holds, also the first one) is
/// upper-cased.
pub open spec fn camel_tail(s: Seq<char>, cap: bool) -> Seq<char>
    decreases s.len(),
{
    if s.len() == 0 {
        Seq::empty()
    } else if s[0] == '_' {
        camel_tail(s.skip(1), true)
    } else {
        (if cap {
            upper_of(s[0])
        } else {
            seq![s[0]]
        }) + camel_tail(s.skip(1), false)
    }
}

/// The camel-case form of an identifier. A leading `__` is kept as it is,
/// so that reserved names stay reserved; a single leading `_` is dropped.
pub open spec fn camel_case_spec(s: Seq<char>) -> Seq<char> {
    if reserved_spec(s) {
        seq!['_', '_'] + camel_tail(s.skip(2), false)
    } else if s.len() > 0 && s[0] == '_' {
        camel_tail(s.skip(1), false)
    } else {
        camel_tail(s, false)
    }
}

/// The exposed name that `rule` gives to the identifier `s`.
pub open spec fn rename_spec(rule: RenameRule, s: Seq<char>) -> Seq<char> {
    match rule {
        RenameRule::Identity => s,
        RenameRule::CamelCase => camel_case_spec(s),
    }
}

/// Appends the camel-case form of `s[start..]` to `out`, the first
/// character being upper-cased when it follows no `_`.
fn push_camel_tail(out: &mut String, s: &str, start: usize)
    requires
        start <= s@.len(),
    ensures
        final(out)@ == old(out)@ + camel_tail(s@.skip(start as int), false),
{
    let n = s.unicode_len();
    let mut i: usize = start;
    let mut cap = false;
    while i < n
        invariant
            start <= i <= n,
            n == s@.len(),
            old(out)@ + camel_tail(s@.skip(start as int), false) == out@ + camel_tail(
                s@.skip(i as int),
                cap,
            ),
        decreases n - i,
    {
        let c = s.get_char(i);
        let ghost rest = s@.skip(i as int);
        assert(rest.skip(1) =~= s@.skip(i + 1));
        assert(rest[0] == c);
        if c == '_' {
            cap = true;
        } else {
            let ghost before = out@;
            if cap {
                let u = char_to_upper(c);
                out.append(u.as_str());
            } else {
                out.append(s.substring_char(i, i + 1));
            }
            assert(out@ + camel_tail(s@.skip(i + 1), false) =~= before + camel_tail(rest, cap));
            cap = false;
        }
        i = i + 1;
    }
    assert(s@.skip(i as int) =~= Seq::<char>::empty());
    assert(out@ + camel_tail(s@.skip(i as int), cap) =~= out@);
}

impl RenameRule {
    /// Applies this policy to a (de-escaped) identifier.
    pub fn apply(&self, field: &str) -> (r: String)
        ensures
            r@ == rename_spec(*self, field@),
    {
        match self {
            RenameRule::Identity => String::from_str(field),
            RenameRule::CamelCase => {
                let n = field.unicode_len();
                let mut out = String::new();
                if n >= 2 && field.get_char(0) == '_' && field.get_char(1) == '_' {
                    out.append("__");
                    proof {
                        reveal_strlit("__");
                        assert(out@ =~= seq!['_', '_']);
                    }
                    push_camel_tail(&mut out, field, 2);
                } else if n >= 1 && field.get_char(0) == '_' {
                    push_camel_tail(&mut out, field, 1);
                } else {
                    push_camel_tail(&mut out, field, 0);
                    assert(field@.skip(0) =~= field@);
                }
                assert(out@ =~= rename_spec(*self, field@));
                out
            }
        }
    }
}

} // verus!
