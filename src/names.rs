use vstd::prelude::*;
use vstd::string::*;

verus! {

/// An identifier with any raw-identifier escaping (`r#`) removed.
pub open spec fn unraw_spec(s: Seq<char>) -> Seq<char> {
    if s.len() >= 2 && s[0] == 'r' && s[1] == '#' {
        s.skip(2)
    } else {
        s
    }
}

/// Whether a name starts with the reserved introspection prefix `__`.
pub open spec fn reserved_spec(s: Seq<char>) -> bool {
    s.len() >= 2 && s[0] == '_' && s[1] == '_'
}

/// Strips raw-identifier escaping from an identifier.
pub fn unraw(s: &str) -> (r: String)
    ensures
        r@ == unraw_spec(s@),
{
    let n = s.unicode_len();
    if n >= 2 && s.get_char(0) == 'r' && s.get_char(1) == '#' {
        String::from_str(s.substring_char(2, n))
    } else {
        String::from_str(s)
    }
}

/// Whether `s` starts with the reserved prefix `__`.
pub fn has_reserved_prefix(s: &str) -> (r: bool)
    ensures
        r == reserved_spec(s@),
{
    let n = s.unicode_len();
    n >= 2 && s.get_char(0) == '_' && s.get_char(1) == '_'
}

} // verus!
