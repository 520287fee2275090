//! The identifier transform: derives the stable linkage name of a control from
//! its declared mixed-case schema name. The name is split into words at three
//! boundaries — before an uppercase letter that follows a lowercase letter,
//! before an uppercase letter that an acronym ends with (one followed by a
//! lowercase letter), and after a run of digits — then lowercased and joined
//! with underscores.

use vstd::prelude::*;

use crate::strutil::string_push_char;

verus! {

pub open spec fn spec_is_uppercase(c: char) -> bool {
    'A' <= c && c <= 'Z'
}

pub open spec fn spec_is_lowercase(c: char) -> bool {
    'a' <= c && c <= 'z'
}

pub open spec fn spec_is_numeric(c: char) -> bool {
    '0' <= c && c <= '9'
}

/// An uppercase letter lowered; any other character unchanged.
pub open spec fn spec_lowered(c: char) -> char {
    if spec_is_uppercase(c) {
        ((c as u8) + 32) as char
    } else {
        c
    }
}

/// Whether a word boundary falls immediately before position `i`.
pub open spec fn spec_boundary(s: Seq<char>, i: int) -> bool
    recommends
        0 < i < s.len(),
{
    ||| (spec_is_uppercase(s[i]) && spec_is_lowercase(s[i - 1]))
    ||| (spec_is_uppercase(s[i]) && i + 1 < s.len() && spec_is_lowercase(s[i + 1]))
    ||| (!spec_is_numeric(s[i]) && spec_is_numeric(s[i - 1]))
}

/// The transform of the first `n` characters of `s`.
pub open spec fn spec_transform_prefix(s: Seq<char>, n: int) -> Seq<char>
    decreases n,
{
    if n <= 0 {
        Seq::empty()
    } else {
        spec_transform_prefix(s, n - 1) + (if n - 1 > 0 && spec_boundary(s, n - 1) {
            seq!['_']
        } else {
            Seq::empty()
        }) + seq![spec_lowered(s[n - 1])]
    }
}

/// The linkage name derived from a schema name: words split at the three
/// boundary rules, lowercased, joined with underscores. The first character
/// never receives a separator.
pub open spec fn spec_transform_identifier(s: Seq<char>) -> Seq<char> {
    spec_transform_prefix(s, s.len() as int)
}

fn is_uppercase_char(c: char) -> (r: bool)
    ensures
        r == spec_is_uppercase(c),
{
    'A' <= c && c <= 'Z'
}

fn is_lowercase_char(c: char) -> (r: bool)
    ensures
        r == spec_is_lowercase(c),
{
    'a' <= c && c <= 'z'
}

fn is_numeric_char(c: char) -> (r: bool)
    ensures
        r == spec_is_numeric(c),
{
    '0' <= c && c <= '9'
}

/// Derive the linkage name used in the native runtime's constant catalogue
/// from a control's declared name (upper-cased at the use site when a linkage
/// constant is named). Deterministic: the result is a function of the name's
/// characters alone.
pub fn to_c_type_name(name: &str) -> (r: String)
    ensures
        r@ == spec_transform_identifier(name@),
{
    let len = name.unicode_len();
    let mut out = String::new();
    let mut i: usize = 0;
    while i < len
        invariant
            len == name@.len(),
            0 <= i <= len,
            out@ == spec_transform_prefix(name@, i as int),
        decreases len - i,
    {
        let c = name.get_char(i);
        if i > 0 {
            let mut split = false;
            if is_uppercase_char(c) && is_lowercase_char(name.get_char(i - 1)) {
                split = true;
            }
            if is_uppercase_char(c) && i + 1 < len && is_lowercase_char(name.get_char(i + 1)) {
                split = true;
            }
            if !is_numeric_char(c) && is_numeric_char(name.get_char(i - 1)) {
                split = true;
            }
            if split {
                string_push_char(&mut out, '_');
            }
        }
        let lowered = if is_uppercase_char(c) {
            ((c as u8) + 32) as char
        } else {
            c
        };
        string_push_char(&mut out, lowered);
        proof {
            assert(out@ =~= spec_transform_prefix(name@, i + 1 as int));
        }
        i += 1;
    }
    out
}

/// Every character lowered, as [`spec_lowered`] does one.
pub open spec fn spec_lower_seq(s: Seq<char>) -> Seq<char> {
    s.map_values(|c: char| spec_lowered(c))
}

/// The string with every ASCII uppercase letter lowered.
pub fn to_lowercase_ascii(s: &str) -> (r: String)
    ensures
        r@ == spec_lower_seq(s@),
{
    let len = s.unicode_len();
    let mut out = String::new();
    let mut i: usize = 0;
    while i < len
        invariant
            len == s@.len(),
            0 <= i <= len,
            out@ == spec_lower_seq(s@.take(i as int)),
        decreases len - i,
    {
        let c = s.get_char(i);
        let lowered = if is_uppercase_char(c) {
            ((c as u8) + 32) as char
        } else {
            c
        };
        string_push_char(&mut out, lowered);
        proof {
            assert(out@ =~= spec_lower_seq(s@.take(i + 1 as int)));
        }
        i += 1;
    }
    proof {
        assert(s@.take(len as int) =~= s@);
    }
    out
}

/// A lowercase letter raised; any other character unchanged.
pub open spec fn spec_raised(c: char) -> char {
    if spec_is_lowercase(c) {
        ((c as u8) - 32) as char
    } else {
        c
    }
}

/// Every character raised, as [`spec_raised`] does one.
pub open spec fn spec_upper_seq(s: Seq<char>) -> Seq<char> {
    s.map_values(|c: char| spec_raised(c))
}

/// The string with every ASCII lowercase letter raised; linkage constants are
/// named with this spelling.
pub fn to_uppercase_ascii(s: &str) -> (r: String)
    ensures
        r@ == spec_upper_seq(s@),
{
    let len = s.unicode_len();
    let mut out = String::new();
    let mut i: usize = 0;
    while i < len
        invariant
            len == s@.len(),
            0 <= i <= len,
            out@ == spec_upper_seq(s@.take(i as int)),
        decreases len - i,
    {
        let c = s.get_char(i);
        let raised = if is_lowercase_char(c) {
            ((c as u8) - 32) as char
        } else {
            c
        };
        string_push_char(&mut out, raised);
        proof {
            assert(out@ =~= spec_upper_seq(s@.take(i + 1 as int)));
        }
        i += 1;
    }
    proof {
        assert(s@.take(len as int) =~= s@);
    }
    out
}

/// A boundary always falls between a digit and a following non-digit: the
/// third splitting rule holds whatever the surrounding characters are.
pub proof fn lemma_digit_boundary_splits(s: Seq<char>, i: int)
    requires
        0 < i < s.len(),
        spec_is_numeric(s[i - 1]),
        !spec_is_numeric(s[i]),
    ensures
        spec_boundary(s, i),
{
}

} // verus!
