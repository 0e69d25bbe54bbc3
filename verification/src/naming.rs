//! The identifier naming-convention transforms.
//!
//! A PascalCase or camelCase identifier is split at word boundaries and
//! rendered either as lower snake case (for table names; no pluralization)
//! or as upper snake case (for the name of the generated schema value).

use vstd::prelude::*;

verus! {

/// An ASCII capital letter.
pub open spec fn is_upper(c: char) -> bool {
    'A' <= c && c <= 'Z'
}

/// An ASCII small letter.
pub open spec fn is_lower(c: char) -> bool {
    'a' <= c && c <= 'z'
}

/// An ASCII decimal digit.
pub open spec fn is_digit(c: char) -> bool {
    '0' <= c && c <= '9'
}

/// The lower-case form of an ASCII letter; any other character is unchanged.
pub open spec fn to_lower(c: char) -> char {
    if is_upper(c) {
        (((c as u8) + 32) as char)
    } else {
        c
    }
}

/// The upper-case form of an ASCII letter; any other character is unchanged.
pub open spec fn to_upper(c: char) -> char {
    if is_lower(c) {
        (((c as u8) - 32) as char)
    } else {
        c
    }
}

/// Position `i` of identifier `s` starts a new word: it is a capital letter
/// that follows a small letter or a digit, or the last capital of an acronym
/// directly followed by a small letter.
pub open spec fn word_boundary(s: Seq<char>, i: int) -> bool {
    &&& 0 < i < s.len()
    &&& is_upper(s[i])
    &&& {
        ||| is_lower(s[i - 1])
        ||| is_digit(s[i - 1])
        ||| (is_upper(s[i - 1]) && i + 1 < s.len() && is_lower(s[i + 1]))
    }
}

/// What position `i` contributes to the converted identifier: an underscore
/// at each word boundary, then the character in the requested case.
pub open spec fn case_piece(s: Seq<char>, i: int, upper: bool) -> Seq<char> {
    let c = if upper { to_upper(s[i]) } else { to_lower(s[i]) };
    if word_boundary(s, i) {
        seq!['_', c]
    } else {
        seq![c]
    }
}

/// The conversion of the first `n` characters of `s`.
pub open spec fn case_prefix(s: Seq<char>, n: int, upper: bool) -> Seq<char>
    decreases n,
{
    if n <= 0 {
        Seq::empty()
    } else {
        case_prefix(s, n - 1, upper) + case_piece(s, n - 1, upper)
    }
}

/// The table-case form of an identifier: lower snake case, an underscore at
/// each word boundary, no pluralization.
pub open spec fn spec_table_case(s: Seq<char>) -> Seq<char> {
    case_prefix(s, s.len() as int, false)
}

/// The screaming-snake-case form of an identifier: upper snake case, an
/// underscore at each word boundary.
pub open spec fn spec_screaming_snake_case(s: Seq<char>) -> Seq<char> {
    case_prefix(s, s.len() as int, true)
}

/// Relies on String::push: appends exactly one character at the end of the
/// string, leaving the earlier characters as they were.
#[verifier::external_body]
fn push_char(s: &mut String, c: char)
    ensures
        final(s)@ == old(s)@.push(c),
{
    s.push(c);
}

/// Converts one character to the requested case.
fn convert_char(c: char, upper: bool) -> (r: char)
    ensures
        r == if upper { to_upper(c) } else { to_lower(c) },
{
    if upper {
        if 'a' <= c && c <= 'z' {
            ((c as u8) - 32) as char
        } else {
            c
        }
    } else {
        if 'A' <= c && c <= 'Z' {
            ((c as u8) + 32) as char
        } else {
            c
        }
    }
}

/// Converts a whole identifier, inserting an underscore at each word boundary.
fn convert_case(s: &str, upper: bool) -> (r: String)
    ensures
        r@ == case_prefix(s@, s@.len() as int, upper),
{
    let n = s.unicode_len();
    let mut out = String::new();
    let mut i: usize = 0;
    while i < n
        invariant
            n == s@.len(),
            i <= n,
            out@ == case_prefix(s@, i as int, upper),
        decreases n - i,
    {
        let c = s.get_char(i);
        let boundary: bool = if i > 0 && 'A' <= c && c <= 'Z' {
            let p = s.get_char(i - 1);
            if ('a' <= p && p <= 'z') || ('0' <= p && p <= '9') {
                true
            } else if ('A' <= p && p <= 'Z') && i + 1 < n {
                let nx = s.get_char(i + 1);
                'a' <= nx && nx <= 'z'
            } else {
                false
            }
        } else {
            false
        };
        proof {
            assert(boundary == word_boundary(s@, i as int));
        }
        if boundary {
            push_char(&mut out, '_');
        }
        push_char(&mut out, convert_char(c, upper));
        proof {
            assert(out@ =~= case_prefix(s@, i as int + 1, upper));
        }
        i = i + 1;
    }
    out
}

/// The table name derived from a type identifier: a pure function of the
/// identifier text alone.
pub fn table_case(ident: &str) -> (r: String)
    ensures
        r@ == spec_table_case(ident@),
{
    convert_case(ident, false)
}

/// The upper snake-case form of a type identifier, used to name the
/// generated schema value.
pub fn screaming_snake_case(ident: &str) -> (r: String)
    ensures
        r@ == spec_screaming_snake_case(ident@),
{
    convert_case(ident, true)
}

/// Table-name determinism: the identifier-to-table-name transform is a pure
/// function of the identifier text, so equal identifiers always yield equal
/// table names.
pub proof fn lemma_table_case_deterministic(a: Seq<char>, b: Seq<char>)
    requires
        a == b,
    ensures
        spec_table_case(a) == spec_table_case(b),
{
}

/// Compares two string slices character by character.
pub fn str_eq(a: &str, b: &str) -> (r: bool)
    ensures
        r == (a@ == b@),
{
    let alen = a.unicode_len();
    let blen = b.unicode_len();
    if alen != blen {
        proof {
            assert(a@.len() != b@.len());
        }
        return false;
    }
    let mut i: usize = 0;
    while i < alen
        invariant
            alen == a@.len(),
            blen == b@.len(),
            alen == blen,
            i <= alen,
            forall|j: int| 0 <= j < i ==> a@[j] == b@[j],
        decreases alen - i,
    {
        let ca = a.get_char(i);
        let cb = b.get_char(i);
        if ca != cb {
            proof {
                assert(a@[i as int] != b@[i as int]);
            }
            return false;
        }
        i = i + 1;
    }
    proof {
        assert(a@ =~= b@);
    }
    true
}

} // verus!
