//! String helpers: character-level access, whitespace trimming, and the
//! escape-sequence processing applied to string literals.

use vstd::prelude::*;

verus! {

/// The characters of a string, as a vector.
pub fn chars_of(s: &str) -> (r: Vec<char>)
    ensures
        r@ == s@,
{
    let n = s.unicode_len();
    let mut out: Vec<char> = Vec::new();
    let mut i: usize = 0;
    while i < n
        invariant
            n == s@.len(),
            i <= n,
            out@ == s@.subrange(0, i as int),
        decreases n - i,
    {
        let c = s.get_char(i);
        out.push(c);
        proof {
            assert(out@ =~= s@.subrange(0, i + 1 as int));
        }
        i = i + 1;
    }
    proof {
        assert(out@ =~= s@);
    }
    out
}

/// Relies on `String: FromIterator<&char>`: collecting characters yields the
/// string of exactly those characters, in order.
#[verifier::external_body]
pub(crate) fn string_from_chars(v: &Vec<char>) -> (r: String)
    ensures
        r@ == v@,
{
    v.iter().collect()
}

/// The given character sequence with leading and trailing whitespace removed.
pub uninterp spec fn trim_of(s: Seq<char>) -> Seq<char>;

/// Relies on `str::trim`: the string slice with leading and trailing
/// whitespace removed, a function of the characters alone.
#[verifier::external_body]
pub(crate) fn trim_string(s: &str) -> (r: String)
    ensures
        r@ == trim_of(s@),
{
    s.trim().to_owned()
}

/// Escape-sequence processing for string literal bodies: `\n`, `\t`, `\r`,
/// `\\`, `\'`, `\"` and `\0` become the characters they name; a backslash
/// before any other character (or at the end) is kept verbatim.
pub open spec fn unescape_spec(s: Seq<char>) -> Seq<char>
    decreases s.len(),
{
    if s.len() == 0 {
        Seq::empty()
    } else if s[0] == '\\' {
        if s.len() == 1 {
            seq!['\\']
        } else {
            escape_char_spec(s[1]) + unescape_spec(s.subrange(2, s.len() as int))
        }
    } else {
        seq![s[0]] + unescape_spec(s.drop_first())
    }
}

/// What one escaped character stands for.
pub open spec fn escape_char_spec(c: char) -> Seq<char> {
    if c == 'n' {
        seq!['\n']
    } else if c == 't' {
        seq!['\t']
    } else if c == 'r' {
        seq!['\r']
    } else if c == '\\' {
        seq!['\\']
    } else if c == '\'' {
        seq!['\'']
    } else if c == '"' {
        seq!['"']
    } else if c == '0' {
        seq!['\0']
    } else {
        seq!['\\', c]
    }
}

/// Applies escape-sequence processing to a literal body.
pub fn unescape_chars(v: &Vec<char>) -> (r: Vec<char>)
    ensures
        r@ == unescape_spec(v@),
{
    let n = v.len();
    let mut out: Vec<char> = Vec::new();
    let mut i: usize = 0;
    proof {
        assert(v@.subrange(0, n as int) =~= v@);
    }
    while i < n
        invariant
            n == v@.len(),
            i <= n,
            unescape_spec(v@) == out@ + unescape_spec(v@.subrange(i as int, n as int)),
        decreases n - i,
    {
        let ghost rest = v@.subrange(i as int, n as int);
        let c = v[i];
        if c == '\\' && i + 1 < n {
            let e = v[i + 1];
            if e == 'n' {
                out.push('\n');
            } else if e == 't' {
                out.push('\t');
            } else if e == 'r' {
                out.push('\r');
            } else if e == '\\' {
                out.push('\\');
            } else if e == '\'' {
                out.push('\'');
            } else if e == '"' {
                out.push('"');
            } else if e == '0' {
                out.push('\0');
            } else {
                out.push('\\');
                out.push(e);
            }
            proof {
                assert(rest.subrange(2, rest.len() as int) =~= v@.subrange(
                    i + 2 as int,
                    n as int,
                ));
                assert(out@ + unescape_spec(v@.subrange(i + 2 as int, n as int)) =~= unescape_spec(
                    v@,
                ));
            }
            i = i + 2;
        } else {
            out.push(c);
            proof {
                if c == '\\' {
                    assert(rest.len() == 1);
                    assert(unescape_spec(rest) =~= seq!['\\']);
                    assert(v@.subrange(i + 1 as int, n as int) =~= Seq::<char>::empty());
                } else {
                    assert(rest.drop_first() =~= v@.subrange(i + 1 as int, n as int));
                }
                assert(out@ + unescape_spec(v@.subrange(i + 1 as int, n as int)) =~= unescape_spec(
                    v@,
                ));
            }
            i = i + 1;
        }
    }
    proof {
        assert(v@.subrange(n as int, n as int) =~= Seq::<char>::empty());
        assert(out@ =~= unescape_spec(v@));
    }
    out
}

} // verus!
