//! Feature-flag lookup support: building the name of the environment
//! variable that backs a named optional feature.
//!
//! The enclosing build system announces an enabled feature by setting
//! a variable whose name is the feature name, uppercased and with
//! hyphens replaced by underscores, behind a fixed prefix.  The
//! uppercasing is the full Unicode mapping, done by std; the hyphen
//! replacement is verified here.  Because the normalization collapses
//! case and hyphen/underscore differences, two names that differ only
//! in those respects resolve to the same backing variable.

use vstd::prelude::*;
use vstd::string::*;
use crate::strutil::push_char;

verus! {

/// The uppercase mapping of a text, as `str::to_uppercase` computes
/// it: a function of the characters alone.
pub uninterp spec fn upper_of(s: Seq<char>) -> Seq<char>;

/// Whether every character of the text is ASCII.
pub open spec fn ascii_name(s: Seq<char>) -> bool {
    forall|i: int| 0 <= i < s.len() ==> (s[i] as u32) < 128
}

/// One ASCII character, uppercased: a lowercase letter loses the
/// case bit, every other character stands.
pub open spec fn ascii_upper_char(c: char) -> char {
    if 97 <= c as u32 && c as u32 <= 122 {
        (((c as u32) - 32) as u8) as char
    } else {
        c
    }
}

/// ASCII text, uppercased character by character.
pub open spec fn ascii_upper(s: Seq<char>) -> Seq<char> {
    Seq::new(s.len(), |i: int| ascii_upper_char(s[i]))
}

/// A hyphen becomes an underscore; every other character stands.
pub open spec fn replace_hyphen_char(c: char) -> char {
    if c == '-' {
        '_'
    } else {
        c
    }
}

/// A text with every hyphen replaced by an underscore.
pub open spec fn replace_hyphens(s: Seq<char>) -> Seq<char> {
    Seq::new(s.len(), |i: int| replace_hyphen_char(s[i]))
}

/// Relies on `str::to_uppercase`: returns the Unicode uppercase
/// mapping of the text, a function of the characters alone; on ASCII
/// text that mapping is the ASCII uppercase, character for character.
#[verifier::external_body]
fn uppercase(s: &str) -> (r: String)
    ensures
        r@ == upper_of(s@),
        ascii_name(s@) ==> r@ == ascii_upper(s@),
{
    s.to_uppercase()
}

/// Replaces every hyphen with an underscore.
pub fn hyphens_to_underscores(s: &str) -> (r: String)
    ensures
        r@ == replace_hyphens(s@),
{
    let mut out = String::new();
    let n = s.unicode_len();
    let mut i: usize = 0;
    while i < n
        invariant
            i <= n,
            n == s@.len(),
            out@ == replace_hyphens(s@.subrange(0, i as int)),
        decreases n - i,
    {
        let c = s.get_char(i);
        let d = if c == '-' {
            '_'
        } else {
            c
        };
        push_char(&mut out, d);
        proof {
            assert(replace_hyphens(s@.subrange(0, i + 1 as int)) =~= replace_hyphens(
                s@.subrange(0, i as int),
            ).push(replace_hyphen_char(s@[i as int])));
        }
        i += 1;
    }
    proof {
        assert(s@.subrange(0, n as int) =~= s@);
    }
    out
}

/// The name of the environment variable backing a named feature: the
/// fixed prefix, then the uppercased name with hyphens replaced by
/// underscores.
pub open spec fn spec_feature_var(s: Seq<char>) -> Seq<char> {
    "CARGO_FEATURE_"@ + replace_hyphens(upper_of(s))
}

/// Two feature names that resolve to the same backing variable: equal
/// length, and equal characters once ASCII case and hyphen/underscore
/// differences are collapsed.
pub open spec fn feature_equiv(a: Seq<char>, b: Seq<char>) -> bool {
    a.len() == b.len() && forall|i: int|
        0 <= i < a.len() ==> replace_hyphen_char(ascii_upper_char(a[i])) == replace_hyphen_char(
            ascii_upper_char(b[i]),
        )
}

/// Builds the name of the environment variable that backs the given
/// feature.  The caller tests that variable's presence to decide
/// whether the feature is enabled.
pub fn feature_env_var(name: &str) -> (r: String)
    ensures
        r@ == spec_feature_var(name@),
        ascii_name(name@) ==> r@ == "CARGO_FEATURE_"@ + replace_hyphens(ascii_upper(name@)),
{
    let up = uppercase(name);
    let tail = hyphens_to_underscores(up.as_str());
    let mut s = String::new();
    s.append("CARGO_FEATURE_");
    s.append(tail.as_str());
    s
}

/// Feature lookup is case-insensitive and hyphen/underscore-blind:
/// two equivalent ASCII feature names normalize to the same text, so
/// by the contract of `feature_env_var` they resolve to the same
/// backing variable.
pub proof fn lemma_feature_var_equiv(a: Seq<char>, b: Seq<char>)
    requires
        feature_equiv(a, b),
    ensures
        replace_hyphens(ascii_upper(a)) == replace_hyphens(ascii_upper(b)),
{
    assert(replace_hyphens(ascii_upper(a)) =~= replace_hyphens(ascii_upper(b)));
}

} // verus!
