//! Target-triple introspection: classifying the ARM M-profile family of
//! the target and exposing the board name as a configuration flag.

use vstd::prelude::*;
use vstd::string::*;
use crate::strutil::starts_with;
use crate::EnvValue;

verus! {

/// The three recognized ARM microcontroller profile families.
#[derive(Clone, Copy, PartialEq, Eq, Structural, Debug)]
pub enum MProfile {
    Armv6M,
    Armv7M,
    Armv8M,
}

/// Which profile family a target triple belongs to, decided by its
/// prefix; `None` for every unrecognized triple.
pub open spec fn spec_m_profile(t: Seq<char>) -> Option<MProfile> {
    if "thumbv6m"@.is_prefix_of(t) {
        Some(MProfile::Armv6M)
    } else if "thumbv7m"@.is_prefix_of(t) || "thumbv7em"@.is_prefix_of(t) {
        Some(MProfile::Armv7M)
    } else if "thumbv8m"@.is_prefix_of(t) {
        Some(MProfile::Armv8M)
    } else {
        None
    }
}

/// Classifies a target triple into its M-profile family, or `None`
/// for an unrecognized triple.  A caller that must not proceed on an
/// unknown target treats `None` as fatal.
pub fn m_profile_of(target: &str) -> (r: Option<MProfile>)
    ensures
        r == spec_m_profile(target@),
{
    if starts_with(target, "thumbv6m") {
        Some(MProfile::Armv6M)
    } else if starts_with(target, "thumbv7m") || starts_with(target, "thumbv7em") {
        Some(MProfile::Armv7M)
    } else if starts_with(target, "thumbv8m") {
        Some(MProfile::Armv8M)
    } else {
        None
    }
}

/// The configuration flag emitted for each profile family.
pub fn m_profile_directive(p: MProfile) -> (r: &'static str)
    ensures
        p == MProfile::Armv6M ==> r@ == "cargo:rustc-cfg=armv6m"@,
        p == MProfile::Armv7M ==> r@ == "cargo:rustc-cfg=armv7m"@,
        p == MProfile::Armv8M ==> r@ == "cargo:rustc-cfg=armv8m"@,
{
    match p {
        MProfile::Armv6M => "cargo:rustc-cfg=armv6m",
        MProfile::Armv7M => "cargo:rustc-cfg=armv7m",
        MProfile::Armv8M => "cargo:rustc-cfg=armv8m",
    }
}

/// The recognized prefixes are mutually exclusive, so every triple is
/// assigned at most one profile family, and each family is assigned
/// exactly to the triples carrying one of its prefixes: no other
/// triple receives a flag.
pub proof fn lemma_m_profile_cases(t: Seq<char>)
    ensures
        spec_m_profile(t) == Some(MProfile::Armv6M) <==> "thumbv6m"@.is_prefix_of(t),
        spec_m_profile(t) == Some(MProfile::Armv7M) <==> ("thumbv7m"@.is_prefix_of(t)
            || "thumbv7em"@.is_prefix_of(t)),
        spec_m_profile(t) == Some(MProfile::Armv8M) <==> "thumbv8m"@.is_prefix_of(t),
        spec_m_profile(t) is None <==> (!"thumbv6m"@.is_prefix_of(t)
            && !"thumbv7m"@.is_prefix_of(t) && !"thumbv7em"@.is_prefix_of(t)
            && !"thumbv8m"@.is_prefix_of(t)),
{
    reveal_strlit("thumbv6m");
    reveal_strlit("thumbv7m");
    reveal_strlit("thumbv7em");
    reveal_strlit("thumbv8m");
    if "thumbv6m"@.is_prefix_of(t) {
        lemma_prefix_index("thumbv6m"@, t, 6);
        assert(t[6] == '6');
    }
    if "thumbv7m"@.is_prefix_of(t) {
        lemma_prefix_index("thumbv7m"@, t, 6);
        assert(t[6] == '7');
    }
    if "thumbv7em"@.is_prefix_of(t) {
        lemma_prefix_index("thumbv7em"@, t, 6);
        assert(t[6] == '7');
    }
    if "thumbv8m"@.is_prefix_of(t) {
        lemma_prefix_index("thumbv8m"@, t, 6);
        assert(t[6] == '8');
    }
}

/// A prefix agrees with the whole sequence at every position it covers.
proof fn lemma_prefix_index(p: Seq<char>, t: Seq<char>, i: int)
    requires
        p.is_prefix_of(t),
        0 <= i < p.len(),
    ensures
        t[i] == p[i],
{
    assert(p =~= t.subrange(0, p.len() as int));
    assert(t.subrange(0, p.len() as int)[i] == t[i]);
}

/// The configuration flag naming the target board, when a board is
/// given: the flag carries the board name as a quoted string.  An
/// absent or non-UTF-8 board variable emits nothing.
pub fn target_board_directive(board: &EnvValue) -> (r: Option<String>)
    ensures
        match board {
            EnvValue::Present(b) => r matches Some(s) && s@ == "cargo:rustc-cfg=target_board=\""@
                + b@ + "\""@,
            _ => r is None,
        },
{
    match board {
        EnvValue::Present(b) => {
            let mut s = String::new();
            s.append("cargo:rustc-cfg=target_board=\"");
            s.append(b.as_str());
            s.append("\"");
            Some(s)
        },
        _ => None,
    }
}

} // verus!
