use build_util::{
    feature_env_var, m_profile_directive, m_profile_of, rerun_directive, target_board_directive,
    EnvValue, MProfile,
};
use build_util::features::hyphens_to_underscores;
use build_util::strutil::{starts_with, str_eq};

#[test]
fn thumbv6m_is_armv6m() {
    assert_eq!(m_profile_of("thumbv6m-none-eabi"), Some(MProfile::Armv6M));
}

#[test]
fn thumbv7m_and_thumbv7em_are_armv7m() {
    assert_eq!(m_profile_of("thumbv7m-none-eabi"), Some(MProfile::Armv7M));
    assert_eq!(m_profile_of("thumbv7em-none-eabihf"), Some(MProfile::Armv7M));
}

#[test]
fn thumbv8m_is_armv8m() {
    assert_eq!(m_profile_of("thumbv8m.main-none-eabihf"), Some(MProfile::Armv8M));
}

#[test]
fn unrecognized_triples_get_no_profile() {
    assert_eq!(m_profile_of("x86_64-unknown-linux-gnu"), None);
    assert_eq!(m_profile_of("thumbv5-none-eabi"), None);
    assert_eq!(m_profile_of(""), None);
    // A recognized prefix must stand at the start, not merely occur.
    assert_eq!(m_profile_of("v6m-thumbv6m"), None);
}

#[test]
fn profile_directives_are_exact() {
    assert_eq!(m_profile_directive(MProfile::Armv6M), "cargo:rustc-cfg=armv6m");
    assert_eq!(m_profile_directive(MProfile::Armv7M), "cargo:rustc-cfg=armv7m");
    assert_eq!(m_profile_directive(MProfile::Armv8M), "cargo:rustc-cfg=armv8m");
}

#[test]
fn board_directive_quotes_the_board() {
    let v = EnvValue::Present(String::from("gemini-bu-1"));
    assert_eq!(
        target_board_directive(&v),
        Some(String::from("cargo:rustc-cfg=target_board=\"gemini-bu-1\""))
    );
}

#[test]
fn board_directive_absent_emits_nothing() {
    assert_eq!(target_board_directive(&EnvValue::Absent), None);
    assert_eq!(target_board_directive(&EnvValue::NotUnicode), None);
}

#[test]
fn feature_var_uppercases_and_replaces_hyphens() {
    assert_eq!(feature_env_var("my-feature"), "CARGO_FEATURE_MY_FEATURE");
    assert_eq!(feature_env_var("itm"), "CARGO_FEATURE_ITM");
    assert_eq!(feature_env_var("h753"), "CARGO_FEATURE_H753");
}

#[test]
fn feature_lookup_is_case_and_hyphen_insensitive() {
    assert_eq!(feature_env_var("my-feature"), feature_env_var("MY_FEATURE"));
    assert_eq!(feature_env_var("My-Feature"), feature_env_var("my_feature"));
}

#[test]
fn feature_var_uppercases_beyond_ascii() {
    // The uppercasing is the full Unicode mapping, so a name holding
    // e-acute resolves to the same variable as its uppercase form.
    assert_eq!(feature_env_var("caf\u{e9}"), "CARGO_FEATURE_CAF\u{c9}");
    assert_eq!(feature_env_var("caf\u{e9}"), feature_env_var("CAF\u{c9}"));
}

#[test]
fn hyphens_become_underscores() {
    assert_eq!(hyphens_to_underscores("a-b_c-"), "a_b_c_");
    assert_eq!(hyphens_to_underscores(""), "");
}

#[test]
fn rerun_directive_is_exact() {
    assert_eq!(rerun_directive("HUBRIS_TASKS"), "cargo:rerun-if-env-changed=HUBRIS_TASKS");
}

#[test]
fn starts_with_checks_prefixes() {
    assert!(starts_with("thumbv7em-none-eabihf", "thumbv7em"));
    assert!(!starts_with("thumbv7em-none-eabihf", "thumbv8m"));
    assert!(starts_with("abc", ""));
    assert!(!starts_with("ab", "abc"));
}

#[test]
fn str_eq_compares_contents() {
    assert!(str_eq("abc", "abc"));
    assert!(!str_eq("abc", "abd"));
    assert!(!str_eq("abc", "ab"));
}
