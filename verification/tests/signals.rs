use snmalloc_rs::signals::{Environment, Signals};

fn environment(entries: &[(&str, &str)]) -> Environment {
    Environment {
        entries: entries.iter().map(|(k, v)| (k.to_string(), v.to_string())).collect(),
    }
}

#[test]
fn value_is_found_by_key() {
    let env = environment(&[("TARGET", "x86_64-unknown-linux-gnu"), ("OUT_DIR", "/tmp/out")]);
    assert_eq!(env.get("OUT_DIR"), Some("/tmp/out".to_string()));
    assert_eq!(env.get("TARGET"), Some("x86_64-unknown-linux-gnu".to_string()));
}

#[test]
fn missing_key_has_no_value() {
    let env = environment(&[("TARGET", "t")]);
    assert_eq!(env.get("OUT_DIR"), None);
    assert_eq!(env.get("target"), None);
    assert_eq!(environment(&[]).get("TARGET"), None);
}

#[test]
fn first_entry_of_a_key_wins() {
    let env = environment(&[("CC", "clang"), ("CC", "gcc")]);
    assert_eq!(env.get("CC"), Some("clang".to_string()));
}

#[test]
fn signals_are_read_from_their_keys() {
    let env = environment(&[
        ("CARGO_CFG_TARGET_OS", "linux"),
        ("CARGO_CFG_TARGET_ENV", "gnu"),
        ("CARGO_CFG_TARGET_FAMILY", "unix"),
        ("TARGET", "x86_64-unknown-linux-gnu"),
        ("OUT_DIR", "/out"),
        ("MSYSTEM", "UCRT64"),
        ("CC", "gcc"),
        ("ANDROID_NDK", "/ndk"),
        ("ANDROID_PLATFORM", "android-21"),
        ("SNMALLOC_GWP_ASAN_INCLUDE_PATH", "/gwp/include"),
        ("SNMALLOC_GWP_ASAN_LIBRARY_PATH", "/gwp/lib"),
        ("SNMALLOC_SHIM_SEARCH_PATH", "C:/msys64/ucrt64/lib"),
        ("UNRELATED", "x"),
    ]);
    let s = Signals::read(&env);
    assert_eq!(s.target_os.as_deref(), Some("linux"));
    assert_eq!(s.target_env.as_deref(), Some("gnu"));
    assert_eq!(s.target_family.as_deref(), Some("unix"));
    assert_eq!(s.target.as_deref(), Some("x86_64-unknown-linux-gnu"));
    assert_eq!(s.out_dir.as_deref(), Some("/out"));
    assert_eq!(s.msystem.as_deref(), Some("UCRT64"));
    assert_eq!(s.compiler_override.as_deref(), Some("gcc"));
    assert_eq!(s.ndk_root.as_deref(), Some("/ndk"));
    assert_eq!(s.android_platform.as_deref(), Some("android-21"));
    assert_eq!(s.gwp_asan_include.as_deref(), Some("/gwp/include"));
    assert_eq!(s.gwp_asan_library.as_deref(), Some("/gwp/lib"));
    assert_eq!(s.shim_search_path.as_deref(), Some("C:/msys64/ucrt64/lib"));
}

#[test]
fn absent_signals_are_absent() {
    let s = Signals::read(&environment(&[("TARGET", "t")]));
    assert_eq!(s.target.as_deref(), Some("t"));
    assert_eq!(s.target_os, None);
    assert_eq!(s.target_env, None);
    assert_eq!(s.target_family, None);
    assert_eq!(s.out_dir, None);
    assert_eq!(s.msystem, None);
    assert_eq!(s.compiler_override, None);
    assert_eq!(s.ndk_root, None);
    assert_eq!(s.android_platform, None);
    assert_eq!(s.gwp_asan_include, None);
    assert_eq!(s.gwp_asan_library, None);
    assert_eq!(s.shim_search_path, None);
}
