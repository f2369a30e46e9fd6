use snmalloc_rs::features::{FeatureSelection, FeatureSet};
use snmalloc_rs::link::{artifact_name, link_plan, LinkDirective, LinkKind};
use snmalloc_rs::platform::{Compiler, CxxStandard, PlatformDescriptor};

fn descriptor(os: &str, env: &str, family: &str, target: &str) -> PlatformDescriptor {
    PlatformDescriptor {
        target_os: os.to_string(),
        target_env: env.to_string(),
        target_family: family.to_string(),
        target: target.to_string(),
        msystem: None,
        compiler: Compiler::Unknown,
        debug: false,
        standard: CxxStandard::Cxx20,
    }
}

fn selection() -> FeatureSelection {
    let mut s = FeatureSelection::none();
    s.chunk_1mib = true;
    s
}

fn no_features() -> FeatureSet {
    selection().resolve().unwrap()
}

fn search(path: &str) -> LinkDirective {
    LinkDirective::SearchPath { path: path.to_string() }
}

fn lib(name: &str) -> LinkDirective {
    LinkDirective::Library { kind: LinkKind::Default, name: name.to_string() }
}

fn arg(text: &str) -> LinkDirective {
    LinkDirective::Argument { text: text.to_string() }
}

fn searches() -> Vec<LinkDirective> {
    vec![
        search("/usr/local/lib"),
        search("/out"),
        search("/out/build"),
        search("/out/build/Debug"),
        search("/out/build/Release"),
    ]
}

fn libs(names: &[&str]) -> Vec<LinkDirective> {
    names.iter().map(|n| lib(n)).collect()
}

fn concat(parts: Vec<Vec<LinkDirective>>) -> Vec<LinkDirective> {
    parts.into_iter().flatten().collect()
}

fn is_unix_only(d: &LinkDirective) -> bool {
    match d {
        LinkDirective::Library { name, .. } => {
            ["pthread", "dl", "c", "m", "rt", "util", "gcc_s", "c_nonshared"].contains(&name.as_str())
        }
        _ => false,
    }
}

#[test]
fn artifact_is_named_after_the_checks() {
    assert_eq!(artifact_name(false), "snmallocshim-rust");
    assert_eq!(artifact_name(true), "snmallocshim-checks-rust");
}

#[test]
fn msvc_release_links_the_core_libraries() {
    let d = descriptor("windows", "msvc", "windows", "x86_64-pc-windows-msvc");
    let plan = link_plan(&d, &no_features(), "/out", &None, false);
    let expected = concat(vec![
        searches(),
        libs(&[
            "snmallocshim-rust",
            "mincore",
            "kernel32",
            "user32",
            "advapi32",
            "ws2_32",
            "userenv",
            "bcrypt",
            "msvcrt",
        ]),
    ]);
    assert_eq!(plan, expected);
}

#[test]
fn msvc_debug_links_the_debug_runtime() {
    let mut d = descriptor("windows", "msvc", "windows", "x86_64-pc-windows-msvc");
    d.debug = true;
    let plan = link_plan(&d, &no_features(), "/out", &None, false);
    assert_eq!(plan.last(), Some(&lib("msvcrtd")));
    assert!(!plan.contains(&lib("msvcrt")));
}

#[test]
fn msvc_in_compatibility_mode_does_not_link_mincore() {
    let d = descriptor("windows", "msvc", "windows", "x86_64-pc-windows-msvc");
    let mut s = selection();
    s.win8_compat = true;
    let plan = link_plan(&d, &s.resolve().unwrap(), "/out", &None, false);
    assert!(!plan.contains(&lib("mincore")));
    assert_eq!(plan[6], lib("kernel32"));
}

#[test]
fn msvc_with_link_time_optimisation_asks_for_code_generation() {
    let d = descriptor("windows", "msvc", "windows", "x86_64-pc-windows-msvc");
    let mut s = selection();
    s.lto = true;
    let plan = link_plan(&d, &s.resolve().unwrap(), "/out", &None, true);
    assert_eq!(plan[0], arg("/LTCG"));
    assert_eq!(plan[1], search("/usr/local/lib"));
    assert_eq!(plan[6], lib("snmallocshim-checks-rust"));

    let gnu = descriptor("windows", "gnu", "windows", "x86_64-pc-windows-gnu");
    let plan = link_plan(&gnu, &s.resolve().unwrap(), "/out", &None, true);
    assert!(!plan.contains(&arg("/LTCG")));
    let odd = descriptor("linux", "msvc", "unix", "x");
    let plan = link_plan(&odd, &s.resolve().unwrap(), "/out", &None, true);
    assert!(!plan.contains(&arg("/LTCG")));
}

#[test]
fn msvc_environment_never_links_a_unix_library() {
    for os in ["windows", "linux", "freebsd", "macos", "haiku", "android", ""] {
        for family in ["windows", "unix", ""] {
            for debug in [false, true] {
                let mut d = descriptor(os, "msvc", family, "x86_64-pc-windows-msvc");
                d.debug = debug;
                d.msystem = Some("UCRT64".to_string());
                let mut s = selection();
                s.win8_compat = debug;
                s.lto = true;
                let plan = link_plan(
                    &d,
                    &s.resolve().unwrap(),
                    "/out",
                    &Some("/shim".to_string()),
                    debug,
                );
                assert!(!plan.iter().any(is_unix_only));
                assert!(!plan.contains(&lib("pthread")));
                assert!(!plan.contains(&lib("dl")));
            }
        }
    }
}

#[test]
fn windows_gnu_without_subsystem_links_atomics() {
    let d = descriptor("windows", "gnu", "windows", "x86_64-pc-windows-gnu");
    let plan = link_plan(&d, &no_features(), "/out", &None, false);
    let expected = concat(vec![
        searches(),
        libs(&["snmallocshim-rust", "kernel32", "bcrypt", "winpthread", "stdc++", "atomic"]),
    ]);
    assert_eq!(plan, expected);
}

#[test]
fn windows_clang_subsystem_links_the_llvm_runtime() {
    for marker in ["CLANG64", "CLANGARM64", "CLANG32"] {
        let mut d = descriptor("windows", "gnu", "windows", "x86_64-pc-windows-gnu");
        d.msystem = Some(marker.to_string());
        let plan = link_plan(&d, &no_features(), "/out", &None, false);
        let expected = concat(vec![
            searches(),
            libs(&["snmallocshim-rust", "kernel32", "bcrypt", "winpthread", "c++"]),
        ]);
        assert_eq!(plan, expected);
    }
}

#[test]
fn windows_ucrt_subsystem_brings_its_own_atomics() {
    let mut d = descriptor("windows", "gnu", "windows", "x86_64-pc-windows-gnu");
    d.msystem = Some("UCRT64".to_string());
    let plan = link_plan(&d, &no_features(), "/out", &None, false);
    let expected = concat(vec![
        searches(),
        libs(&["snmallocshim-rust", "kernel32", "bcrypt", "winpthread", "stdc++"]),
    ]);
    assert_eq!(plan, expected);
}

#[test]
fn windows_mingw_subsystem_links_atomics() {
    let mut d = descriptor("windows", "gnu", "windows", "x86_64-pc-windows-gnu");
    d.msystem = Some("MINGW64".to_string());
    let plan = link_plan(&d, &no_features(), "/out", &None, false);
    assert_eq!(&plan[plan.len() - 2..], &[lib("stdc++"), lib("atomic")]);
}

#[test]
fn windows_with_another_environment_is_treated_as_not_msvc() {
    let d = descriptor("windows", "", "windows", "x86_64-pc-windows-gnullvm");
    let plan = link_plan(&d, &no_features(), "/out", &None, false);
    assert_eq!(
        &plan[6..],
        &libs(&["kernel32", "bcrypt", "winpthread", "stdc++", "atomic"])[..]
    );
}

#[test]
fn shim_search_path_is_added_on_windows_without_msvc() {
    let shim = Some("C:/msys64/ucrt64/lib".to_string());
    let d = descriptor("windows", "gnu", "windows", "x86_64-pc-windows-gnu");
    let plan = link_plan(&d, &no_features(), "/out", &shim, false);
    assert_eq!(plan[5], search("C:/msys64/ucrt64/lib"));
    assert_eq!(plan[6], lib("snmallocshim-rust"));

    let msvc = descriptor("windows", "msvc", "windows", "x86_64-pc-windows-msvc");
    let plan = link_plan(&msvc, &no_features(), "/out", &shim, false);
    assert!(!plan.contains(&search("C:/msys64/ucrt64/lib")));
    let linux = descriptor("linux", "gnu", "unix", "x86_64-unknown-linux-gnu");
    let plan = link_plan(&linux, &no_features(), "/out", &shim, false);
    assert!(!plan.contains(&search("C:/msys64/ucrt64/lib")));
}

#[test]
fn freebsd_links_only_the_llvm_runtime() {
    let d = descriptor("freebsd", "", "unix", "x86_64-unknown-freebsd");
    let plan = link_plan(&d, &no_features(), "/out", &None, false);
    let expected = concat(vec![searches(), libs(&["snmallocshim-rust", "c++"])]);
    assert_eq!(plan, expected);
}

#[test]
fn linux_links_its_libraries_in_order() {
    let d = descriptor("linux", "gnu", "unix", "x86_64-unknown-linux-gnu");
    let plan = link_plan(&d, &no_features(), "/out", &None, false);
    let expected = concat(vec![
        searches(),
        vec![
            arg("-Wl,--whole-archive"),
            LinkDirective::Library {
                kind: LinkKind::Static,
                name: "snmallocshim-rust".to_string(),
            },
            arg("-Wl,--no-whole-archive"),
        ],
        libs(&["atomic", "stdc++", "pthread", "c", "gcc_s", "util", "rt", "dl", "m"]),
        vec![arg("-fuse-ld=lld")],
    ]);
    assert_eq!(plan, expected);
}

#[test]
fn linux_with_the_older_standard_links_the_compiler_runtime() {
    let mut d = descriptor("linux", "gnu", "unix", "x86_64-unknown-linux-gnu");
    d.standard = CxxStandard::Cxx17;
    let plan = link_plan(&d, &no_features(), "/out", &None, false);
    assert_eq!(&plan[plan.len() - 2..], &[arg("-fuse-ld=lld"), lib("gcc")]);
    d.msystem = Some("CLANG64".to_string());
    let plan = link_plan(&d, &no_features(), "/out", &None, false);
    assert_eq!(plan.last(), Some(&arg("-fuse-ld=lld")));
}

#[test]
fn linux_brackets_the_static_artifact_and_links_atomics_once() {
    for env in ["gnu", "musl", ""] {
        for family in ["unix", ""] {
            for checks in [false, true] {
                let mut d = descriptor("linux", env, family, "x86_64-unknown-linux-gnu");
                d.standard = if checks { CxxStandard::Cxx17 } else { CxxStandard::Cxx20 };
                let plan = link_plan(&d, &no_features(), "/out", &None, checks);
                let open = plan.iter().position(|x| *x == arg("-Wl,--whole-archive")).unwrap();
                assert_eq!(
                    plan[open + 1],
                    LinkDirective::Library {
                        kind: LinkKind::Static,
                        name: artifact_name(checks).to_string(),
                    }
                );
                assert_eq!(plan[open + 2], arg("-Wl,--no-whole-archive"));
                let atomics = plan
                    .iter()
                    .filter(|x| matches!(x, LinkDirective::Library { name, .. } if name == "atomic"))
                    .count();
                assert_eq!(atomics, 1);
                assert_eq!(plan.iter().filter(|x| **x == arg("-Wl,--whole-archive")).count(), 1);
                assert_eq!(plan.iter().filter(|x| **x == arg("-Wl,--no-whole-archive")).count(), 1);
            }
        }
    }
}

#[test]
fn linux_with_msvc_environment_still_brackets_the_artifact() {
    let d = descriptor("linux", "msvc", "unix", "x");
    let plan = link_plan(&d, &no_features(), "/out", &None, false);
    assert_eq!(plan[5], arg("-Wl,--whole-archive"));
    assert_eq!(plan[7], arg("-Wl,--no-whole-archive"));
    assert!(!plan.contains(&lib("atomic")));
}

#[test]
fn other_unix_with_gnu_environment_links_the_shim() {
    let d = descriptor("hurd", "gnu", "unix", "i686-unknown-hurd-gnu");
    let plan = link_plan(&d, &no_features(), "/out", &None, false);
    let expected = concat(vec![searches(), libs(&["snmallocshim-rust", "c_nonshared"])]);
    assert_eq!(plan, expected);
}

#[test]
fn other_unix_without_gnu_environment_links_nothing_more() {
    for os in ["netbsd", "openbsd", "haiku", "android", "illumos"] {
        let d = descriptor(os, "", "unix", "x");
        let plan = link_plan(&d, &no_features(), "/out", &None, false);
        let expected = concat(vec![searches(), libs(&["snmallocshim-rust"])]);
        assert_eq!(plan, expected);
    }
}

#[test]
fn macos_links_the_llvm_runtime() {
    let d = descriptor("macos", "", "unix", "aarch64-apple-darwin");
    let plan = link_plan(&d, &no_features(), "/out", &None, false);
    let expected = concat(vec![searches(), libs(&["snmallocshim-rust", "c++"])]);
    assert_eq!(plan, expected);
}

#[test]
fn remaining_targets_link_a_runtime_chosen_by_os() {
    let d = descriptor("openbsd", "", "", "x");
    let plan = link_plan(&d, &no_features(), "/out", &None, false);
    assert_eq!(plan.last(), Some(&lib("c++")));
    let d = descriptor("none", "", "", "thumbv7em-none-eabi");
    let plan = link_plan(&d, &no_features(), "/out", &None, false);
    let expected = concat(vec![searches(), libs(&["snmallocshim-rust", "stdc++"])]);
    assert_eq!(plan, expected);
}

#[test]
fn search_paths_precede_every_library() {
    let shim = Some("/shim".to_string());
    for (os, env, family) in [
        ("windows", "msvc", "windows"),
        ("windows", "gnu", "windows"),
        ("linux", "gnu", "unix"),
        ("freebsd", "", "unix"),
        ("macos", "", "unix"),
        ("none", "", ""),
    ] {
        let d = descriptor(os, env, family, "x");
        let plan = link_plan(&d, &no_features(), "/out", &shim, false);
        let first_library = plan
            .iter()
            .position(|x| matches!(x, LinkDirective::Library { .. }))
            .unwrap();
        assert!(plan[first_library..]
            .iter()
            .all(|x| !matches!(x, LinkDirective::SearchPath { .. })));
    }
}
