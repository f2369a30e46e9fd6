use snmalloc_rs::platform::{identify_compiler, identify_compiler_lowered, Compiler, HostKind};

#[test]
fn clang_subsystem_marker_wins_over_everything() {
    let c = identify_compiler(
        Some("CLANG64"),
        "msvc",
        Some("gcc"),
        "x86_64-pc-windows-msvc",
        HostKind::Windows,
    );
    assert_eq!(c, Compiler::Clang);
    let c = identify_compiler(Some("CLANGARM64"), "gnu", None, "aarch64-pc-windows-gnu", HostKind::Windows);
    assert_eq!(c, Compiler::Clang);
}

#[test]
fn gnu_subsystem_marker_wins_over_everything() {
    let c = identify_compiler(
        Some("MINGW64"),
        "msvc",
        Some("clang"),
        "x86_64-pc-windows-msvc",
        HostKind::Unix,
    );
    assert_eq!(c, Compiler::Gcc);
    let c = identify_compiler(Some("UCRT64"), "msvc", Some("clang"), "x", HostKind::Other);
    assert_eq!(c, Compiler::Gcc);
}

#[test]
fn unknown_subsystem_marker_falls_through() {
    let c = identify_compiler(Some("MSYS"), "msvc", Some("clang"), "x", HostKind::Unix);
    assert_eq!(c, Compiler::Msvc);
    let c = identify_compiler(Some("CLANG32"), "", None, "x", HostKind::Unix);
    assert_eq!(c, Compiler::Clang);
    let c = identify_compiler(Some("clang64"), "", None, "x", HostKind::Windows);
    assert_eq!(c, Compiler::Gcc);
}

#[test]
fn target_environment_wins_over_override() {
    let c = identify_compiler(None, "msvc", Some("gcc"), "x86_64-unknown-linux-gnu", HostKind::Unix);
    assert_eq!(c, Compiler::Msvc);
    let c = identify_compiler(None, "gnu", Some("clang"), "x86_64-pc-windows-msvc", HostKind::Windows);
    assert_eq!(c, Compiler::Gcc);
}

#[test]
fn override_wins_over_platform_default() {
    let c = identify_compiler(None, "", Some("/usr/bin/clang++"), "x86_64-pc-windows-msvc", HostKind::Windows);
    assert_eq!(c, Compiler::Clang);
    let c = identify_compiler(None, "musl", Some("x86_64-linux-gnu-gcc-12"), "x", HostKind::Unix);
    assert_eq!(c, Compiler::Gcc);
}

#[test]
fn override_is_matched_without_regard_to_case() {
    let c = identify_compiler(None, "", Some("C:\\LLVM\\BIN\\CLANG.EXE"), "x", HostKind::Windows);
    assert_eq!(c, Compiler::Clang);
    let c = identify_compiler(None, "", Some("GCC"), "x", HostKind::Unix);
    assert_eq!(c, Compiler::Gcc);
}

#[test]
fn override_prefers_clang_when_both_names_occur() {
    let c = identify_compiler(None, "", Some("gcc-wrapper-for-clang"), "x", HostKind::Other);
    assert_eq!(c, Compiler::Clang);
}

#[test]
fn override_without_known_name_falls_through() {
    let c = identify_compiler(None, "", Some("cc"), "x86_64-apple-darwin", HostKind::Unix);
    assert_eq!(c, Compiler::Clang);
    let c = identify_compiler(None, "", Some("icc"), "x86_64-pc-windows-msvc", HostKind::Unix);
    assert_eq!(c, Compiler::Msvc);
}

#[test]
fn platform_default_follows_triple_then_host() {
    assert_eq!(
        identify_compiler(None, "", None, "x86_64-pc-windows-msvc", HostKind::Unix),
        Compiler::Msvc
    );
    assert_eq!(
        identify_compiler(None, "", None, "x86_64-pc-windows-gnullvm", HostKind::Windows),
        Compiler::Gcc
    );
    assert_eq!(
        identify_compiler(None, "", None, "x86_64-apple-darwin", HostKind::Unix),
        Compiler::Clang
    );
    assert_eq!(
        identify_compiler(None, "", None, "wasm32-unknown-unknown", HostKind::Other),
        Compiler::Unknown
    );
}

#[test]
fn lowered_variant_takes_the_override_as_it_is() {
    let c = identify_compiler_lowered(None, "", Some("CLANG"), "x", HostKind::Other);
    assert_eq!(c, Compiler::Unknown);
    let c = identify_compiler_lowered(None, "", Some("clang"), "x", HostKind::Other);
    assert_eq!(c, Compiler::Clang);
}
