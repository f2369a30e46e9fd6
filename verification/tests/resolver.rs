use snmalloc_rs::call::{BuilderCall, CompilerDefine};
use snmalloc_rs::direct::{DirectBuilder, ProbeReport};
use snmalloc_rs::error::{ResolveError, Signal};
use snmalloc_rs::features::{ChunkSize, FeatureSelection};
use snmalloc_rs::generator::GeneratorBuilder;
use snmalloc_rs::link::{link_plan, LinkDirective, LinkKind};
use snmalloc_rs::plan::{Encoding, PlanDefine};
use snmalloc_rs::platform::{Compiler, CxxStandard, HostKind, PlatformDescriptor};
use snmalloc_rs::resolver::{conclude, configure, resolve, BuildOptions, BuildOutcome};
use snmalloc_rs::rules::platform_calls;
use snmalloc_rs::signals::{Environment, Signals};

fn environment(entries: &[(&str, &str)]) -> Environment {
    Environment {
        entries: entries.iter().map(|(k, v)| (k.to_string(), v.to_string())).collect(),
    }
}

fn linux() -> Signals {
    Signals::read(&environment(&[
        ("CARGO_CFG_TARGET_OS", "linux"),
        ("CARGO_CFG_TARGET_ENV", "gnu"),
        ("CARGO_CFG_TARGET_FAMILY", "unix"),
        ("TARGET", "x86_64-unknown-linux-gnu"),
        ("OUT_DIR", "/out"),
    ]))
}

fn windows_msvc() -> Signals {
    Signals::read(&environment(&[
        ("CARGO_CFG_TARGET_OS", "windows"),
        ("CARGO_CFG_TARGET_ENV", "msvc"),
        ("CARGO_CFG_TARGET_FAMILY", "windows"),
        ("TARGET", "x86_64-pc-windows-msvc"),
        ("OUT_DIR", "C:/out"),
    ]))
}

fn selection() -> FeatureSelection {
    let mut s = FeatureSelection::none();
    s.chunk_16mib = true;
    s
}

fn options() -> BuildOptions {
    BuildOptions { debug: false, checks: false, standard: CxxStandard::Cxx20, host: HostKind::Unix }
}

#[test]
fn descriptor_is_built_from_the_signals() {
    let d = PlatformDescriptor::build(&linux(), HostKind::Unix, true, CxxStandard::Cxx17).unwrap();
    assert_eq!(
        d,
        PlatformDescriptor {
            target_os: "linux".to_string(),
            target_env: "gnu".to_string(),
            target_family: "unix".to_string(),
            target: "x86_64-unknown-linux-gnu".to_string(),
            msystem: None,
            compiler: Compiler::Gcc,
            debug: true,
            standard: CxxStandard::Cxx17,
        }
    );
    assert!(d.is_linux() && d.is_unix() && d.is_gnu());
    assert!(!d.is_windows() && !d.is_msvc() && !d.is_android());
    assert!(!d.is_clang_msys() && !d.is_ucrt64());
}

#[test]
fn descriptor_carries_the_subsystem_and_the_identified_compiler() {
    let mut s = windows_msvc();
    s.msystem = Some("CLANG64".to_string());
    let d = PlatformDescriptor::build(&s, HostKind::Windows, false, CxxStandard::Cxx20).unwrap();
    assert_eq!(d.compiler, Compiler::Clang);
    assert_eq!(d.msystem.as_deref(), Some("CLANG64"));
    assert!(d.is_clang_msys() && !d.is_ucrt64() && d.is_msvc() && d.is_windows());
    s.msystem = Some("UCRT64".to_string());
    let d = PlatformDescriptor::build(&s, HostKind::Windows, false, CxxStandard::Cxx20).unwrap();
    assert_eq!(d.compiler, Compiler::Gcc);
    assert!(d.is_ucrt64() && !d.is_clang_msys());
}

#[test]
fn descriptor_uses_the_override_without_regard_to_case() {
    let mut s = linux();
    s.target_env = Some("musl".to_string());
    s.compiler_override = Some("CLANG".to_string());
    let d = PlatformDescriptor::build(&s, HostKind::Other, false, CxxStandard::Cxx20).unwrap();
    assert_eq!(d.compiler, Compiler::Clang);
}

#[test]
fn first_missing_target_signal_is_named() {
    let build = |s: &Signals| PlatformDescriptor::build(s, HostKind::Unix, false, CxxStandard::Cxx20);
    let missing = |signal| Err(ResolveError::MissingRequiredSignal { signal });
    let mut s = linux();
    s.target = None;
    assert_eq!(build(&s), missing(Signal::TargetTriple));
    s.target_family = None;
    assert_eq!(build(&s), missing(Signal::TargetFamily));
    s.target_env = None;
    assert_eq!(build(&s), missing(Signal::TargetEnv));
    s.target_os = None;
    assert_eq!(build(&s), missing(Signal::TargetOs));
    assert_eq!(Signal::TargetOs.name(), "CARGO_CFG_TARGET_OS");
    assert_eq!(Signal::TargetEnv.name(), "CARGO_CFG_TARGET_ENV");
    assert_eq!(Signal::TargetFamily.name(), "CARGO_CFG_TARGET_FAMILY");
    assert_eq!(Signal::TargetTriple.name(), "TARGET");
    assert_eq!(Signal::OutputDir.name(), "OUT_DIR");
}

#[test]
fn resolution_gathers_every_decision() {
    let signals = linux();
    let mut opts = options();
    opts.checks = true;
    let r = resolve(&signals, &selection(), &opts).unwrap();
    assert_eq!(r.descriptor.compiler, Compiler::Gcc);
    assert_eq!(r.features.chunk, ChunkSize::SixteenMib);
    assert_eq!(r.out_dir, "/out");
    assert_eq!(r.shim_search_path, None);
    assert!(r.checks);
    assert_eq!(r.calls, platform_calls(&r.descriptor, &r.features, &signals).unwrap());
    assert_eq!(r.calls.len(), 22);
}

#[test]
fn missing_output_directory_is_fatal() {
    let mut s = linux();
    s.out_dir = None;
    assert_eq!(
        resolve(&s, &selection(), &options()),
        Err(ResolveError::MissingRequiredSignal { signal: Signal::OutputDir })
    );
}

#[test]
fn zero_chunk_sizes_abort_resolution() {
    assert_eq!(
        resolve(&linux(), &FeatureSelection::none(), &options()),
        Err(ResolveError::InvalidMutualExclusion { selected: 0 })
    );
}

#[test]
fn two_chunk_sizes_abort_resolution() {
    let mut s = selection();
    s.chunk_1mib = true;
    assert_eq!(
        resolve(&windows_msvc(), &s, &options()),
        Err(ResolveError::InvalidMutualExclusion { selected: 2 })
    );
}

#[test]
fn errors_are_reported_in_the_order_of_the_steps() {
    let mut s = Signals::read(&environment(&[
        ("CARGO_CFG_TARGET_OS", "android"),
        ("CARGO_CFG_TARGET_ENV", ""),
        ("CARGO_CFG_TARGET_FAMILY", "unix"),
        ("TARGET", "aarch64-linux-android"),
    ]));
    let none = FeatureSelection::none();
    // Without output directory, chunk size and development kit: the
    // output directory is missed first.
    assert_eq!(
        resolve(&s, &none, &options()),
        Err(ResolveError::MissingRequiredSignal { signal: Signal::OutputDir })
    );
    s.out_dir = Some("/out".to_string());
    assert_eq!(resolve(&s, &none, &options()), Err(ResolveError::InvalidMutualExclusion { selected: 0 }));
    assert_eq!(
        resolve(&s, &selection(), &options()),
        Err(ResolveError::MissingRequiredSignal { signal: Signal::NdkRoot })
    );
    s.ndk_root = Some("/ndk".to_string());
    assert!(resolve(&s, &selection(), &options()).is_ok());
    s.target_os = None;
    assert_eq!(
        resolve(&s, &none, &options()),
        Err(ResolveError::MissingRequiredSignal { signal: Signal::TargetOs })
    );
}

#[test]
fn resolution_is_handed_to_the_compiler_driver() {
    let r = resolve(&linux(), &selection(), &options()).unwrap();
    let mut direct = DirectBuilder::new(ProbeReport {
        rejected: vec!["/std:c++20".to_string(), "-mcx16".to_string()],
    });
    let dir = configure(&mut direct, &r);
    assert_eq!(dir, "/out");
    let plan = direct.into_plan();
    assert_eq!(plan.out_dir.as_deref(), Some("/out"));
    assert_eq!(plan.target.as_deref(), Some("snmallocshim-rust"));
    assert_eq!(plan.wiring.len(), 5);
    assert_eq!(
        plan.flags,
        vec![
            "-O3",
            "-fomit-frame-pointer",
            "-std=c++20",
            "-fPIC",
            "-pthread",
            "-fno-exceptions",
            "-fno-rtti",
            "-Wno-unused-parameter",
            "-ftls-model=initial-exec",
        ]
    );
    assert_eq!(plan.defines.len(), 11);
    assert_eq!(
        plan.defines[0],
        PlanDefine {
            key: "SNMALLOC_HAS_LINUX_FUTEX_H".to_string(),
            value: None,
            encoding: Encoding::Presence,
        }
    );
}

#[test]
fn resolution_is_handed_to_the_generator() {
    let mut opts = options();
    opts.checks = true;
    opts.debug = true;
    let r = resolve(&linux(), &selection(), &opts).unwrap();
    let mut generator = GeneratorBuilder::new();
    let dir = configure(&mut generator, &r);
    assert_eq!(dir, "/out");
    let plan = generator.recorded();
    assert_eq!(plan.target.as_deref(), Some("snmallocshim-checks-rust"));
    assert_eq!(plan.wiring.len(), 6);
    assert!(plan.flags.is_empty());
    assert_eq!(plan.defines.len(), 11);
    assert_eq!(
        plan.defines[0],
        PlanDefine {
            key: "SNMALLOC_HAS_LINUX_FUTEX_H".to_string(),
            value: Some("ON".to_string()),
            encoding: Encoding::OnOff,
        }
    );
}

#[test]
fn both_backends_record_one_definition_per_defining_call() {
    let mut s = selection();
    s.win8_compat = true;
    s.vendored_stl = true;
    s.lto = true;
    let r = resolve(&windows_msvc(), &s, &options()).unwrap();
    let defining = r
        .calls
        .iter()
        .filter(|c| !matches!(c, BuilderCall::FlagIfSupported { .. }))
        .count();
    let mut direct = DirectBuilder::new(ProbeReport::accepting_all());
    let mut generator = GeneratorBuilder::new();
    configure(&mut direct, &r);
    configure(&mut generator, &r);
    assert_eq!(direct.recorded().defines.len(), defining);
    assert_eq!(generator.recorded().defines.len(), defining);
    let keys = |defines: &Vec<PlanDefine>| -> Vec<String> {
        defines
            .iter()
            .map(|d| d.key.replace("SNMALLOC_ENABLE_WAIT_ON_ADDRESS", "SNMALLOC_USE_WAIT_ON_ADDRESS"))
            .collect()
    };
    assert_eq!(keys(&direct.recorded().defines), keys(&generator.recorded().defines));
    assert!(r.calls.contains(&BuilderCall::CompilerDefine {
        define: CompilerDefine::Text { key: "WINVER".to_string(), value: "0x0603".to_string() },
    }));
}

#[test]
fn successful_build_yields_the_link_plan() {
    let r = resolve(&linux(), &selection(), &options()).unwrap();
    let plan = conclude(&r, &BuildOutcome::Succeeded).unwrap();
    assert_eq!(plan, link_plan(&r.descriptor, &r.features, "/out", &None, false));
    assert_eq!(plan[1], LinkDirective::SearchPath { path: "/out".to_string() });
    assert_eq!(
        plan[6],
        LinkDirective::Library { kind: LinkKind::Static, name: "snmallocshim-rust".to_string() }
    );
}

#[test]
fn link_plan_uses_the_shim_search_path_of_the_signals() {
    let mut s = windows_msvc();
    s.target_env = Some("gnu".to_string());
    s.shim_search_path = Some("C:/gcc/lib".to_string());
    let r = resolve(&s, &selection(), &options()).unwrap();
    assert_eq!(r.shim_search_path.as_deref(), Some("C:/gcc/lib"));
    let plan = conclude(&r, &BuildOutcome::Succeeded).unwrap();
    assert_eq!(plan[5], LinkDirective::SearchPath { path: "C:/gcc/lib".to_string() });
}

#[test]
fn shim_search_path_of_the_environment_reaches_the_link_plan() {
    let signals = Signals::read(&environment(&[
        ("CARGO_CFG_TARGET_OS", "windows"),
        ("CARGO_CFG_TARGET_ENV", "gnu"),
        ("CARGO_CFG_TARGET_FAMILY", "windows"),
        ("TARGET", "x86_64-pc-windows-gnu"),
        ("OUT_DIR", "C:/out"),
        ("SNMALLOC_SHIM_SEARCH_PATH", "C:/msys64/mingw64/lib"),
    ]));
    let r = resolve(&signals, &selection(), &options()).unwrap();
    let plan = conclude(&r, &BuildOutcome::Succeeded).unwrap();
    assert_eq!(plan[5], LinkDirective::SearchPath { path: "C:/msys64/mingw64/lib".to_string() });
    assert_eq!(
        plan[6],
        LinkDirective::Library { kind: LinkKind::Default, name: "snmallocshim-rust".to_string() }
    );
}

#[test]
fn failed_build_yields_no_link_plan() {
    let r = resolve(&linux(), &selection(), &options()).unwrap();
    let outcome = BuildOutcome::Failed { diagnostic: "cc1plus: fatal error".to_string() };
    assert_eq!(
        conclude(&r, &outcome),
        Err(ResolveError::BackendProcessFailure { diagnostic: "cc1plus: fatal error".to_string() })
    );
}
