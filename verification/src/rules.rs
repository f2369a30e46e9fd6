//! The platform rule table: from a descriptor and a feature set to the
//! ordered calls that configure a build, whichever backend receives them.

use crate::call::{
    calls_view, compiler_text, define, flag, on_off, push_compiler_text, push_define, push_flag,
    push_switch, push_toggle, switch, BuilderCall, CallModel, Setting,
};
use crate::error::{ErrorModel, ResolveError, Signal};
use crate::features::FeatureSet;
use crate::platform::{Compiler, CxxStandard, DescriptorModel, PlatformDescriptor};
use crate::signals::{Signals, SignalsModel};
use crate::text::{contains_text, occurs_in, text_eq};
use vstd::prelude::*;

verus! {

/// The optimisation flag of a debug or a release build.
pub open spec fn optimisation_flag(debug: bool) -> Seq<char> {
    if debug {
        "-O0"@
    } else {
        "-O3"@
    }
}

/// The flags that select the language standard, in both spellings.
pub open spec fn standard_calls(standard: CxxStandard) -> Seq<CallModel> {
    match standard {
        CxxStandard::Cxx17 => seq![flag("-std=c++17"@), flag("/std:c++17"@)],
        CxxStandard::Cxx20 => seq![flag("-std=c++20"@), flag("/std:c++20"@)],
    }
}

/// The calls made for every target.
pub open spec fn base_calls(d: DescriptorModel) -> Seq<CallModel> {
    seq![flag(optimisation_flag(d.debug)), flag("-fomit-frame-pointer"@)] + standard_calls(
        d.standard,
    )
}

/// The calls for tuning to the current machine and for link-time
/// optimisation with a GNU compiler.
pub open spec fn cpu_calls(d: DescriptorModel, f: FeatureSet) -> Seq<CallModel> {
    (if f.native_cpu {
        seq![define("SNMALLOC_OPTIMISE_FOR_CURRENT_MACHINE"@, "ON"@), flag("-march=native"@)]
    } else {
        Seq::empty()
    }) + (if f.lto && d.compiler == Compiler::Gcc && !d.is_msvc() {
        seq![flag("-ffat-lto-objects"@)]
    } else {
        Seq::empty()
    })
}

/// The value of the Windows-version definitions: Windows 8.1 in
/// compatibility mode, Windows 10 otherwise.
pub open spec fn windows_version(win8_compat: bool) -> Seq<char> {
    if win8_compat {
        "0x0603"@
    } else {
        "0x0A00"@
    }
}

/// The pair of Windows-version definitions.
pub open spec fn version_calls(f: FeatureSet) -> Seq<CallModel> {
    seq![
        compiler_text("WINVER"@, windows_version(f.win8_compat)),
        compiler_text("_WIN32_WINNT"@, windows_version(f.win8_compat)),
    ]
}

/// The flags offered to the Microsoft compiler.
pub open spec fn msvc_flag_calls() -> Seq<CallModel> {
    seq![
        flag("/nologo"@),
        flag("/W4"@),
        flag("/WX"@),
        flag("/wd4127"@),
        flag("/wd4324"@),
        flag("/wd4201"@),
        flag("/Ob2"@),
        flag("/EHsc"@),
        flag("/Gd"@),
        flag("/TP"@),
        flag("/Gm-"@),
        flag("/GS"@),
        flag("/fp:precise"@),
        flag("/Zc:wchar_t"@),
        flag("/Zc:forScope"@),
        flag("/Zc:inline"@),
    ]
}

/// The calls for Windows with the Microsoft toolchain.
pub open spec fn msvc_calls(d: DescriptorModel, f: FeatureSet) -> Seq<CallModel> {
    msvc_flag_calls() + (if !d.debug {
        seq![switch(Setting::NoDebug, true)]
    } else {
        Seq::empty()
    }) + (if f.lto {
        seq![
            flag("/GL"@),
            define("CMAKE_INTERPROCEDURAL_OPTIMIZATION"@, "TRUE"@),
            define("SNMALLOC_IPO"@, "ON"@),
        ]
    } else {
        Seq::empty()
    }) + seq![
        define("CMAKE_CXX_FLAGS_RELEASE"@, "/O2 /Ob2 /DNDEBUG /EHsc"@),
        define("CMAKE_C_FLAGS_RELEASE"@, "/O2 /Ob2 /DNDEBUG /EHsc"@),
    ]
}

/// The flags for Windows with any other toolchain.
pub open spec fn mingw_calls() -> Seq<CallModel> {
    seq![flag("-mcx16"@), flag("-fno-exceptions"@), flag("-fno-rtti"@), flag("-pthread"@)]
}

/// The subsystem marker names one of the Clang-flavoured layers that
/// redirect the toolchain.
pub open spec fn is_clang_layer(marker: Seq<char>) -> bool {
    marker == "CLANG64"@ || marker == "CLANGARM64"@
}

/// The subsystem marker names one of the GNU-flavoured layers that redirect
/// the toolchain.
pub open spec fn is_gnu_layer(marker: Seq<char>) -> bool {
    marker == "UCRT64"@ || marker == "MINGW64"@
}

/// The redirection of the toolchain to a Clang-flavoured layer.
pub open spec fn clang_layer_calls(f: FeatureSet) -> Seq<CallModel> {
    seq![
        define("CMAKE_CXX_COMPILER"@, "clang++"@),
        define("CMAKE_C_COMPILER"@, "clang"@),
        define(
            "CMAKE_CXX_FLAGS"@,
            "-fuse-ld=lld -stdlib=libc++ -mcx16 -Wno-error=unknown-pragmas -Qunused-arguments"@,
        ),
        define("CMAKE_C_FLAGS"@, "-fuse-ld=lld -Wno-error=unknown-pragmas -Qunused-arguments"@),
        define("CMAKE_EXE_LINKER_FLAGS"@, "-fuse-ld=lld -stdlib=libc++"@),
        define("CMAKE_SHARED_LINKER_FLAGS"@, "-fuse-ld=lld -stdlib=libc++"@),
    ] + (if f.lto {
        seq![flag("-flto=thin"@)]
    } else {
        Seq::empty()
    })
}

/// The redirection of the toolchain to a GNU-flavoured layer.
pub open spec fn gnu_layer_calls() -> Seq<CallModel> {
    seq![
        define("CMAKE_CXX_FLAGS"@, "-fuse-ld=lld -Wno-error=unknown-pragmas"@),
        define("CMAKE_SYSTEM_NAME"@, "Windows"@),
        define("CMAKE_C_FLAGS"@, "-fuse-ld=lld -Wno-error=unknown-pragmas"@),
        define("CMAKE_EXE_LINKER_FLAGS"@, "-fuse-ld=lld"@),
        define("CMAKE_SHARED_LINKER_FLAGS"@, "-fuse-ld=lld"@),
    ]
}

/// The calls that a known subsystem adds to those of its toolchain; an
/// absent or unknown marker adds none.
pub open spec fn subsystem_calls(d: DescriptorModel, f: FeatureSet) -> Seq<CallModel> {
    match d.msystem {
        Some(marker) => if is_clang_layer(marker) {
            clang_layer_calls(f)
        } else if is_gnu_layer(marker) {
            gnu_layer_calls()
        } else {
            Seq::empty()
        },
        None => Seq::empty(),
    }
}

/// The calls for a Windows target: those of the toolchain, then the version
/// pair, then, without the Microsoft toolchain, those of the subsystem.
pub open spec fn windows_calls(d: DescriptorModel, f: FeatureSet) -> Seq<CallModel> {
    if d.is_msvc() {
        msvc_calls(d, f) + version_calls(f)
    } else {
        mingw_calls() + version_calls(f) + subsystem_calls(d, f)
    }
}

/// The flag that selects the thread-local storage model.
pub open spec fn tls_model_flag(local_dynamic: bool) -> Seq<char> {
    if local_dynamic {
        "-ftls-model=local-dynamic"@
    } else {
        "-ftls-model=initial-exec"@
    }
}

/// The calls for a target of the Unix family.
pub open spec fn unix_calls(d: DescriptorModel, f: FeatureSet) -> Seq<CallModel> {
    seq![
        flag("-fPIC"@),
        flag("-pthread"@),
        flag("-fno-exceptions"@),
        flag("-fno-rtti"@),
        flag("-mcx16"@),
        flag("-Wno-unused-parameter"@),
    ] + (if d.target_os == "freebsd"@ {
        seq![flag("-w"@)]
    } else {
        Seq::empty()
    }) + (if d.target_os != "haiku"@ {
        seq![flag(tls_model_flag(f.local_dynamic_tls))]
    } else {
        Seq::empty()
    }) + (if d.target_os == "linux"@ || d.target_os == "android"@ {
        seq![
            switch(Setting::LinuxFutex, true),
            switch(Setting::LinuxRandom, true),
            switch(Setting::GetEntropy, true),
        ]
    } else {
        Seq::empty()
    })
}

/// The calls of the operating-system axis. A target that is neither Windows
/// nor of the Unix family gets none.
pub open spec fn os_calls(d: DescriptorModel, f: FeatureSet) -> Seq<CallModel> {
    if d.is_windows() {
        windows_calls(d, f)
    } else if d.is_unix() {
        unix_calls(d, f)
    } else {
        Seq::empty()
    }
}

/// The calls for the integration with an external sampling checker.
pub open spec fn gwp_asan_calls(f: FeatureSet, s: SignalsModel) -> Seq<CallModel> {
    if f.gwp_asan {
        seq![define("SNMALLOC_ENABLE_GWP_ASAN_INTEGRATION"@, "ON"@)] + (match s.gwp_asan_include {
            Some(path) => seq![define("SNMALLOC_GWP_ASAN_INCLUDE_PATH"@, path)],
            None => Seq::empty(),
        }) + (match s.gwp_asan_library {
            Some(path) => seq![define("SNMALLOC_GWP_ASAN_LIBRARY_PATH"@, path)],
            None => Seq::empty(),
        })
    } else {
        Seq::empty()
    }
}

/// The definitions that every build receives, each "ON" or "OFF".
pub open spec fn toggle_calls(d: DescriptorModel, f: FeatureSet) -> Seq<CallModel> {
    seq![
        define("SNMALLOC_QEMU_WORKAROUND"@, on_off(f.qemu_workaround)),
        define("SNMALLOC_ENABLE_DYNAMIC_LOADING"@, on_off(f.notls)),
        define("USE_SNMALLOC_STATS"@, on_off(f.stats)),
        define("SNMALLOC_RUST_LIBC_API"@, on_off(f.libc_api)),
        define("SNMALLOC_USE_CXX17"@, on_off(d.standard == CxxStandard::Cxx17)),
    ]
}

/// The definitions that are made only when their toggle is on.
pub open spec fn optional_calls(f: FeatureSet) -> Seq<CallModel> {
    (if f.tracing {
        seq![define("SNMALLOC_TRACING"@, "ON"@)]
    } else {
        Seq::empty()
    }) + (if f.fuzzing {
        seq![define("SNMALLOC_ENABLE_FUZZING"@, "ON"@)]
    } else {
        Seq::empty()
    }) + (if f.vendored_stl {
        seq![switch(Setting::VendoredStl, true)]
    } else {
        Seq::empty()
    })
}

/// The calls of the feature pass.
pub open spec fn feature_calls(d: DescriptorModel, f: FeatureSet, s: SignalsModel) -> Seq<
    CallModel,
> {
    toggle_calls(d, f) + optional_calls(f) + seq![
        switch(Setting::CheckLoads, f.check_loads),
        switch(Setting::PageId, f.pageid),
    ] + gwp_asan_calls(f, s) + seq![switch(Setting::WaitOnAddress, f.wait_on_address)]
}

/// The binary interface of an Android triple and whether it asks for the
/// ARM instruction mode. The first matching row of the table wins; a triple
/// that matches no row has no entry.
pub open spec fn android_abi(target: Seq<char>) -> Option<(Seq<char>, bool)> {
    if occurs_in("aarch64"@, target) {
        Some(("arm64-v8a"@, false))
    } else if occurs_in("armv7"@, target) {
        Some(("armeabi-v7a"@, true))
    } else if occurs_in("x86_64"@, target) {
        Some(("x86_64"@, false))
    } else if occurs_in("i686"@, target) {
        Some(("x86"@, false))
    } else if occurs_in("neon"@, target) {
        Some(("armeabi-v7a with NEON"@, false))
    } else if occurs_in("arm"@, target) {
        Some(("armeabi-v7a"@, false))
    } else {
        None
    }
}

/// The calls that select the binary interface of an Android triple.
pub open spec fn abi_calls(target: Seq<char>) -> Seq<CallModel> {
    match android_abi(target) {
        Some((abi, arm_mode)) => seq![define("ANDROID_ABI"@, abi)] + (if arm_mode {
            seq![define("ANDROID_ARM_MODE"@, "arm"@)]
        } else {
            Seq::empty()
        }),
        None => Seq::empty(),
    }
}

/// Where the toolchain file lies below the root of the development kit.
pub open spec fn toolchain_file(ndk_root: Seq<char>) -> Seq<char> {
    ndk_root + "/build/cmake/android.toolchain.cmake"@
}

/// The calls of the Android axis for a development kit at `ndk_root`.
pub open spec fn android_calls(
    d: DescriptorModel,
    f: FeatureSet,
    s: SignalsModel,
    ndk_root: Seq<char>,
) -> Seq<CallModel> {
    seq![
        define("CMAKE_TOOLCHAIN_FILE"@, toolchain_file(ndk_root)),
        define(
            "ANDROID_PLATFORM"@,
            match s.android_platform {
                Some(level) => level,
                None => Seq::empty(),
            },
        ),
    ] + (if f.android_lld {
        seq![define("ANDROID_LD"@, "lld"@)]
    } else {
        Seq::empty()
    }) + abi_calls(d.target)
}

/// The calls made before the Android axis is reached.
pub open spec fn common_calls(d: DescriptorModel, f: FeatureSet, s: SignalsModel) -> Seq<
    CallModel,
> {
    base_calls(d) + cpu_calls(d, f) + os_calls(d, f) + feature_calls(d, f, s)
}

/// The rule table. The axes are evaluated in a fixed order: base, machine
/// tuning, operating system, features, Android. An Android triple without
/// the root of the development kit has no calls: the signal is missing.
pub open spec fn rule_table(d: DescriptorModel, f: FeatureSet, s: SignalsModel) -> Result<
    Seq<CallModel>,
    ErrorModel,
> {
    if d.is_android() {
        match s.ndk_root {
            Some(root) => Ok(common_calls(d, f, s) + android_calls(d, f, s, root)),
            None => Err(ErrorModel::MissingRequiredSignal { signal: Signal::NdkRoot }),
        }
    } else {
        Ok(common_calls(d, f, s))
    }
}

/// Appends the calls made for every target.
fn apply_base(calls: &mut Vec<BuilderCall>, desc: &PlatformDescriptor)
    ensures
        calls_view(final(calls)@) == calls_view(old(calls)@) + base_calls(desc@),
{
    if desc.debug {
        push_flag(calls, "-O0");
    } else {
        push_flag(calls, "-O3");
    }
    push_flag(calls, "-fomit-frame-pointer");
    match desc.standard {
        CxxStandard::Cxx17 => {
            push_flag(calls, "-std=c++17");
            push_flag(calls, "/std:c++17");
        },
        CxxStandard::Cxx20 => {
            push_flag(calls, "-std=c++20");
            push_flag(calls, "/std:c++20");
        },
    }
    assert(calls_view(calls@) =~= calls_view(old(calls)@) + base_calls(desc@));
}

/// Appends the calls for machine tuning and link-time optimisation.
fn apply_cpu(calls: &mut Vec<BuilderCall>, desc: &PlatformDescriptor, features: &FeatureSet)
    ensures
        calls_view(final(calls)@) == calls_view(old(calls)@) + cpu_calls(desc@, *features),
{
    if features.native_cpu {
        push_define(calls, "SNMALLOC_OPTIMISE_FOR_CURRENT_MACHINE", "ON");
        push_flag(calls, "-march=native");
    }
    let gcc = match desc.compiler {
        Compiler::Gcc => true,
        _ => false,
    };
    if features.lto && gcc && !desc.is_msvc() {
        push_flag(calls, "-ffat-lto-objects");
    }
    assert(calls_view(calls@) =~= calls_view(old(calls)@) + cpu_calls(desc@, *features));
}

/// Appends the pair of Windows-version definitions.
fn apply_version(calls: &mut Vec<BuilderCall>, features: &FeatureSet)
    ensures
        calls_view(final(calls)@) == calls_view(old(calls)@) + version_calls(*features),
{
    if features.win8_compat {
        push_compiler_text(calls, "WINVER", "0x0603");
        push_compiler_text(calls, "_WIN32_WINNT", "0x0603");
    } else {
        push_compiler_text(calls, "WINVER", "0x0A00");
        push_compiler_text(calls, "_WIN32_WINNT", "0x0A00");
    }
    assert(calls_view(calls@) =~= calls_view(old(calls)@) + version_calls(*features));
}

/// Appends the flags offered to the Microsoft compiler.
fn apply_msvc_flags(calls: &mut Vec<BuilderCall>)
    ensures
        calls_view(final(calls)@) == calls_view(old(calls)@) + msvc_flag_calls(),
{
    push_flag(calls, "/nologo");
    push_flag(calls, "/W4");
    push_flag(calls, "/WX");
    push_flag(calls, "/wd4127");
    push_flag(calls, "/wd4324");
    push_flag(calls, "/wd4201");
    push_flag(calls, "/Ob2");
    push_flag(calls, "/EHsc");
    push_flag(calls, "/Gd");
    push_flag(calls, "/TP");
    push_flag(calls, "/Gm-");
    push_flag(calls, "/GS");
    push_flag(calls, "/fp:precise");
    push_flag(calls, "/Zc:wchar_t");
    push_flag(calls, "/Zc:forScope");
    push_flag(calls, "/Zc:inline");
    assert(calls_view(calls@) =~= calls_view(old(calls)@) + msvc_flag_calls());
}

/// Appends the calls for Windows with the Microsoft toolchain.
fn apply_msvc(calls: &mut Vec<BuilderCall>, desc: &PlatformDescriptor, features: &FeatureSet)
    ensures
        calls_view(final(calls)@) == calls_view(old(calls)@) + msvc_calls(desc@, *features),
{
    apply_msvc_flags(calls);
    if !desc.debug {
        push_switch(calls, Setting::NoDebug, true);
    }
    if features.lto {
        push_flag(calls, "/GL");
        push_define(calls, "CMAKE_INTERPROCEDURAL_OPTIMIZATION", "TRUE");
        push_define(calls, "SNMALLOC_IPO", "ON");
    }
    push_define(calls, "CMAKE_CXX_FLAGS_RELEASE", "/O2 /Ob2 /DNDEBUG /EHsc");
    push_define(calls, "CMAKE_C_FLAGS_RELEASE", "/O2 /Ob2 /DNDEBUG /EHsc");
    assert(calls_view(calls@) =~= calls_view(old(calls)@) + msvc_calls(desc@, *features));
}

/// Appends the redirection of the toolchain to a Clang-flavoured layer.
fn apply_clang_layer(calls: &mut Vec<BuilderCall>, features: &FeatureSet)
    ensures
        calls_view(final(calls)@) == calls_view(old(calls)@) + clang_layer_calls(*features),
{
    push_define(calls, "CMAKE_CXX_COMPILER", "clang++");
    push_define(calls, "CMAKE_C_COMPILER", "clang");
    push_define(
        calls,
        "CMAKE_CXX_FLAGS",
        "-fuse-ld=lld -stdlib=libc++ -mcx16 -Wno-error=unknown-pragmas -Qunused-arguments",
    );
    push_define(
        calls,
        "CMAKE_C_FLAGS",
        "-fuse-ld=lld -Wno-error=unknown-pragmas -Qunused-arguments",
    );
    push_define(calls, "CMAKE_EXE_LINKER_FLAGS", "-fuse-ld=lld -stdlib=libc++");
    push_define(calls, "CMAKE_SHARED_LINKER_FLAGS", "-fuse-ld=lld -stdlib=libc++");
    if features.lto {
        push_flag(calls, "-flto=thin");
    }
    assert(calls_view(calls@) =~= calls_view(old(calls)@) + clang_layer_calls(*features));
}

/// Appends the redirection of the toolchain to a GNU-flavoured layer.
fn apply_gnu_layer(calls: &mut Vec<BuilderCall>)
    ensures
        calls_view(final(calls)@) == calls_view(old(calls)@) + gnu_layer_calls(),
{
    push_define(calls, "CMAKE_CXX_FLAGS", "-fuse-ld=lld -Wno-error=unknown-pragmas");
    push_define(calls, "CMAKE_SYSTEM_NAME", "Windows");
    push_define(calls, "CMAKE_C_FLAGS", "-fuse-ld=lld -Wno-error=unknown-pragmas");
    push_define(calls, "CMAKE_EXE_LINKER_FLAGS", "-fuse-ld=lld");
    push_define(calls, "CMAKE_SHARED_LINKER_FLAGS", "-fuse-ld=lld");
    assert(calls_view(calls@) =~= calls_view(old(calls)@) + gnu_layer_calls());
}

/// Appends the calls that a known subsystem adds.
fn apply_subsystem(calls: &mut Vec<BuilderCall>, desc: &PlatformDescriptor, features: &FeatureSet)
    ensures
        calls_view(final(calls)@) == calls_view(old(calls)@) + subsystem_calls(desc@, *features),
{
    match &desc.msystem {
        Some(marker) => {
            if text_eq(marker.as_str(), "CLANG64") || text_eq(marker.as_str(), "CLANGARM64") {
                apply_clang_layer(calls, features);
            } else if text_eq(marker.as_str(), "UCRT64") || text_eq(marker.as_str(), "MINGW64") {
                apply_gnu_layer(calls);
            }
        },
        None => {},
    }
    assert(calls_view(calls@) =~= calls_view(old(calls)@) + subsystem_calls(desc@, *features));
}

/// Appends the calls for a Windows target.
fn apply_windows(calls: &mut Vec<BuilderCall>, desc: &PlatformDescriptor, features: &FeatureSet)
    ensures
        calls_view(final(calls)@) == calls_view(old(calls)@) + windows_calls(desc@, *features),
{
    if desc.is_msvc() {
        apply_msvc(calls, desc, features);
        apply_version(calls, features);
    } else {
        push_flag(calls, "-mcx16");
        push_flag(calls, "-fno-exceptions");
        push_flag(calls, "-fno-rtti");
        push_flag(calls, "-pthread");
        apply_version(calls, features);
        apply_subsystem(calls, desc, features);
    }
    assert(calls_view(calls@) =~= calls_view(old(calls)@) + windows_calls(desc@, *features));
}

/// Appends the calls for a target of the Unix family.
fn apply_unix(calls: &mut Vec<BuilderCall>, desc: &PlatformDescriptor, features: &FeatureSet)
    ensures
        calls_view(final(calls)@) == calls_view(old(calls)@) + unix_calls(desc@, *features),
{
    push_flag(calls, "-fPIC");
    push_flag(calls, "-pthread");
    push_flag(calls, "-fno-exceptions");
    push_flag(calls, "-fno-rtti");
    push_flag(calls, "-mcx16");
    push_flag(calls, "-Wno-unused-parameter");
    if text_eq(desc.target_os.as_str(), "freebsd") {
        push_flag(calls, "-w");
    }
    if !text_eq(desc.target_os.as_str(), "haiku") {
        if features.local_dynamic_tls {
            push_flag(calls, "-ftls-model=local-dynamic");
        } else {
            push_flag(calls, "-ftls-model=initial-exec");
        }
    }
    if text_eq(desc.target_os.as_str(), "linux") || text_eq(desc.target_os.as_str(), "android") {
        push_switch(calls, Setting::LinuxFutex, true);
        push_switch(calls, Setting::LinuxRandom, true);
        push_switch(calls, Setting::GetEntropy, true);
    }
    assert(calls_view(calls@) =~= calls_view(old(calls)@) + unix_calls(desc@, *features));
}

/// Appends the calls of the operating-system axis.
fn apply_os(calls: &mut Vec<BuilderCall>, desc: &PlatformDescriptor, features: &FeatureSet)
    ensures
        calls_view(final(calls)@) == calls_view(old(calls)@) + os_calls(desc@, *features),
{
    if desc.is_windows() {
        apply_windows(calls, desc, features);
    } else if desc.is_unix() {
        apply_unix(calls, desc, features);
    }
    assert(calls_view(calls@) =~= calls_view(old(calls)@) + os_calls(desc@, *features));
}

/// Appends the calls for the integration with an external sampling checker.
fn apply_gwp_asan(calls: &mut Vec<BuilderCall>, features: &FeatureSet, signals: &Signals)
    ensures
        calls_view(final(calls)@) == calls_view(old(calls)@) + gwp_asan_calls(*features, signals@),
{
    if features.gwp_asan {
        push_define(calls, "SNMALLOC_ENABLE_GWP_ASAN_INTEGRATION", "ON");
        match &signals.gwp_asan_include {
            Some(path) => {
                push_define(calls, "SNMALLOC_GWP_ASAN_INCLUDE_PATH", path.as_str());
            },
            None => {},
        }
        match &signals.gwp_asan_library {
            Some(path) => {
                push_define(calls, "SNMALLOC_GWP_ASAN_LIBRARY_PATH", path.as_str());
            },
            None => {},
        }
    }
    assert(calls_view(calls@) =~= calls_view(old(calls)@) + gwp_asan_calls(*features, signals@));
}

/// Appends the definitions that every build receives.
fn apply_toggles(calls: &mut Vec<BuilderCall>, desc: &PlatformDescriptor, features: &FeatureSet)
    ensures
        calls_view(final(calls)@) == calls_view(old(calls)@) + toggle_calls(desc@, *features),
{
    push_toggle(calls, "SNMALLOC_QEMU_WORKAROUND", features.qemu_workaround);
    push_toggle(calls, "SNMALLOC_ENABLE_DYNAMIC_LOADING", features.notls);
    push_toggle(calls, "USE_SNMALLOC_STATS", features.stats);
    push_toggle(calls, "SNMALLOC_RUST_LIBC_API", features.libc_api);
    let cxx17 = match desc.standard {
        CxxStandard::Cxx17 => true,
        CxxStandard::Cxx20 => false,
    };
    push_toggle(calls, "SNMALLOC_USE_CXX17", cxx17);
    assert(calls_view(calls@) =~= calls_view(old(calls)@) + toggle_calls(desc@, *features));
}

/// Appends the definitions that are made only when their toggle is on.
fn apply_optional(calls: &mut Vec<BuilderCall>, features: &FeatureSet)
    ensures
        calls_view(final(calls)@) == calls_view(old(calls)@) + optional_calls(*features),
{
    if features.tracing {
        push_define(calls, "SNMALLOC_TRACING", "ON");
    }
    if features.fuzzing {
        push_define(calls, "SNMALLOC_ENABLE_FUZZING", "ON");
    }
    if features.vendored_stl {
        push_switch(calls, Setting::VendoredStl, true);
    }
    assert(calls_view(calls@) =~= calls_view(old(calls)@) + optional_calls(*features));
}

/// Appends the calls of the feature pass.
fn apply_features(
    calls: &mut Vec<BuilderCall>,
    desc: &PlatformDescriptor,
    features: &FeatureSet,
    signals: &Signals,
)
    ensures
        calls_view(final(calls)@) == calls_view(old(calls)@) + feature_calls(
            desc@,
            *features,
            signals@,
        ),
{
    let ghost start = calls_view(calls@);
    apply_toggles(calls, desc, features);
    apply_optional(calls, features);
    let ghost optional = calls_view(calls@);
    push_switch(calls, Setting::CheckLoads, features.check_loads);
    push_switch(calls, Setting::PageId, features.pageid);
    let ghost checked = calls_view(calls@);
    apply_gwp_asan(calls, features, signals);
    let ghost sampled = calls_view(calls@);
    push_switch(calls, Setting::WaitOnAddress, features.wait_on_address);
    proof {
        let t = toggle_calls(desc@, *features);
        let o = optional_calls(*features);
        let c = seq![
            switch(Setting::CheckLoads, features.check_loads),
            switch(Setting::PageId, features.pageid),
        ];
        let g = gwp_asan_calls(*features, signals@);
        let w = seq![switch(Setting::WaitOnAddress, features.wait_on_address)];
        assert(checked =~= optional + c);
        assert(calls_view(calls@) =~= sampled + w);
        vstd::seq_lib::lemma_concat_associative(start, t, o);
        vstd::seq_lib::lemma_concat_associative(start, t + o, c);
        vstd::seq_lib::lemma_concat_associative(start, t + o + c, g);
        vstd::seq_lib::lemma_concat_associative(start, t + o + c + g, w);
    }
}

/// Appends the calls that select the binary interface of an Android triple.
fn apply_abi(calls: &mut Vec<BuilderCall>, target: &str)
    ensures
        calls_view(final(calls)@) == calls_view(old(calls)@) + abi_calls(target@),
{
    if contains_text(target, "aarch64") {
        push_define(calls, "ANDROID_ABI", "arm64-v8a");
    } else if contains_text(target, "armv7") {
        push_define(calls, "ANDROID_ABI", "armeabi-v7a");
        push_define(calls, "ANDROID_ARM_MODE", "arm");
    } else if contains_text(target, "x86_64") {
        push_define(calls, "ANDROID_ABI", "x86_64");
    } else if contains_text(target, "i686") {
        push_define(calls, "ANDROID_ABI", "x86");
    } else if contains_text(target, "neon") {
        push_define(calls, "ANDROID_ABI", "armeabi-v7a with NEON");
    } else if contains_text(target, "arm") {
        push_define(calls, "ANDROID_ABI", "armeabi-v7a");
    }
    assert(calls_view(calls@) =~= calls_view(old(calls)@) + abi_calls(target@));
}

/// Appends the calls of the Android axis.
fn apply_android(
    calls: &mut Vec<BuilderCall>,
    desc: &PlatformDescriptor,
    features: &FeatureSet,
    signals: &Signals,
    ndk_root: &str,
)
    ensures
        calls_view(final(calls)@) == calls_view(old(calls)@) + android_calls(
            desc@,
            *features,
            signals@,
            ndk_root@,
        ),
{
    let mut file = String::from_str(ndk_root);
    file.append("/build/cmake/android.toolchain.cmake");
    push_define(calls, "CMAKE_TOOLCHAIN_FILE", file.as_str());
    match &signals.android_platform {
        Some(level) => {
            push_define(calls, "ANDROID_PLATFORM", level.as_str());
        },
        None => {
            let empty = String::new();
            push_define(calls, "ANDROID_PLATFORM", empty.as_str());
        },
    }
    if features.android_lld {
        push_define(calls, "ANDROID_LD", "lld");
    }
    apply_abi(calls, desc.target.as_str());
    assert(calls_view(calls@) =~= calls_view(old(calls)@) + android_calls(
        desc@,
        *features,
        signals@,
        ndk_root@,
    ));
}

/// The platform rule table: the ordered calls that configure a build of the
/// described target with the given features. The calls are the same for
/// every backend. An Android triple needs the root of the development kit;
/// without it there are no calls and the missing signal is named.
pub fn platform_calls(desc: &PlatformDescriptor, features: &FeatureSet, signals: &Signals) -> (r:
    Result<Vec<BuilderCall>, ResolveError>)
    ensures
        match r {
            Ok(calls) => rule_table(desc@, *features, signals@) == Ok::<Seq<CallModel>, ErrorModel>(
                calls_view(calls@),
            ),
            Err(e) => rule_table(desc@, *features, signals@) == Err::<Seq<CallModel>, ErrorModel>(
                e@,
            ),
        },
{
    let android = desc.is_android();
    if android && signals.ndk_root.is_none() {
        return Err(ResolveError::MissingRequiredSignal { signal: Signal::NdkRoot });
    }
    let mut calls: Vec<BuilderCall> = Vec::new();
    assert(calls_view(calls@) =~= Seq::empty());
    apply_base(&mut calls, desc);
    apply_cpu(&mut calls, desc, features);
    apply_os(&mut calls, desc, features);
    apply_features(&mut calls, desc, features, signals);
    assert(calls_view(calls@) =~= common_calls(desc@, *features, signals@));
    if android {
        match &signals.ndk_root {
            Some(root) => {
                apply_android(&mut calls, desc, features, signals, root.as_str());
            },
            None => {},
        }
    }
    Ok(calls)
}

} // verus!
