//! The link plan: the ordered directives that tell the surrounding linker
//! where to search, what to link and which raw arguments to pass.

use crate::features::FeatureSet;
use crate::link_laws::{brackets_paired, link_plan_is_well_formed, paths_precede_libraries};
use crate::platform::{CxxStandard, DescriptorModel, PlatformDescriptor};
use crate::text::text_eq;
use vstd::prelude::*;

verus! {

/// How a library is linked.
#[derive(Debug, Clone, Copy, PartialEq, Eq, Structural)]
pub enum LinkKind {
    /// Left to the linker.
    Default,
    Static,
    Dylib,
}

/// One directive for the linker.
#[derive(Debug, Clone, PartialEq, Eq)]
pub enum LinkDirective {
    SearchPath { path: String },
    Library { kind: LinkKind, name: String },
    Argument { text: String },
}

/// The mathematical content of a `LinkDirective`.
pub enum DirectiveModel {
    SearchPath { path: Seq<char> },
    Library { kind: LinkKind, name: Seq<char> },
    Argument { text: Seq<char> },
}

impl View for LinkDirective {
    type V = DirectiveModel;

    open spec fn view(&self) -> DirectiveModel {
        match self {
            LinkDirective::SearchPath { path } => DirectiveModel::SearchPath { path: path@ },
            LinkDirective::Library { kind, name } => DirectiveModel::Library {
                kind: *kind,
                name: name@,
            },
            LinkDirective::Argument { text } => DirectiveModel::Argument { text: text@ },
        }
    }
}

/// The contents of a list of directives, one by one.
pub open spec fn directives_view(plan: Seq<LinkDirective>) -> Seq<DirectiveModel> {
    plan.map_values(|d: LinkDirective| d@)
}

/// A directive that adds a search path.
pub open spec fn search(path: Seq<char>) -> DirectiveModel {
    DirectiveModel::SearchPath { path }
}

/// A directive that links a library and leaves the kind to the linker.
pub open spec fn library(name: Seq<char>) -> DirectiveModel {
    DirectiveModel::Library { kind: LinkKind::Default, name }
}

/// A directive that passes a raw argument.
pub open spec fn argument(text: Seq<char>) -> DirectiveModel {
    DirectiveModel::Argument { text }
}

/// The argument that opens a whole-archive bracket.
pub open spec fn whole_archive() -> DirectiveModel {
    argument("-Wl,--whole-archive"@)
}

/// The argument that closes a whole-archive bracket.
pub open spec fn no_whole_archive() -> DirectiveModel {
    argument("-Wl,--no-whole-archive"@)
}

/// The name of the artifact, with or without the additional checks.
pub open spec fn artifact(checks: bool) -> Seq<char> {
    if checks {
        "snmallocshim-checks-rust"@
    } else {
        "snmallocshim-rust"@
    }
}

/// The name of the artifact, with or without the additional checks.
pub fn artifact_name(checks: bool) -> (r: &'static str)
    ensures
        r@ == artifact(checks),
{
    if checks {
        "snmallocshim-checks-rust"
    } else {
        "snmallocshim-rust"
    }
}

/// The argument that asks the Microsoft linker for link-time code
/// generation.
pub open spec fn code_generation_directives(d: DescriptorModel, f: FeatureSet) -> Seq<
    DirectiveModel,
> {
    if d.is_windows() && d.is_msvc() && f.lto {
        seq![argument("/LTCG"@)]
    } else {
        Seq::empty()
    }
}

/// The places where the artifact may lie below the output directory.
pub open spec fn search_directives(out_dir: Seq<char>) -> Seq<DirectiveModel> {
    seq![
        search("/usr/local/lib"@),
        search(out_dir),
        search(out_dir + "/build"@),
        search(out_dir + "/build/Debug"@),
        search(out_dir + "/build/Release"@),
    ]
}

/// The search path for the runtime of a GNU toolchain on Windows, where one
/// was supplied.
pub open spec fn shim_directives(d: DescriptorModel, shim: Option<Seq<char>>) -> Seq<
    DirectiveModel,
> {
    match shim {
        Some(path) => if d.is_windows() && !d.is_msvc() {
            seq![search(path)]
        } else {
            Seq::empty()
        },
        None => Seq::empty(),
    }
}

/// The directives that link the artifact. On Linux it is linked statically
/// between a whole-archive bracket, so that no exported symbol is dropped.
pub open spec fn artifact_directives(d: DescriptorModel, checks: bool) -> Seq<DirectiveModel> {
    if d.is_linux() {
        seq![
            whole_archive(),
            DirectiveModel::Library { kind: LinkKind::Static, name: artifact(checks) },
            no_whole_archive(),
        ]
    } else {
        seq![library(artifact(checks))]
    }
}

/// The system libraries of the Microsoft toolchain.
pub open spec fn msvc_libraries(d: DescriptorModel, f: FeatureSet) -> Seq<DirectiveModel> {
    (if !f.win8_compat {
        seq![library("mincore"@)]
    } else {
        Seq::empty()
    }) + seq![
        library("kernel32"@),
        library("user32"@),
        library("advapi32"@),
        library("ws2_32"@),
        library("userenv"@),
        library("bcrypt"@),
        library(
            if d.debug {
                "msvcrtd"@
            } else {
                "msvcrt"@
            },
        ),
    ]
}

/// The system libraries of any other toolchain on Windows. The C++ runtime
/// follows the subsystem; the atomics library is added unless the
/// subsystem brings its own.
pub open spec fn mingw_libraries(d: DescriptorModel) -> Seq<DirectiveModel> {
    seq![library("kernel32"@), library("bcrypt"@), library("winpthread"@)] + (
    if d.is_clang_msys() {
        seq![library("c++"@)]
    } else if d.is_ucrt64() {
        seq![library("stdc++"@)]
    } else {
        seq![library("stdc++"@), library("atomic"@)]
    })
}

/// The system libraries of Linux, the selection of the linker, and the
/// compiler runtime that the older language standard needs.
pub open spec fn linux_libraries(d: DescriptorModel) -> Seq<DirectiveModel> {
    seq![
        library("atomic"@),
        library("stdc++"@),
        library("pthread"@),
        library("c"@),
        library("gcc_s"@),
        library("util"@),
        library("rt"@),
        library("dl"@),
        library("m"@),
        argument("-fuse-ld=lld"@),
    ] + (if d.standard == CxxStandard::Cxx17 && !d.is_clang_msys() {
        seq![library("gcc"@)]
    } else {
        Seq::empty()
    })
}

/// The C++ runtime of a target that no earlier row of the table covers.
pub open spec fn default_runtime(d: DescriptorModel) -> Seq<char> {
    if d.target_os == "macos"@ || d.target_os == "openbsd"@ {
        "c++"@
    } else {
        "stdc++"@
    }
}

/// The table of system libraries. The first row that applies decides: the
/// Microsoft toolchain, Windows otherwise, FreeBSD, Linux, the rest of the
/// Unix family but for macOS, and everything else.
pub open spec fn platform_libraries(d: DescriptorModel, f: FeatureSet) -> Seq<DirectiveModel> {
    if d.is_msvc() {
        msvc_libraries(d, f)
    } else if d.is_windows() {
        mingw_libraries(d)
    } else if d.target_os == "freebsd"@ {
        seq![library("c++"@)]
    } else if d.is_linux() {
        linux_libraries(d)
    } else if d.is_unix() && d.target_os != "macos"@ {
        if d.is_gnu() {
            seq![library("c_nonshared"@)]
        } else {
            Seq::empty()
        }
    } else {
        seq![library(default_runtime(d))]
    }
}

/// The directives that precede the system libraries.
pub open spec fn artifact_section(
    d: DescriptorModel,
    f: FeatureSet,
    out_dir: Seq<char>,
    shim: Option<Seq<char>>,
    checks: bool,
) -> Seq<DirectiveModel> {
    code_generation_directives(d, f) + search_directives(out_dir) + shim_directives(d, shim)
        + artifact_directives(d, checks)
}

/// The link plan of a finished build: the search paths, the artifact, then
/// the system libraries of the platform.
pub open spec fn link_table(
    d: DescriptorModel,
    f: FeatureSet,
    out_dir: Seq<char>,
    shim: Option<Seq<char>>,
    checks: bool,
) -> Seq<DirectiveModel> {
    artifact_section(d, f, out_dir, shim, checks) + platform_libraries(d, f)
}

/// Appends a directive that adds a search path.
fn push_search(plan: &mut Vec<LinkDirective>, path: String)
    ensures
        directives_view(final(plan)@) == directives_view(old(plan)@).push(search(path@)),
{
    plan.push(LinkDirective::SearchPath { path });
    assert(directives_view(plan@) =~= directives_view(old(plan)@).push(search(path@)));
}

/// Appends a directive that links a library.
fn push_library(plan: &mut Vec<LinkDirective>, kind: LinkKind, name: &str)
    ensures
        directives_view(final(plan)@) == directives_view(old(plan)@).push(
            DirectiveModel::Library { kind, name: name@ },
        ),
{
    plan.push(LinkDirective::Library { kind, name: String::from_str(name) });
    assert(directives_view(plan@) =~= directives_view(old(plan)@).push(
        DirectiveModel::Library { kind, name: name@ },
    ));
}

/// Appends a directive that passes a raw argument.
fn push_argument(plan: &mut Vec<LinkDirective>, text: &str)
    ensures
        directives_view(final(plan)@) == directives_view(old(plan)@).push(argument(text@)),
{
    plan.push(LinkDirective::Argument { text: String::from_str(text) });
    assert(directives_view(plan@) =~= directives_view(old(plan)@).push(argument(text@)));
}

/// The text `base` followed by `suffix`.
fn joined(base: &str, suffix: &str) -> (r: String)
    ensures
        r@ == base@ + suffix@,
{
    let mut text = String::from_str(base);
    text.append(suffix);
    text
}

/// Appends the directives that precede the system libraries.
fn emit_artifact_section(
    plan: &mut Vec<LinkDirective>,
    desc: &PlatformDescriptor,
    features: &FeatureSet,
    out_dir: &str,
    shim: &Option<String>,
    checks: bool,
)
    ensures
        directives_view(final(plan)@) == directives_view(old(plan)@) + artifact_section(
            desc@,
            *features,
            out_dir@,
            crate::platform::text_of(*shim),
            checks,
        ),
{
    let windows = desc.is_windows();
    let msvc = desc.is_msvc();
    if windows && msvc && features.lto {
        push_argument(plan, "/LTCG");
    }
    push_search(plan, String::from_str("/usr/local/lib"));
    push_search(plan, String::from_str(out_dir));
    push_search(plan, joined(out_dir, "/build"));
    push_search(plan, joined(out_dir, "/build/Debug"));
    push_search(plan, joined(out_dir, "/build/Release"));
    match shim {
        Some(path) => {
            if windows && !msvc {
                push_search(plan, String::from_str(path.as_str()));
            }
        },
        None => {},
    }
    if desc.is_linux() {
        push_argument(plan, "-Wl,--whole-archive");
        push_library(plan, LinkKind::Static, artifact_name(checks));
        push_argument(plan, "-Wl,--no-whole-archive");
    } else {
        push_library(plan, LinkKind::Default, artifact_name(checks));
    }
    assert(directives_view(plan@) =~= directives_view(old(plan)@) + artifact_section(
        desc@,
        *features,
        out_dir@,
        crate::platform::text_of(*shim),
        checks,
    ));
}

/// Appends the system libraries of the Microsoft toolchain.
fn emit_msvc(plan: &mut Vec<LinkDirective>, desc: &PlatformDescriptor, features: &FeatureSet)
    ensures
        directives_view(final(plan)@) == directives_view(old(plan)@) + msvc_libraries(
            desc@,
            *features,
        ),
{
    if !features.win8_compat {
        push_library(plan, LinkKind::Default, "mincore");
    }
    push_library(plan, LinkKind::Default, "kernel32");
    push_library(plan, LinkKind::Default, "user32");
    push_library(plan, LinkKind::Default, "advapi32");
    push_library(plan, LinkKind::Default, "ws2_32");
    push_library(plan, LinkKind::Default, "userenv");
    push_library(plan, LinkKind::Default, "bcrypt");
    if desc.debug {
        push_library(plan, LinkKind::Default, "msvcrtd");
    } else {
        push_library(plan, LinkKind::Default, "msvcrt");
    }
    assert(directives_view(plan@) =~= directives_view(old(plan)@) + msvc_libraries(
        desc@,
        *features,
    ));
}

/// Appends the system libraries of any other toolchain on Windows.
fn emit_mingw(plan: &mut Vec<LinkDirective>, desc: &PlatformDescriptor)
    ensures
        directives_view(final(plan)@) == directives_view(old(plan)@) + mingw_libraries(desc@),
{
    push_library(plan, LinkKind::Default, "kernel32");
    push_library(plan, LinkKind::Default, "bcrypt");
    push_library(plan, LinkKind::Default, "winpthread");
    if desc.is_clang_msys() {
        push_library(plan, LinkKind::Default, "c++");
    } else if desc.is_ucrt64() {
        push_library(plan, LinkKind::Default, "stdc++");
    } else {
        push_library(plan, LinkKind::Default, "stdc++");
        push_library(plan, LinkKind::Default, "atomic");
    }
    assert(directives_view(plan@) =~= directives_view(old(plan)@) + mingw_libraries(desc@));
}

/// Appends the system libraries of Linux.
fn emit_linux(plan: &mut Vec<LinkDirective>, desc: &PlatformDescriptor)
    ensures
        directives_view(final(plan)@) == directives_view(old(plan)@) + linux_libraries(desc@),
{
    push_library(plan, LinkKind::Default, "atomic");
    push_library(plan, LinkKind::Default, "stdc++");
    push_library(plan, LinkKind::Default, "pthread");
    push_library(plan, LinkKind::Default, "c");
    push_library(plan, LinkKind::Default, "gcc_s");
    push_library(plan, LinkKind::Default, "util");
    push_library(plan, LinkKind::Default, "rt");
    push_library(plan, LinkKind::Default, "dl");
    push_library(plan, LinkKind::Default, "m");
    push_argument(plan, "-fuse-ld=lld");
    let cxx17 = match desc.standard {
        CxxStandard::Cxx17 => true,
        CxxStandard::Cxx20 => false,
    };
    if cxx17 && !desc.is_clang_msys() {
        push_library(plan, LinkKind::Default, "gcc");
    }
    assert(directives_view(plan@) =~= directives_view(old(plan)@) + linux_libraries(desc@));
}

/// Appends the system libraries of the platform.
fn emit_platform(plan: &mut Vec<LinkDirective>, desc: &PlatformDescriptor, features: &FeatureSet)
    ensures
        directives_view(final(plan)@) == directives_view(old(plan)@) + platform_libraries(
            desc@,
            *features,
        ),
{
    let os = desc.target_os.as_str();
    if desc.is_msvc() {
        emit_msvc(plan, desc, features);
    } else if desc.is_windows() {
        emit_mingw(plan, desc);
    } else if text_eq(os, "freebsd") {
        push_library(plan, LinkKind::Default, "c++");
    } else if desc.is_linux() {
        emit_linux(plan, desc);
    } else if desc.is_unix() && !text_eq(os, "macos") {
        if desc.is_gnu() {
            push_library(plan, LinkKind::Default, "c_nonshared");
        }
    } else if text_eq(os, "macos") || text_eq(os, "openbsd") {
        push_library(plan, LinkKind::Default, "c++");
    } else {
        push_library(plan, LinkKind::Default, "stdc++");
    }
    assert(directives_view(plan@) =~= directives_view(old(plan)@) + platform_libraries(
        desc@,
        *features,
    ));
}

/// The link plan of a finished build of the described target: where to
/// search, the artifact, and the system libraries that the platform needs,
/// in the order in which the linker must see them. No search path follows
/// a library, and the whole-archive bracket is paired.
pub fn link_plan(
    desc: &PlatformDescriptor,
    features: &FeatureSet,
    out_dir: &str,
    shim: &Option<String>,
    checks: bool,
) -> (plan: Vec<LinkDirective>)
    ensures
        directives_view(plan@) == link_table(
            desc@,
            *features,
            out_dir@,
            crate::platform::text_of(*shim),
            checks,
        ),
        paths_precede_libraries(directives_view(plan@)),
        brackets_paired(directives_view(plan@)),
{
    proof {
        link_plan_is_well_formed(
            desc@,
            *features,
            out_dir@,
            crate::platform::text_of(*shim),
            checks,
        );
    }
    let mut plan: Vec<LinkDirective> = Vec::new();
    assert(directives_view(plan@) =~= Seq::empty());
    emit_artifact_section(&mut plan, desc, features, out_dir, shim, checks);
    emit_platform(&mut plan, desc, features);
    assert(directives_view(plan@) =~= link_table(
        desc@,
        *features,
        out_dir@,
        crate::platform::text_of(*shim),
        checks,
    ));
    plan
}

} // verus!
