//! What a build tells the program that is compiled with it, and how
//! directives are written for the build orchestrator.

use crate::link::{DirectiveModel, LinkDirective, LinkKind};
use crate::platform::{Compiler, CxxStandard, DescriptorModel, PlatformDescriptor};
use crate::rules::optimisation_flag;
use vstd::prelude::*;

verus! {

/// The name of a compiler.
pub open spec fn compiler_text(compiler: Compiler) -> Seq<char> {
    match compiler {
        Compiler::Clang => "Clang"@,
        Compiler::Gcc => "Gcc"@,
        Compiler::Msvc => "Msvc"@,
        Compiler::Unknown => "Unknown"@,
    }
}

/// The name of the build type.
pub open spec fn build_type_text(debug: bool) -> Seq<char> {
    if debug {
        "Debug"@
    } else {
        "Release"@
    }
}

/// A boolean as text.
pub open spec fn bool_text(value: bool) -> Seq<char> {
    if value {
        "true"@
    } else {
        "false"@
    }
}

/// The number of a language standard.
pub open spec fn standard_text(standard: CxxStandard) -> Seq<char> {
    match standard {
        CxxStandard::Cxx17 => "17"@,
        CxxStandard::Cxx20 => "20"@,
    }
}

/// The build information of a descriptor: keys and values, in order. The
/// subsystem marker is listed last, where there is one.
pub open spec fn info_table(d: DescriptorModel) -> Seq<(Seq<char>, Seq<char>)> {
    seq![
        ("BUILD_TARGET_OS"@, d.target_os),
        ("BUILD_TARGET_ENV"@, d.target_env),
        ("BUILD_TARGET_FAMILY"@, d.target_family),
        ("BUILD_TARGET"@, d.target),
        ("BUILD_CC"@, compiler_text(d.compiler)),
        ("BUILD_TYPE"@, build_type_text(d.debug)),
        ("BUILD_DEBUG"@, bool_text(d.debug)),
        ("BUILD_OPTIM_LEVEL"@, optimisation_flag(d.debug)),
        ("BUILD_CXX_STANDARD"@, standard_text(d.standard)),
    ] + (match d.msystem {
        Some(marker) => seq![("BUILD_MSYSTEM"@, marker)],
        None => Seq::empty(),
    })
}

/// The contents of a list of entries, entry by entry.
pub open spec fn entries_view(entries: Seq<(String, String)>) -> Seq<(Seq<char>, Seq<char>)> {
    entries.map_values(|e: (String, String)| (e.0@, e.1@))
}

impl Compiler {
    /// The name of the compiler.
    pub fn name(self) -> (r: &'static str)
        ensures
            r@ == compiler_text(self),
    {
        match self {
            Compiler::Clang => "Clang",
            Compiler::Gcc => "Gcc",
            Compiler::Msvc => "Msvc",
            Compiler::Unknown => "Unknown",
        }
    }
}

/// Appends one entry.
fn push_entry(entries: &mut Vec<(String, String)>, key: &str, value: &str)
    ensures
        entries_view(final(entries)@) == entries_view(old(entries)@).push((key@, value@)),
{
    entries.push((String::from_str(key), String::from_str(value)));
    assert(entries_view(entries@) =~= entries_view(old(entries)@).push((key@, value@)));
}

/// The build information of a descriptor, for embedding into the program
/// that is compiled with the build.
pub fn build_info(desc: &PlatformDescriptor) -> (entries: Vec<(String, String)>)
    ensures
        entries_view(entries@) == info_table(desc@),
{
    let mut entries: Vec<(String, String)> = Vec::new();
    push_entry(&mut entries, "BUILD_TARGET_OS", desc.target_os.as_str());
    push_entry(&mut entries, "BUILD_TARGET_ENV", desc.target_env.as_str());
    push_entry(&mut entries, "BUILD_TARGET_FAMILY", desc.target_family.as_str());
    push_entry(&mut entries, "BUILD_TARGET", desc.target.as_str());
    push_entry(&mut entries, "BUILD_CC", desc.compiler.name());
    if desc.debug {
        push_entry(&mut entries, "BUILD_TYPE", "Debug");
        push_entry(&mut entries, "BUILD_DEBUG", "true");
        push_entry(&mut entries, "BUILD_OPTIM_LEVEL", "-O0");
    } else {
        push_entry(&mut entries, "BUILD_TYPE", "Release");
        push_entry(&mut entries, "BUILD_DEBUG", "false");
        push_entry(&mut entries, "BUILD_OPTIM_LEVEL", "-O3");
    }
    match desc.standard {
        CxxStandard::Cxx17 => {
            push_entry(&mut entries, "BUILD_CXX_STANDARD", "17");
        },
        CxxStandard::Cxx20 => {
            push_entry(&mut entries, "BUILD_CXX_STANDARD", "20");
        },
    }
    match &desc.msystem {
        Some(marker) => {
            push_entry(&mut entries, "BUILD_MSYSTEM", marker.as_str());
        },
        None => {},
    }
    assert(entries_view(entries@) =~= info_table(desc@));
    entries
}

/// The line that embeds one entry of build information.
pub open spec fn info_line(key: Seq<char>, value: Seq<char>) -> Seq<char> {
    "cargo:rustc-env="@ + key + "="@ + value
}

/// The line that embeds one entry of build information.
pub fn render_info(key: &str, value: &str) -> (line: String)
    ensures
        line@ == info_line(key@, value@),
{
    let mut line = String::from_str("cargo:rustc-env=");
    line.append(key);
    line.append("=");
    line.append(value);
    line
}

/// The line that states a directive for the linker.
pub open spec fn directive_line(directive: DirectiveModel) -> Seq<char> {
    match directive {
        DirectiveModel::SearchPath { path } => "cargo:rustc-link-search="@ + path,
        DirectiveModel::Library { kind, name } => match kind {
            LinkKind::Default => "cargo:rustc-link-lib="@ + name,
            LinkKind::Static => "cargo:rustc-link-lib=static="@ + name,
            LinkKind::Dylib => "cargo:rustc-link-lib=dylib="@ + name,
        },
        DirectiveModel::Argument { text } => "cargo:rustc-link-arg="@ + text,
    }
}

impl LinkDirective {
    /// The line that states the directive for the linker.
    pub fn render(&self) -> (line: String)
        ensures
            line@ == directive_line(self@),
    {
        match self {
            LinkDirective::SearchPath { path } => {
                let mut line = String::from_str("cargo:rustc-link-search=");
                line.append(path.as_str());
                line
            },
            LinkDirective::Library { kind, name } => {
                let mut line = match kind {
                    LinkKind::Default => String::from_str("cargo:rustc-link-lib="),
                    LinkKind::Static => String::from_str("cargo:rustc-link-lib=static="),
                    LinkKind::Dylib => String::from_str("cargo:rustc-link-lib=dylib="),
                };
                line.append(name.as_str());
                line
            },
            LinkDirective::Argument { text } => {
                let mut line = String::from_str("cargo:rustc-link-arg=");
                line.append(text.as_str());
                line
            },
        }
    }
}

} // verus!
