//! The platform descriptor: the typed, immutable record of the signals that
//! every later decision reads.

use crate::error::{ErrorModel, ResolveError, Signal};
use crate::signals::{Signals, SignalsModel};
use crate::text::{contains_text, lowercase, lowercase_of, occurs_in, text_eq};
use vstd::prelude::*;

verus! {

/// The toolchain family that compiles the native sources.
#[derive(Debug, Clone, Copy, PartialEq, Eq, Structural)]
pub enum Compiler {
    Clang,
    Gcc,
    Msvc,
    Unknown,
}

/// The kind of machine the resolver itself runs on.
#[derive(Debug, Clone, Copy, PartialEq, Eq, Structural)]
pub enum HostKind {
    Windows,
    Unix,
    Other,
}

/// The version of the source-language standard that the native sources are
/// compiled against.
#[derive(Debug, Clone, Copy, PartialEq, Eq, Structural)]
pub enum CxxStandard {
    Cxx17,
    Cxx20,
}

/// Everything the rule table and the link table know about the target.
#[derive(Debug, Clone, PartialEq, Eq)]
pub struct PlatformDescriptor {
    pub target_os: String,
    pub target_env: String,
    pub target_family: String,
    pub target: String,
    pub msystem: Option<String>,
    pub compiler: Compiler,
    pub debug: bool,
    pub standard: CxxStandard,
}

/// The mathematical content of a `PlatformDescriptor`.
pub struct DescriptorModel {
    pub target_os: Seq<char>,
    pub target_env: Seq<char>,
    pub target_family: Seq<char>,
    pub target: Seq<char>,
    pub msystem: Option<Seq<char>>,
    pub compiler: Compiler,
    pub debug: bool,
    pub standard: CxxStandard,
}

/// The character sequence of an optional text.
pub open spec fn text_of(value: Option<String>) -> Option<Seq<char>> {
    match value {
        Some(s) => Some(s@),
        None => None,
    }
}

impl View for PlatformDescriptor {
    type V = DescriptorModel;

    open spec fn view(&self) -> DescriptorModel {
        DescriptorModel {
            target_os: self.target_os@,
            target_env: self.target_env@,
            target_family: self.target_family@,
            target: self.target@,
            msystem: text_of(self.msystem),
            compiler: self.compiler,
            debug: self.debug,
            standard: self.standard,
        }
    }
}

impl DescriptorModel {
    pub open spec fn is_msvc(self) -> bool {
        self.target_env == "msvc"@
    }

    pub open spec fn is_gnu(self) -> bool {
        self.target_env == "gnu"@
    }

    pub open spec fn is_windows(self) -> bool {
        self.target_os == "windows"@
    }

    pub open spec fn is_linux(self) -> bool {
        self.target_os == "linux"@
    }

    pub open spec fn is_unix(self) -> bool {
        self.target_family == "unix"@
    }

    /// The subsystem marker names a Clang-flavoured layer.
    pub open spec fn is_clang_msys(self) -> bool {
        match self.msystem {
            Some(marker) => occurs_in("CLANG"@, marker),
            None => false,
        }
    }

    /// The subsystem marker names the universal-runtime GNU layer.
    pub open spec fn is_ucrt64(self) -> bool {
        self.msystem == Some("UCRT64"@)
    }

    /// The target is an Android triple.
    pub open spec fn is_android(self) -> bool {
        occurs_in("android"@, self.target)
    }
}

impl PlatformDescriptor {
    pub fn is_msvc(&self) -> (r: bool)
        ensures
            r == self@.is_msvc(),
    {
        text_eq(self.target_env.as_str(), "msvc")
    }

    pub fn is_gnu(&self) -> (r: bool)
        ensures
            r == self@.is_gnu(),
    {
        text_eq(self.target_env.as_str(), "gnu")
    }

    pub fn is_windows(&self) -> (r: bool)
        ensures
            r == self@.is_windows(),
    {
        text_eq(self.target_os.as_str(), "windows")
    }

    pub fn is_linux(&self) -> (r: bool)
        ensures
            r == self@.is_linux(),
    {
        text_eq(self.target_os.as_str(), "linux")
    }

    pub fn is_unix(&self) -> (r: bool)
        ensures
            r == self@.is_unix(),
    {
        text_eq(self.target_family.as_str(), "unix")
    }

    /// Whether the subsystem marker names a Clang-flavoured layer.
    pub fn is_clang_msys(&self) -> (r: bool)
        ensures
            r == self@.is_clang_msys(),
    {
        match &self.msystem {
            Some(marker) => contains_text(marker.as_str(), "CLANG"),
            None => false,
        }
    }

    /// Whether the subsystem marker names the universal-runtime GNU layer.
    pub fn is_ucrt64(&self) -> (r: bool)
        ensures
            r == self@.is_ucrt64(),
    {
        match &self.msystem {
            Some(marker) => text_eq(marker.as_str(), "UCRT64"),
            None => false,
        }
    }

    /// Whether the target is an Android triple.
    pub fn is_android(&self) -> (r: bool)
        ensures
            r == self@.is_android(),
    {
        contains_text(self.target.as_str(), "android")
    }
}

/// The compiler that a subsystem marker stands for, where it is a known
/// one.
pub open spec fn marker_compiler(marker: Seq<char>) -> Option<Compiler> {
    if marker == "CLANG64"@ || marker == "CLANGARM64"@ {
        Some(Compiler::Clang)
    } else if marker == "MINGW64"@ || marker == "UCRT64"@ {
        Some(Compiler::Gcc)
    } else {
        None
    }
}

/// The compiler that the target environment stands for, where it names
/// one.
pub open spec fn environment_compiler(target_env: Seq<char>) -> Option<Compiler> {
    if target_env == "msvc"@ {
        Some(Compiler::Msvc)
    } else if target_env == "gnu"@ {
        Some(Compiler::Gcc)
    } else {
        None
    }
}

/// The compiler that a compiler-selection override, in lowercase, names.
pub open spec fn override_compiler(lowered: Seq<char>) -> Option<Compiler> {
    if occurs_in("clang"@, lowered) {
        Some(Compiler::Clang)
    } else if occurs_in("gcc"@, lowered) {
        Some(Compiler::Gcc)
    } else {
        None
    }
}

/// The compiler assumed when no signal names one.
pub open spec fn default_compiler(target: Seq<char>, host: HostKind) -> Compiler {
    if occurs_in("msvc"@, target) {
        Compiler::Msvc
    } else {
        match host {
            HostKind::Windows => Compiler::Gcc,
            HostKind::Unix => Compiler::Clang,
            HostKind::Other => Compiler::Unknown,
        }
    }
}

/// The compiler that the signals identify. The first step that names one
/// wins: the subsystem marker, the target environment, the override (given
/// here in lowercase), the default of the platform.
pub open spec fn identified(
    marker: Option<Seq<char>>,
    target_env: Seq<char>,
    lowered_override: Option<Seq<char>>,
    target: Seq<char>,
    host: HostKind,
) -> Compiler {
    if marker_decides(marker) {
        marker_compiler(marker->0)->0
    } else if environment_compiler(target_env) is Some {
        environment_compiler(target_env)->0
    } else if override_decides(lowered_override) {
        override_compiler(lowered_override->0)->0
    } else {
        default_compiler(target, host)
    }
}

/// The character sequence of an optional borrowed text.
pub open spec fn borrowed_text(value: Option<&str>) -> Option<Seq<char>> {
    match value {
        Some(s) => Some(s@),
        None => None,
    }
}

/// The lowercase form of an optional text.
pub open spec fn lowered(value: Option<Seq<char>>) -> Option<Seq<char>> {
    match value {
        Some(s) => Some(lowercase_of(s)),
        None => None,
    }
}

/// Identifies the compiler from signals whose override is already in
/// lowercase.
pub fn identify_compiler_lowered(
    marker: Option<&str>,
    target_env: &str,
    lowered_override: Option<&str>,
    target: &str,
    host: HostKind,
) -> (c: Compiler)
    ensures
        c == identified(
            borrowed_text(marker),
            target_env@,
            borrowed_text(lowered_override),
            target@,
            host,
        ),
{
    match marker {
        Some(m) => {
            if text_eq(m, "CLANG64") || text_eq(m, "CLANGARM64") {
                return Compiler::Clang;
            } else if text_eq(m, "MINGW64") || text_eq(m, "UCRT64") {
                return Compiler::Gcc;
            }
        },
        None => {},
    }
    if text_eq(target_env, "msvc") {
        return Compiler::Msvc;
    } else if text_eq(target_env, "gnu") {
        return Compiler::Gcc;
    }
    match lowered_override {
        Some(cc) => {
            if contains_text(cc, "clang") {
                return Compiler::Clang;
            } else if contains_text(cc, "gcc") {
                return Compiler::Gcc;
            }
        },
        None => {},
    }
    if contains_text(target, "msvc") {
        Compiler::Msvc
    } else {
        match host {
            HostKind::Windows => Compiler::Gcc,
            HostKind::Unix => Compiler::Clang,
            HostKind::Other => Compiler::Unknown,
        }
    }
}

/// Identifies the compiler. The override is matched without regard to
/// case: it is brought to lowercase first.
pub fn identify_compiler(
    marker: Option<&str>,
    target_env: &str,
    compiler_override: Option<&str>,
    target: &str,
    host: HostKind,
) -> (c: Compiler)
    ensures
        c == identified(
            borrowed_text(marker),
            target_env@,
            lowered(borrowed_text(compiler_override)),
            target@,
            host,
        ),
{
    match compiler_override {
        Some(cc) => {
            let folded = lowercase(cc);
            identify_compiler_lowered(marker, target_env, Some(folded.as_str()), target, host)
        },
        None => identify_compiler_lowered(marker, target_env, None, target, host),
    }
}

/// The subsystem marker is present and names a compiler.
pub open spec fn marker_decides(marker: Option<Seq<char>>) -> bool {
    marker is Some && marker_compiler(marker->0) is Some
}

/// The override is present and, in lowercase, names a compiler.
pub open spec fn override_decides(lowered_override: Option<Seq<char>>) -> bool {
    lowered_override is Some && override_compiler(lowered_override->0) is Some
}

/// The identification follows its order of priority exactly: a known
/// subsystem marker decides alone; else a target environment that names a
/// compiler decides; else an override that names one; else the default of
/// the platform.
pub proof fn identification_follows_priority(
    marker: Option<Seq<char>>,
    target_env: Seq<char>,
    lowered_override: Option<Seq<char>>,
    target: Seq<char>,
    host: HostKind,
)
    ensures
        marker_decides(marker) ==> identified(marker, target_env, lowered_override, target, host)
            == marker_compiler(marker->0)->0,
        !marker_decides(marker) && environment_compiler(target_env) is Some ==> identified(
            marker,
            target_env,
            lowered_override,
            target,
            host,
        ) == environment_compiler(target_env)->0,
        !marker_decides(marker) && environment_compiler(target_env) is None && override_decides(
            lowered_override,
        ) ==> identified(marker, target_env, lowered_override, target, host)
            == override_compiler(lowered_override->0)->0,
        !marker_decides(marker) && environment_compiler(target_env) is None && !override_decides(
            lowered_override,
        ) ==> identified(marker, target_env, lowered_override, target, host)
            == default_compiler(target, host),
{
}

/// What building a descriptor from signals yields. The four target signals
/// are mandatory; the first that is absent is named.
pub open spec fn described(
    s: SignalsModel,
    host: HostKind,
    debug: bool,
    standard: CxxStandard,
) -> Result<DescriptorModel, ErrorModel> {
    if s.target_os is None {
        Err(ErrorModel::MissingRequiredSignal { signal: Signal::TargetOs })
    } else if s.target_env is None {
        Err(ErrorModel::MissingRequiredSignal { signal: Signal::TargetEnv })
    } else if s.target_family is None {
        Err(ErrorModel::MissingRequiredSignal { signal: Signal::TargetFamily })
    } else if s.target is None {
        Err(ErrorModel::MissingRequiredSignal { signal: Signal::TargetTriple })
    } else {
        Ok(
            DescriptorModel {
                target_os: s.target_os->0,
                target_env: s.target_env->0,
                target_family: s.target_family->0,
                target: s.target->0,
                msystem: s.msystem,
                compiler: identified(
                    s.msystem,
                    s.target_env->0,
                    lowered(s.compiler_override),
                    s.target->0,
                    host,
                ),
                debug,
                standard,
            },
        )
    }
}

/// Borrows an optional text.
fn borrowed(value: &Option<String>) -> (r: Option<&str>)
    ensures
        borrowed_text(r) == text_of(*value),
{
    match value {
        Some(s) => Some(s.as_str()),
        None => None,
    }
}

impl PlatformDescriptor {
    /// Builds the descriptor of a target from its signals, the kind of the
    /// host, and the choice of a debug build and of a language standard.
    pub fn build(signals: &Signals, host: HostKind, debug: bool, standard: CxxStandard) -> (r:
        Result<PlatformDescriptor, ResolveError>)
        ensures
            match r {
                Ok(desc) => described(signals@, host, debug, standard) == Ok::<
                    DescriptorModel,
                    ErrorModel,
                >(desc@),
                Err(e) => described(signals@, host, debug, standard) == Err::<
                    DescriptorModel,
                    ErrorModel,
                >(e@),
            },
    {
        let target_os = match &signals.target_os {
            Some(s) => s.clone(),
            None => {
                return Err(ResolveError::MissingRequiredSignal { signal: Signal::TargetOs });
            },
        };
        let target_env = match &signals.target_env {
            Some(s) => s.clone(),
            None => {
                return Err(ResolveError::MissingRequiredSignal { signal: Signal::TargetEnv });
            },
        };
        let target_family = match &signals.target_family {
            Some(s) => s.clone(),
            None => {
                return Err(ResolveError::MissingRequiredSignal { signal: Signal::TargetFamily });
            },
        };
        let target = match &signals.target {
            Some(s) => s.clone(),
            None => {
                return Err(ResolveError::MissingRequiredSignal { signal: Signal::TargetTriple });
            },
        };
        let msystem = match &signals.msystem {
            Some(s) => Some(s.clone()),
            None => None,
        };
        let compiler = identify_compiler(
            borrowed(&signals.msystem),
            target_env.as_str(),
            borrowed(&signals.compiler_override),
            target.as_str(),
            host,
        );
        Ok(
            PlatformDescriptor {
                target_os,
                target_env,
                target_family,
                target,
                msystem,
                compiler,
                debug,
                standard,
            },
        )
    }
}

} // verus!
