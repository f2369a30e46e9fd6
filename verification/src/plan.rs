//! The build plan: what a backend has been told so far, in the spelling of
//! that backend.

use crate::platform::text_of;
use vstd::prelude::*;

verus! {

/// How a recorded definition is spelled for the toolchain.
#[derive(Debug, Clone, Copy, PartialEq, Eq, Structural)]
pub enum Encoding {
    /// The key with the value as given.
    Verbatim,
    /// The key with the value as given, handed to the compiler on its
    /// command line.
    CommandLine,
    /// A boolean, spelled "ON" or "OFF".
    OnOff,
    /// A boolean, spelled "1" or "0".
    Digit,
    /// A boolean, spelled "true" or "false".
    Word,
    /// A boolean that is on: the key is defined, without a value.
    Presence,
    /// A boolean that is off: the key is left undefined.
    Absence,
}

/// One recorded definition.
#[derive(Debug, Clone, PartialEq, Eq)]
pub struct PlanDefine {
    pub key: String,
    pub value: Option<String>,
    pub encoding: Encoding,
}

/// The mathematical content of a `PlanDefine`.
pub struct DefineModel {
    pub key: Seq<char>,
    pub value: Option<Seq<char>>,
    pub encoding: Encoding,
}

impl View for PlanDefine {
    type V = DefineModel;

    open spec fn view(&self) -> DefineModel {
        DefineModel { key: self.key@, value: text_of(self.value), encoding: self.encoding }
    }
}

/// One step of the wiring that a backend applies to every build.
#[derive(Debug, Clone, PartialEq, Eq)]
pub enum Wiring {
    IncludeDir { path: String },
    SourceFile { path: String },
    Cpp { on: bool },
    DebugInfo { on: bool },
    StaticRuntime { on: bool },
    Profile { name: String },
    Setting { key: String, value: String },
    VeryVerbose { on: bool },
    AlwaysConfigure { on: bool },
}

/// The mathematical content of a `Wiring`.
pub enum WiringModel {
    IncludeDir { path: Seq<char> },
    SourceFile { path: Seq<char> },
    Cpp { on: bool },
    DebugInfo { on: bool },
    StaticRuntime { on: bool },
    Profile { name: Seq<char> },
    Setting { key: Seq<char>, value: Seq<char> },
    VeryVerbose { on: bool },
    AlwaysConfigure { on: bool },
}

impl View for Wiring {
    type V = WiringModel;

    open spec fn view(&self) -> WiringModel {
        match self {
            Wiring::IncludeDir { path } => WiringModel::IncludeDir { path: path@ },
            Wiring::SourceFile { path } => WiringModel::SourceFile { path: path@ },
            Wiring::Cpp { on } => WiringModel::Cpp { on: *on },
            Wiring::DebugInfo { on } => WiringModel::DebugInfo { on: *on },
            Wiring::StaticRuntime { on } => WiringModel::StaticRuntime { on: *on },
            Wiring::Profile { name } => WiringModel::Profile { name: name@ },
            Wiring::Setting { key, value } => WiringModel::Setting { key: key@, value: value@ },
            Wiring::VeryVerbose { on } => WiringModel::VeryVerbose { on: *on },
            Wiring::AlwaysConfigure { on } => WiringModel::AlwaysConfigure { on: *on },
        }
    }
}

/// What a backend has recorded: definitions, the flags that the toolchain
/// accepts, the wiring, the output directory and the artifact to build.
#[derive(Debug, Clone, PartialEq, Eq)]
pub struct BuildPlan {
    pub defines: Vec<PlanDefine>,
    pub flags: Vec<String>,
    pub wiring: Vec<Wiring>,
    pub out_dir: Option<String>,
    pub target: Option<String>,
}

/// The mathematical content of a `BuildPlan`.
pub struct PlanModel {
    pub defines: Seq<DefineModel>,
    pub flags: Seq<Seq<char>>,
    pub wiring: Seq<WiringModel>,
    pub out_dir: Option<Seq<char>>,
    pub target: Option<Seq<char>>,
}

impl View for BuildPlan {
    type V = PlanModel;

    open spec fn view(&self) -> PlanModel {
        PlanModel {
            defines: self.defines@.map_values(|d: PlanDefine| d@),
            flags: self.flags@.map_values(|f: String| f@),
            wiring: self.wiring@.map_values(|w: Wiring| w@),
            out_dir: text_of(self.out_dir),
            target: text_of(self.target),
        }
    }
}

impl PlanModel {
    /// The plan that records nothing.
    pub open spec fn empty() -> PlanModel {
        PlanModel {
            defines: Seq::empty(),
            flags: Seq::empty(),
            wiring: Seq::empty(),
            out_dir: None,
            target: None,
        }
    }

    /// The plan with one more definition.
    pub open spec fn with_define(self, entry: DefineModel) -> PlanModel {
        PlanModel { defines: self.defines.push(entry), ..self }
    }

    /// The plan after `flag` was offered to a toolchain that turns down the
    /// flags in `rejected`: a rejected flag leaves the plan as it was.
    pub open spec fn with_flag(self, rejected: Set<Seq<char>>, flag: Seq<char>) -> PlanModel {
        if rejected.contains(flag) {
            self
        } else {
            PlanModel { flags: self.flags.push(flag), ..self }
        }
    }

    /// The plan with more wiring.
    pub open spec fn with_wiring(self, steps: Seq<WiringModel>) -> PlanModel {
        PlanModel { wiring: self.wiring + steps, ..self }
    }

    /// The plan with the output directory set.
    pub open spec fn with_out_dir(self, dir: Seq<char>) -> PlanModel {
        PlanModel { out_dir: Some(dir), ..self }
    }

    /// The plan with the artifact set.
    pub open spec fn with_target(self, name: Seq<char>) -> PlanModel {
        PlanModel { target: Some(name), ..self }
    }
}

impl BuildPlan {
    /// A plan that records nothing.
    pub fn new() -> (r: BuildPlan)
        ensures
            r@ == PlanModel::empty(),
    {
        let r = BuildPlan {
            defines: Vec::new(),
            flags: Vec::new(),
            wiring: Vec::new(),
            out_dir: None,
            target: None,
        };
        assert(r@.defines =~= Seq::empty());
        assert(r@.flags =~= Seq::empty());
        assert(r@.wiring =~= Seq::empty());
        r
    }

    /// Records one more definition.
    pub fn record_define(&mut self, key: &str, value: Option<&str>, encoding: Encoding)
        ensures
            final(self)@ == old(self)@.with_define(
                (DefineModel {
                    key: key@,
                    value: match value {
                        Some(v) => Some(v@),
                        None => None,
                    },
                    encoding,
                }),
            ),
    {
        let value = match value {
            Some(v) => Some(String::from_str(v)),
            None => None,
        };
        let entry = PlanDefine { key: String::from_str(key), value, encoding };
        self.defines.push(entry);
        assert(self@.defines =~= old(self)@.defines.push(entry@));
    }

    /// Records one more flag.
    pub fn record_flag(&mut self, flag: &str)
        ensures
            final(self)@ == (PlanModel { flags: old(self)@.flags.push(flag@), ..old(self)@ }),
    {
        self.flags.push(String::from_str(flag));
        assert(self@.flags =~= old(self)@.flags.push(flag@));
    }

    /// Records one more step of wiring.
    pub fn record_wiring(&mut self, step: Wiring)
        ensures
            final(self)@ == old(self)@.with_wiring(seq![step@]),
    {
        self.wiring.push(step);
        assert(self@.wiring =~= old(self)@.wiring + seq![step@]);
    }
}

} // verus!
