//! The backend that drives the compiler directly, one source file at a
//! time. Its toolchain is probed for every flag; booleans are spelled as the
//! native sources read them.

use crate::builder::BuilderDefine;
use crate::meaning::{
    plain_meaning, record_switch, spelled, spelling_round_trip, SemanticDefine,
};
use crate::call::{CompilerDefine, CompilerDefineModel, Setting};
use crate::plan::{BuildPlan, DefineModel, Encoding, PlanModel, Wiring, WiringModel};
use crate::text::text_eq;
use vstd::prelude::*;

verus! {

/// What the toolchain said of one flag.
#[derive(Debug, Clone, Copy, PartialEq, Eq, Structural)]
pub enum ProbeVerdict {
    Supported,
    Unsupported,
    /// The probe itself failed; the flag counts as unsupported.
    Failed,
}

/// What a probe of the toolchain found: the flags that it turns down.
#[derive(Debug, Clone, PartialEq, Eq)]
pub struct ProbeReport {
    pub rejected: Vec<String>,
}

impl ProbeReport {
    /// The flags that the toolchain turns down.
    pub open spec fn rejected_set(&self) -> Set<Seq<char>> {
        Set::new(|flag: Seq<char>| exists|i: int| 0 <= i < self.rejected@.len() && #[trigger] self.rejected@[i]@ == flag)
    }

    /// A report of a toolchain that accepts every flag.
    pub fn accepting_all() -> (r: ProbeReport)
        ensures
            r.rejected_set() == Set::<Seq<char>>::empty(),
    {
        let r = ProbeReport { rejected: Vec::new() };
        assert(r.rejected_set() =~= Set::<Seq<char>>::empty());
        r
    }

    /// Takes note of what the toolchain said of `flag`. A flag counts as
    /// turned down unless the toolchain supports it; a probe that failed
    /// turns the flag down and is no error.
    pub fn note(&mut self, flag: &str, verdict: ProbeVerdict)
        ensures
            final(self).rejected_set() == if verdict == ProbeVerdict::Supported {
                old(self).rejected_set()
            } else {
                old(self).rejected_set().insert(flag@)
            },
    {
        match verdict {
            ProbeVerdict::Supported => {},
            _ => {
                self.rejected.push(String::from_str(flag));
                assert forall|f: Seq<char>|
                    self.rejected_set().contains(f) == old(self).rejected_set().insert(
                        flag@,
                    ).contains(f) by {
                    let n = old(self).rejected@.len() as int;
                    if old(self).rejected_set().contains(f) {
                        let i = choose|i: int|
                            0 <= i < n && #[trigger] old(self).rejected@[i]@ == f;
                        assert(self.rejected@[i]@ == f);
                    }
                    if f == flag@ {
                        assert(self.rejected@[n]@ == f);
                    }
                    if self.rejected_set().contains(f) {
                        let i = choose|i: int|
                            0 <= i < self.rejected@.len() && #[trigger] self.rejected@[i]@ == f;
                        if i < n {
                            assert(old(self).rejected@[i]@ == f);
                        }
                    }
                }
                assert(self.rejected_set() =~= old(self).rejected_set().insert(flag@));
            },
        }
    }

    /// Whether the toolchain turns `flag` down.
    pub fn rejects(&self, flag: &str) -> (r: bool)
        ensures
            r == self.rejected_set().contains(flag@),
    {
        let mut i: usize = 0;
        while i < self.rejected.len()
            invariant
                i <= self.rejected@.len(),
                forall|k: int| 0 <= k < i ==> #[trigger] self.rejected@[k]@ != flag@,
            decreases self.rejected@.len() - i,
        {
            if text_eq(self.rejected[i].as_str(), flag) {
                return true;
            }
            i = i + 1;
        }
        false
    }
}

impl Setting {
    /// How the compiler driver expects the setting to be spelled.
    pub open spec fn direct_encoding(self) -> Encoding {
        match self {
            Setting::VendoredStl | Setting::WaitOnAddress => Encoding::Digit,
            Setting::CheckLoads | Setting::PageId => Encoding::Word,
            _ => Encoding::Presence,
        }
    }

    /// How the compiler driver expects the setting to be spelled.
    pub fn direct_style(self) -> (r: Encoding)
        ensures
            r == self.direct_encoding(),
    {
        match self {
            Setting::VendoredStl | Setting::WaitOnAddress => Encoding::Digit,
            Setting::CheckLoads | Setting::PageId => Encoding::Word,
            _ => Encoding::Presence,
        }
    }
}

/// The backend that drives the compiler directly.
#[derive(Debug, Clone, PartialEq, Eq)]
pub struct DirectBuilder {
    plan: BuildPlan,
    probe: ProbeReport,
}

impl DirectBuilder {
    /// A backend that has recorded nothing, for a toolchain that was probed
    /// with the given result.
    pub fn new(probe: ProbeReport) -> (r: DirectBuilder)
        ensures
            r.plan() == PlanModel::empty(),
            r.rejected() == probe.rejected_set(),
    {
        DirectBuilder { plan: BuildPlan::new(), probe }
    }

    /// The plan recorded so far.
    pub fn recorded(&self) -> (r: &BuildPlan)
        ensures
            r@ == self.plan(),
    {
        &self.plan
    }

    /// Gives up the backend for the plan that it recorded.
    pub fn into_plan(self) -> (r: BuildPlan)
        ensures
            r@ == self.plan(),
    {
        self.plan
    }
}

impl BuilderDefine for DirectBuilder {
    closed spec fn plan(&self) -> PlanModel {
        self.plan@
    }

    closed spec fn rejected(&self) -> Set<Seq<char>> {
        self.probe.rejected_set()
    }

    open spec fn written_define(key: Seq<char>, value: Seq<char>) -> DefineModel {
        DefineModel { key, value: Some(value), encoding: Encoding::Verbatim }
    }

    open spec fn written_compiler_define(define: CompilerDefineModel) -> DefineModel {
        match define {
            CompilerDefineModel::Text { key, value } => DefineModel {
                key,
                value: Some(value),
                encoding: Encoding::Verbatim,
            },
            CompilerDefineModel::Switch { setting, on } => DefineModel {
                key: setting.macro_key(),
                value: spelled(setting.direct_encoding(), on).value,
                encoding: spelled(setting.direct_encoding(), on).encoding,
            },
        }
    }

    open spec fn meaning(entry: DefineModel) -> SemanticDefine {
        plain_meaning(entry)
    }

    open spec fn wiring(debug: bool) -> Seq<WiringModel> {
        seq![
            WiringModel::IncludeDir { path: "../../src"@ },
            WiringModel::SourceFile { path: "../../src/snmalloc/override/rust.cc"@ },
            WiringModel::Cpp { on: true },
            WiringModel::DebugInfo { on: debug },
            WiringModel::StaticRuntime { on: true },
        ]
    }

    proof fn define_is_faithful(key: Seq<char>, value: Seq<char>) {
    }

    proof fn compiler_define_is_faithful(define: CompilerDefineModel) {
        match define {
            CompilerDefineModel::Text { key, value } => {},
            CompilerDefineModel::Switch { setting, on } => {
                spelling_round_trip(setting.macro_key(), setting.direct_encoding(), on);
            },
        }
    }

    fn define(&mut self, key: &str, value: &str) {
        self.plan.record_define(key, Some(value), Encoding::Verbatim);
    }

    fn flag_if_supported(&mut self, flag: &str) {
        if !self.probe.rejects(flag) {
            self.plan.record_flag(flag);
        }
    }

    fn build_lib(&mut self, target_lib: &str) -> (dir: String) {
        let dir = match &self.plan.out_dir {
            Some(d) => d.clone(),
            None => String::new(),
        };
        self.plan.target = Some(String::from_str(target_lib));
        dir
    }

    fn configure_output_dir(&mut self, out_dir: &str) {
        self.plan.out_dir = Some(String::from_str(out_dir));
    }

    fn configure_cpp(&mut self, debug: bool) {
        self.plan.record_wiring(Wiring::IncludeDir { path: String::from_str("../../src") });
        self.plan.record_wiring(
            Wiring::SourceFile { path: String::from_str("../../src/snmalloc/override/rust.cc") },
        );
        self.plan.record_wiring(Wiring::Cpp { on: true });
        self.plan.record_wiring(Wiring::DebugInfo { on: debug });
        self.plan.record_wiring(Wiring::StaticRuntime { on: true });
        assert(self.plan@.wiring =~= old(self).plan@.wiring + Self::wiring(debug));
    }

    fn compiler_define(&mut self, define: &CompilerDefine) {
        match define {
            CompilerDefine::Text { key, value } => {
                self.plan.record_define(key.as_str(), Some(value.as_str()), Encoding::Verbatim);
            },
            CompilerDefine::Switch { setting, on } => {
                record_switch(&mut self.plan, setting.macro_name(), setting.direct_style(), *on);
            },
        }
    }
}

} // verus!
