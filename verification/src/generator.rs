//! The backend that hands the build to a generator-based meta-build
//! system. The generator chooses its own compiler flags; booleans are
//! spelled "ON" and "OFF" under the names of the generator's options.

use crate::builder::BuilderDefine;
use crate::meaning::{
    plain_meaning, record_switch, spelled, spelling_round_trip, SemanticDefine,
};
use crate::call::{CompilerDefine, CompilerDefineModel, Setting};
use crate::plan::{BuildPlan, DefineModel, Encoding, PlanModel, Wiring, WiringModel};
use vstd::prelude::*;

verus! {

impl Setting {
    /// The option of the generator that stands for the setting.
    pub open spec fn option_key(self) -> Seq<char> {
        match self {
            Setting::WaitOnAddress => "SNMALLOC_ENABLE_WAIT_ON_ADDRESS"@,
            _ => self.macro_key(),
        }
    }

    /// The option of the generator that stands for the setting.
    pub fn option_name(self) -> (r: &'static str)
        ensures
            r@ == self.option_key(),
    {
        match self {
            Setting::WaitOnAddress => "SNMALLOC_ENABLE_WAIT_ON_ADDRESS",
            _ => self.macro_name(),
        }
    }
}

/// The name of the setting behind an option of the generator.
pub open spec fn setting_name(option: Seq<char>) -> Seq<char> {
    if option == Setting::WaitOnAddress.option_key() {
        Setting::WaitOnAddress.macro_key()
    } else {
        option
    }
}

/// The option of a setting leads back to the name of the setting.
pub proof fn option_names_setting(setting: Setting)
    ensures
        setting_name(setting.option_key()) == setting.macro_key(),
{
    reveal_strlit("SNMALLOC_ENABLE_WAIT_ON_ADDRESS");
    reveal_strlit("NDEBUG");
    reveal_strlit("SNMALLOC_HAS_LINUX_FUTEX_H");
    reveal_strlit("SNMALLOC_HAS_LINUX_RANDOM_H");
    reveal_strlit("SNMALLOC_PLATFORM_HAS_GETENTROPY");
    reveal_strlit("SNMALLOC_USE_SELF_VENDORED_STL");
    reveal_strlit("SNMALLOC_CHECK_LOADS");
    reveal_strlit("SNMALLOC_PAGEID");
    let option = "SNMALLOC_ENABLE_WAIT_ON_ADDRESS"@;
    assert(option.len() == 31);
    assert(setting != Setting::WaitOnAddress ==> setting.macro_key().len() != option.len());
}

/// The backend that delegates to a generator.
#[derive(Debug, Clone, PartialEq, Eq)]
pub struct GeneratorBuilder {
    plan: BuildPlan,
}

impl GeneratorBuilder {
    /// A backend that has recorded nothing.
    pub fn new() -> (r: GeneratorBuilder)
        ensures
            r.plan() == PlanModel::empty(),
            r.rejected() == Set::<Seq<char>>::full(),
    {
        GeneratorBuilder { plan: BuildPlan::new() }
    }

    /// The plan recorded so far.
    pub fn recorded(&self) -> (r: &BuildPlan)
        ensures
            r@ == self.plan(),
    {
        &self.plan
    }

    /// Gives up the backend for the plan that it recorded.
    pub fn into_plan(self) -> (r: BuildPlan)
        ensures
            r@ == self.plan(),
    {
        self.plan
    }
}

impl BuilderDefine for GeneratorBuilder {
    closed spec fn plan(&self) -> PlanModel {
        self.plan@
    }

    /// The generator selects the compiler flags itself: every offered flag
    /// is turned down.
    closed spec fn rejected(&self) -> Set<Seq<char>> {
        Set::full()
    }

    open spec fn written_define(key: Seq<char>, value: Seq<char>) -> DefineModel {
        DefineModel { key, value: Some(value), encoding: Encoding::Verbatim }
    }

    open spec fn written_compiler_define(define: CompilerDefineModel) -> DefineModel {
        match define {
            CompilerDefineModel::Text { key, value } => DefineModel {
                key,
                value: Some(value),
                encoding: Encoding::CommandLine,
            },
            CompilerDefineModel::Switch { setting, on } => DefineModel {
                key: setting.option_key(),
                value: spelled(Encoding::OnOff, on).value,
                encoding: spelled(Encoding::OnOff, on).encoding,
            },
        }
    }

    open spec fn meaning(entry: DefineModel) -> SemanticDefine {
        if entry.encoding == Encoding::OnOff {
            SemanticDefine { name: setting_name(entry.key), value: plain_meaning(entry).value }
        } else {
            plain_meaning(entry)
        }
    }

    open spec fn wiring(debug: bool) -> Seq<WiringModel> {
        seq![
            WiringModel::Profile {
                name: if debug {
                    "Debug"@
                } else {
                    "Release"@
                },
            },
            WiringModel::Setting { key: "SNMALLOC_RUST_SUPPORT"@, value: "ON"@ },
            WiringModel::VeryVerbose { on: true },
            WiringModel::Setting { key: "CMAKE_SH"@, value: "CMAKE_SH-NOTFOUND"@ },
            WiringModel::AlwaysConfigure { on: true },
            WiringModel::StaticRuntime { on: true },
        ]
    }

    proof fn define_is_faithful(key: Seq<char>, value: Seq<char>) {
    }

    proof fn compiler_define_is_faithful(define: CompilerDefineModel) {
        match define {
            CompilerDefineModel::Text { key, value } => {},
            CompilerDefineModel::Switch { setting, on } => {
                spelling_round_trip(setting.option_key(), Encoding::OnOff, on);
                option_names_setting(setting);
            },
        }
    }

    fn define(&mut self, key: &str, value: &str) {
        self.plan.record_define(key, Some(value), Encoding::Verbatim);
    }

    fn flag_if_supported(&mut self, flag: &str) {
    }

    fn build_lib(&mut self, target_lib: &str) -> (dir: String) {
        let dir = match &self.plan.out_dir {
            Some(d) => d.clone(),
            None => String::new(),
        };
        self.plan.target = Some(String::from_str(target_lib));
        dir
    }

    fn configure_output_dir(&mut self, out_dir: &str) {
        self.plan.out_dir = Some(String::from_str(out_dir));
    }

    fn configure_cpp(&mut self, debug: bool) {
        if debug {
            self.plan.record_wiring(Wiring::Profile { name: String::from_str("Debug") });
        } else {
            self.plan.record_wiring(Wiring::Profile { name: String::from_str("Release") });
        }
        self.plan.record_wiring(
            Wiring::Setting {
                key: String::from_str("SNMALLOC_RUST_SUPPORT"),
                value: String::from_str("ON"),
            },
        );
        self.plan.record_wiring(Wiring::VeryVerbose { on: true });
        self.plan.record_wiring(
            Wiring::Setting {
                key: String::from_str("CMAKE_SH"),
                value: String::from_str("CMAKE_SH-NOTFOUND"),
            },
        );
        self.plan.record_wiring(Wiring::AlwaysConfigure { on: true });
        self.plan.record_wiring(Wiring::StaticRuntime { on: true });
        assert(self.plan@.wiring =~= old(self).plan@.wiring + Self::wiring(debug));
    }

    fn compiler_define(&mut self, define: &CompilerDefine) {
        match define {
            CompilerDefine::Text { key, value } => {
                self.plan.record_define(key.as_str(), Some(value.as_str()), Encoding::CommandLine);
            },
            CompilerDefine::Switch { setting, on } => {
                record_switch(&mut self.plan, setting.option_name(), Encoding::OnOff, *on);
            },
        }
    }
}

} // verus!
