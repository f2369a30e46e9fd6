//! The resolution of one build: from signals and a feature selection to the
//! calls for a backend, and from the outcome of the backend to the link
//! plan.

use crate::builder::{after_calls, calls_extend_plan, drive, meanings, BuilderDefine};
use crate::meaning::semantic_defines;
use crate::direct::DirectBuilder;
use crate::generator::GeneratorBuilder;
use crate::call::{calls_view, BuilderCall, CallModel};
use crate::error::{ErrorModel, ResolveError, Signal};
use crate::features::{present, FeatureSelection, FeatureSet};
use crate::link::{artifact, artifact_name, directives_view, link_plan, link_table, DirectiveModel, LinkDirective};
use crate::plan::PlanModel;
use crate::platform::{
    described, text_of, CxxStandard, DescriptorModel, HostKind, PlatformDescriptor,
};
use crate::rules::{platform_calls, rule_table};
use crate::signals::{Environment, Signals, SignalsModel};
use vstd::prelude::*;

verus! {

/// The choices of a build that are no signal of the platform and no
/// feature toggle.
#[derive(Debug, Clone, Copy, PartialEq, Eq, Structural)]
pub struct BuildOptions {
    /// Build without optimisation and with debug information.
    pub debug: bool,
    /// Build the artifact with the additional checks.
    pub checks: bool,
    pub standard: CxxStandard,
    pub host: HostKind,
}

/// Which backend builds the native sources.
#[derive(Debug, Clone, Copy, PartialEq, Eq, Structural)]
pub enum BackendKind {
    /// The compiler is driven directly.
    Direct,
    /// The build is handed to a generator.
    Generator,
}

/// The options that an environment carries, for a resolver that runs on a
/// host of the given kind.
pub open spec fn options_of(entries: Seq<(String, String)>, host: HostKind) -> BuildOptions {
    BuildOptions {
        debug: present(entries, "CARGO_FEATURE_DEBUG"@),
        checks: present(entries, "CARGO_FEATURE_CHECK"@),
        standard: if present(entries, "CARGO_FEATURE_USECXX17"@) {
            CxxStandard::Cxx17
        } else {
            CxxStandard::Cxx20
        },
        host,
    }
}

/// The backend that an environment asks for: the generator, unless the
/// compiler driver is selected.
pub open spec fn backend_of(entries: Seq<(String, String)>) -> BackendKind {
    if present(entries, "CARGO_FEATURE_BUILD_CC"@) {
        BackendKind::Direct
    } else {
        BackendKind::Generator
    }
}

impl BuildOptions {
    /// Reads the options that the environment carries.
    pub fn read(env: &Environment, host: HostKind) -> (r: BuildOptions)
        ensures
            r == options_of(env.entries@, host),
    {
        BuildOptions {
            debug: env.has("CARGO_FEATURE_DEBUG"),
            checks: env.has("CARGO_FEATURE_CHECK"),
            standard: if env.has("CARGO_FEATURE_USECXX17") {
                CxxStandard::Cxx17
            } else {
                CxxStandard::Cxx20
            },
            host,
        }
    }
}

impl BackendKind {
    /// Reads the backend that the environment asks for.
    pub fn read(env: &Environment) -> (r: BackendKind)
        ensures
            r == backend_of(env.entries@),
    {
        if env.has("CARGO_FEATURE_BUILD_CC") {
            BackendKind::Direct
        } else {
            BackendKind::Generator
        }
    }
}

/// Everything that was decided before a backend is invoked.
#[derive(Debug, Clone, PartialEq, Eq)]
pub struct Resolution {
    pub descriptor: PlatformDescriptor,
    pub features: FeatureSet,
    pub out_dir: String,
    pub shim_search_path: Option<String>,
    pub checks: bool,
    pub calls: Vec<BuilderCall>,
}

/// The mathematical content of a `Resolution`.
pub struct ResolutionModel {
    pub descriptor: DescriptorModel,
    pub features: FeatureSet,
    pub out_dir: Seq<char>,
    pub shim_search_path: Option<Seq<char>>,
    pub checks: bool,
    pub calls: Seq<CallModel>,
}

impl View for Resolution {
    type V = ResolutionModel;

    open spec fn view(&self) -> ResolutionModel {
        ResolutionModel {
            descriptor: self.descriptor@,
            features: self.features,
            out_dir: self.out_dir@,
            shim_search_path: text_of(self.shim_search_path),
            checks: self.checks,
            calls: calls_view(self.calls@),
        }
    }
}

/// How a backend process ended.
#[derive(Debug, Clone, PartialEq, Eq)]
pub enum BuildOutcome {
    Succeeded,
    Failed { diagnostic: String },
}

/// What resolving yields. The steps follow one another and the first that
/// fails decides the error: the descriptor, the output directory, the
/// features, the rule table.
pub open spec fn resolved(s: SignalsModel, selection: FeatureSelection, options: BuildOptions)
    -> Result<ResolutionModel, ErrorModel> {
    match described(s, options.host, options.debug, options.standard) {
        Err(e) => Err(e),
        Ok(d) => match s.out_dir {
            None => Err(ErrorModel::MissingRequiredSignal { signal: Signal::OutputDir }),
            Some(out_dir) => match selection.outcome() {
                Err(e) => Err(e),
                Ok(f) => match rule_table(d, f, s) {
                    Err(e) => Err(e),
                    Ok(calls) => Ok(
                        ResolutionModel {
                            descriptor: d,
                            features: f,
                            out_dir,
                            shim_search_path: s.shim_search_path,
                            checks: options.checks,
                            calls,
                        },
                    ),
                },
            },
        },
    }
}

/// Resolves a build: describes the platform, identifies the compiler,
/// resolves the features and evaluates the rule table. Nothing is built
/// and no backend is involved: a missing signal and an invalid selection
/// of chunk sizes end the resolution here.
pub fn resolve(signals: &Signals, selection: &FeatureSelection, options: &BuildOptions) -> (r:
    Result<Resolution, ResolveError>)
    ensures
        match r {
            Ok(resolution) => resolved(signals@, *selection, *options) == Ok::<
                ResolutionModel,
                ErrorModel,
            >(resolution@),
            Err(e) => resolved(signals@, *selection, *options) == Err::<
                ResolutionModel,
                ErrorModel,
            >(e@),
        },
{
    let descriptor = match PlatformDescriptor::build(
        signals,
        options.host,
        options.debug,
        options.standard,
    ) {
        Ok(d) => d,
        Err(e) => {
            return Err(e);
        },
    };
    let out_dir = match &signals.out_dir {
        Some(dir) => dir.clone(),
        None => {
            return Err(ResolveError::MissingRequiredSignal { signal: Signal::OutputDir });
        },
    };
    let features = match selection.resolve() {
        Ok(f) => f,
        Err(e) => {
            return Err(e);
        },
    };
    let calls = match platform_calls(&descriptor, &features, signals) {
        Ok(c) => c,
        Err(e) => {
            return Err(e);
        },
    };
    let shim_search_path = match &signals.shim_search_path {
        Some(path) => Some(path.clone()),
        None => None,
    };
    Ok(
        Resolution {
            descriptor,
            features,
            out_dir,
            shim_search_path,
            checks: options.checks,
            calls,
        },
    )
}

/// The plan of backend `B` once a resolution has been handed to it: the
/// shared wiring, the output directory, the calls of the rule table, the
/// artifact.
pub open spec fn configured<B: BuilderDefine>(
    plan: PlanModel,
    rejected: Set<Seq<char>>,
    resolution: ResolutionModel,
) -> PlanModel {
    after_calls::<B>(
        plan.with_wiring(B::wiring(resolution.descriptor.debug)).with_out_dir(resolution.out_dir),
        rejected,
        resolution.calls,
    ).with_target(artifact(resolution.checks))
}

/// Hands a resolution to a backend, whichever it is, and returns the
/// directory that will hold the artifact.
pub fn configure<B: BuilderDefine>(builder: &mut B, resolution: &Resolution) -> (dir: String)
    ensures
        final(builder).plan() == configured::<B>(
            old(builder).plan(),
            old(builder).rejected(),
            resolution@,
        ),
        final(builder).rejected() == old(builder).rejected(),
        dir@ == resolution@.out_dir,
{
    builder.configure_cpp(resolution.descriptor.debug);
    builder.configure_output_dir(resolution.out_dir.as_str());
    let ghost wired = builder.plan();
    drive(builder, &resolution.calls);
    proof {
        calls_extend_plan::<B>(wired, builder.rejected(), resolution@.calls);
    }
    builder.build_lib(artifact_name(resolution.checks))
}

/// What concluding a build yields: the link plan after a success, the
/// failure of the backend with its diagnostic otherwise.
pub open spec fn concluded(resolution: ResolutionModel, failure: Option<Seq<char>>) -> Result<
    Seq<DirectiveModel>,
    ErrorModel,
> {
    match failure {
        Some(diagnostic) => Err(ErrorModel::BackendProcessFailure { diagnostic }),
        None => Ok(
            link_table(
                resolution.descriptor,
                resolution.features,
                resolution.out_dir,
                resolution.shim_search_path,
                resolution.checks,
            ),
        ),
    }
}

impl BuildOutcome {
    /// The diagnostic of a failure.
    pub open spec fn failure(self) -> Option<Seq<char>> {
        match self {
            BuildOutcome::Succeeded => None,
            BuildOutcome::Failed { diagnostic } => Some(diagnostic@),
        }
    }
}

/// Concludes a build. Only an artifact that was built completely is
/// linked: a failed backend yields no link plan, but the error that carries
/// its diagnostic.
pub fn conclude(resolution: &Resolution, outcome: &BuildOutcome) -> (r: Result<
    Vec<LinkDirective>,
    ResolveError,
>)
    ensures
        match r {
            Ok(plan) => concluded(resolution@, outcome.failure()) == Ok::<
                Seq<DirectiveModel>,
                ErrorModel,
            >(directives_view(plan@)),
            Err(e) => concluded(resolution@, outcome.failure()) == Err::<
                Seq<DirectiveModel>,
                ErrorModel,
            >(e@),
        },
{
    match outcome {
        BuildOutcome::Succeeded => Ok(
            link_plan(
                &resolution.descriptor,
                &resolution.features,
                resolution.out_dir.as_str(),
                &resolution.shim_search_path,
                resolution.checks,
            ),
        ),
        BuildOutcome::Failed { diagnostic } => Err(
            ResolveError::BackendProcessFailure { diagnostic: diagnostic.clone() },
        ),
    }
}

/// A selection of chunk sizes that is not exactly one never resolves: where
/// the platform is described and the output directory is known, resolution
/// ends with the mutual-exclusion error, before the rule table is
/// evaluated and so before any backend receives a call.
pub proof fn invalid_chunk_selection_aborts(
    s: SignalsModel,
    selection: FeatureSelection,
    options: BuildOptions,
)
    requires
        selection.chunk_count() != 1,
        described(s, options.host, options.debug, options.standard) is Ok,
        s.out_dir is Some,
    ensures
        resolved(s, selection, options) == Err::<ResolutionModel, ErrorModel>(
            ErrorModel::InvalidMutualExclusion { selected: selection.chunk_count() as u8 },
        ),
{
}

/// One resolution handed to both backends resolves the same definitions:
/// read back, the definitions that either backend recorded are those that
/// the calls of the resolution meant, in the same order, whatever flags the
/// toolchain of the compiler driver turns down.
pub proof fn backends_resolve_the_same(resolution: ResolutionModel, rejected: Set<Seq<char>>)
    ensures
        meanings::<DirectBuilder>(
            configured::<DirectBuilder>(PlanModel::empty(), rejected, resolution).defines,
        ) == semantic_defines(resolution.calls),
        meanings::<GeneratorBuilder>(
            configured::<GeneratorBuilder>(
                PlanModel::empty(),
                Set::<Seq<char>>::full(),
                resolution,
            ).defines,
        ) == semantic_defines(resolution.calls),
{
    let debug = resolution.descriptor.debug;
    let direct = PlanModel::empty().with_wiring(DirectBuilder::wiring(debug)).with_out_dir(
        resolution.out_dir,
    );
    let generator = PlanModel::empty().with_wiring(GeneratorBuilder::wiring(debug)).with_out_dir(
        resolution.out_dir,
    );
    calls_extend_plan::<DirectBuilder>(direct, rejected, resolution.calls);
    calls_extend_plan::<GeneratorBuilder>(generator, Set::<Seq<char>>::full(), resolution.calls);
    assert(meanings::<DirectBuilder>(direct.defines) + semantic_defines(resolution.calls)
        =~= semantic_defines(resolution.calls));
    assert(meanings::<GeneratorBuilder>(generator.defines) + semantic_defines(resolution.calls)
        =~= semantic_defines(resolution.calls));
}

} // verus!
