//! The builder interface: the operations that every backend supports, what
//! each records, and what the record means whichever backend wrote it.

use crate::call::{calls_view, BuilderCall, CallModel, CompilerDefine, CompilerDefineModel};
use crate::meaning::{
    semantic_compiler_define, semantic_define, semantic_defines, SemanticDefine,
};
use crate::plan::{DefineModel, PlanModel, WiringModel};
use vstd::prelude::*;

verus! {

/// The operations that every build backend supports. A backend records what
/// it is told in a plan, each definition in its own spelling; `meaning`
/// reads a recorded definition back.
pub trait BuilderDefine: Sized {
    /// The plan recorded so far.
    spec fn plan(&self) -> PlanModel;

    /// The flags that the probed toolchain turns down.
    spec fn rejected(&self) -> Set<Seq<char>>;

    /// How this backend records a plain definition.
    spec fn written_define(key: Seq<char>, value: Seq<char>) -> DefineModel;

    /// How this backend records a definition at the level of the compiler.
    spec fn written_compiler_define(define: CompilerDefineModel) -> DefineModel;

    /// What a definition recorded by this backend means.
    spec fn meaning(entry: DefineModel) -> SemanticDefine;

    /// The wiring that this backend applies to every build.
    spec fn wiring(debug: bool) -> Seq<WiringModel>;

    /// The spelling of a plain definition loses nothing.
    proof fn define_is_faithful(key: Seq<char>, value: Seq<char>)
        ensures
            Self::meaning(Self::written_define(key, value)) == semantic_define(key, value),
    ;

    /// The spelling of a definition at the level of the compiler loses
    /// nothing.
    proof fn compiler_define_is_faithful(define: CompilerDefineModel)
        ensures
            Self::meaning(Self::written_compiler_define(define)) == semantic_compiler_define(
                define,
            ),
    ;

    /// Sets `key` to `value`.
    fn define(&mut self, key: &str, value: &str)
        ensures
            final(self).plan() == old(self).plan().with_define(
                Self::written_define(key@, value@),
            ),
            final(self).rejected() == old(self).rejected(),
    ;

    /// Offers `flag` to the toolchain. A flag that the toolchain turns down
    /// is dropped: the plan stays as it was, and the call succeeds.
    fn flag_if_supported(&mut self, flag: &str)
        ensures
            final(self).plan() == old(self).plan().with_flag(old(self).rejected(), flag@),
            final(self).rejected() == old(self).rejected(),
    ;

    /// Names the artifact to build and returns the directory that will
    /// hold it. The plan is complete then; running the toolchain on it is
    /// left to the caller, who reports how it ended.
    fn build_lib(&mut self, target_lib: &str) -> (dir: String)
        requires
            old(self).plan().out_dir is Some,
        ensures
            Some(dir@) == old(self).plan().out_dir,
            final(self).plan() == old(self).plan().with_target(target_lib@),
            final(self).rejected() == old(self).rejected(),
    ;

    /// Sets the directory that receives the artifact.
    fn configure_output_dir(&mut self, out_dir: &str)
        ensures
            final(self).plan() == old(self).plan().with_out_dir(out_dir@),
            final(self).rejected() == old(self).rejected(),
    ;

    /// Applies the wiring that every build of the native sources shares.
    fn configure_cpp(&mut self, debug: bool)
        ensures
            final(self).plan() == old(self).plan().with_wiring(Self::wiring(debug)),
            final(self).rejected() == old(self).rejected(),
    ;

    /// Makes a definition at the level of the compiler, in the spelling of
    /// this backend.
    fn compiler_define(&mut self, define: &CompilerDefine)
        ensures
            final(self).plan() == old(self).plan().with_define(
                Self::written_compiler_define(define@),
            ),
            final(self).rejected() == old(self).rejected(),
    ;
}

/// The plan of backend `B` after one call.
pub open spec fn after_call<B: BuilderDefine>(
    plan: PlanModel,
    rejected: Set<Seq<char>>,
    call: CallModel,
) -> PlanModel {
    match call {
        CallModel::Define { key, value } => plan.with_define(B::written_define(key, value)),
        CallModel::FlagIfSupported { flag } => plan.with_flag(rejected, flag),
        CallModel::CompilerDefine { define } => plan.with_define(
            B::written_compiler_define(define),
        ),
    }
}

/// The plan of backend `B` after a list of calls, made in order.
pub open spec fn after_calls<B: BuilderDefine>(
    plan: PlanModel,
    rejected: Set<Seq<char>>,
    calls: Seq<CallModel>,
) -> PlanModel
    decreases calls.len(),
{
    if calls.len() == 0 {
        plan
    } else {
        after_call::<B>(after_calls::<B>(plan, rejected, calls.drop_last()), rejected, calls.last())
    }
}

/// What the definitions of a plan mean, read as backend `B` wrote them.
pub open spec fn meanings<B: BuilderDefine>(defines: Seq<DefineModel>) -> Seq<SemanticDefine> {
    defines.map_values(|entry: DefineModel| B::meaning(entry))
}

/// Makes one call against a backend.
pub fn apply_call<B: BuilderDefine>(builder: &mut B, call: &BuilderCall)
    ensures
        final(builder).plan() == after_call::<B>(
            old(builder).plan(),
            old(builder).rejected(),
            call@,
        ),
        final(builder).rejected() == old(builder).rejected(),
{
    match call {
        BuilderCall::Define { key, value } => builder.define(key.as_str(), value.as_str()),
        BuilderCall::FlagIfSupported { flag } => builder.flag_if_supported(flag.as_str()),
        BuilderCall::CompilerDefine { define } => builder.compiler_define(define),
    }
}

/// Makes the calls against a backend, in order. The calls do not depend on
/// the backend; what is recorded does.
pub fn drive<B: BuilderDefine>(builder: &mut B, calls: &Vec<BuilderCall>)
    ensures
        final(builder).plan() == after_calls::<B>(
            old(builder).plan(),
            old(builder).rejected(),
            calls_view(calls@),
        ),
        final(builder).rejected() == old(builder).rejected(),
{
    let ghost all = calls_view(calls@);
    let ghost start = builder.plan();
    let ghost rejected = builder.rejected();
    let mut i: usize = 0;
    while i < calls.len()
        invariant
            i <= calls@.len(),
            all == calls_view(calls@),
            builder.rejected() == rejected,
            builder.plan() == after_calls::<B>(start, rejected, all.take(i as int)),
        decreases calls@.len() - i,
    {
        proof {
            assert(all.take(i + 1).drop_last() =~= all.take(i as int));
            assert(all.take(i + 1).last() == calls@[i as int]@);
        }
        apply_call(builder, &calls[i]);
        i = i + 1;
    }
    assert(all.take(i as int) =~= all);
}

/// The flags that a list of calls offers, in the order of the calls.
pub open spec fn offered(calls: Seq<CallModel>) -> Seq<Seq<char>>
    decreases calls.len(),
{
    if calls.len() == 0 {
        Seq::empty()
    } else {
        match calls.last() {
            CallModel::FlagIfSupported { flag } => offered(calls.drop_last()).push(flag),
            _ => offered(calls.drop_last()),
        }
    }
}

/// The flags that a list of calls offers, in the order of the calls: what
/// a probe of the toolchain has to try.
pub fn offered_flags(calls: &Vec<BuilderCall>) -> (flags: Vec<String>)
    ensures
        flags@.map_values(|f: String| f@) == offered(calls_view(calls@)),
{
    let ghost all = calls_view(calls@);
    let mut flags: Vec<String> = Vec::new();
    let mut i: usize = 0;
    assert(flags@.map_values(|f: String| f@) =~= offered(all.take(0)));
    while i < calls.len()
        invariant
            i <= calls@.len(),
            all == calls_view(calls@),
            flags@.map_values(|f: String| f@) == offered(all.take(i as int)),
        decreases calls@.len() - i,
    {
        proof {
            assert(all.take(i + 1).drop_last() =~= all.take(i as int));
            assert(all.take(i + 1).last() == calls@[i as int]@);
        }
        let ghost before = flags@.map_values(|f: String| f@);
        match &calls[i] {
            BuilderCall::FlagIfSupported { flag } => {
                flags.push(flag.clone());
                assert(flags@.map_values(|f: String| f@) =~= before.push(flag@));
            },
            _ => {},
        }
        i = i + 1;
    }
    assert(all.take(i as int) =~= all);
    flags
}

/// The flags among those that a list of calls offers which a toolchain
/// accepts, in the order of the calls.
pub open spec fn accepted_flags(rejected: Set<Seq<char>>, calls: Seq<CallModel>) -> Seq<Seq<char>>
    decreases calls.len(),
{
    if calls.len() == 0 {
        Seq::empty()
    } else {
        let before = accepted_flags(rejected, calls.drop_last());
        match calls.last() {
            CallModel::FlagIfSupported { flag } => if rejected.contains(flag) {
                before
            } else {
                before.push(flag)
            },
            _ => before,
        }
    }
}

/// A list of calls changes a plan in two places only: the definitions grow
/// by one entry per defining call, which means what the call meant, and the
/// flags grow by the offered flags that the toolchain accepts.
pub proof fn calls_extend_plan<B: BuilderDefine>(
    plan: PlanModel,
    rejected: Set<Seq<char>>,
    calls: Seq<CallModel>,
)
    ensures
        meanings::<B>(after_calls::<B>(plan, rejected, calls).defines) == meanings::<B>(
            plan.defines,
        ) + semantic_defines(calls),
        after_calls::<B>(plan, rejected, calls).flags == plan.flags + accepted_flags(
            rejected,
            calls,
        ),
        after_calls::<B>(plan, rejected, calls).wiring == plan.wiring,
        after_calls::<B>(plan, rejected, calls).out_dir == plan.out_dir,
        after_calls::<B>(plan, rejected, calls).target == plan.target,
    decreases calls.len(),
{
    if calls.len() == 0 {
        assert(meanings::<B>(plan.defines) + semantic_defines(calls) =~= meanings::<B>(
            plan.defines,
        ));
        assert(plan.flags + accepted_flags(rejected, calls) =~= plan.flags);
    } else {
        let before = after_calls::<B>(plan, rejected, calls.drop_last());
        calls_extend_plan::<B>(plan, rejected, calls.drop_last());
        let after = after_calls::<B>(plan, rejected, calls);
        match calls.last() {
            CallModel::Define { key, value } => {
                B::define_is_faithful(key, value);
                assert(meanings::<B>(after.defines) =~= meanings::<B>(before.defines).push(
                    semantic_define(key, value),
                ));
            },
            CallModel::FlagIfSupported { flag } => {},
            CallModel::CompilerDefine { define } => {
                B::compiler_define_is_faithful(define);
                assert(meanings::<B>(after.defines) =~= meanings::<B>(before.defines).push(
                    semantic_compiler_define(define),
                ));
            },
        }
        assert(meanings::<B>(after.defines) =~= meanings::<B>(plan.defines) + semantic_defines(
            calls,
        ));
        assert(after.flags =~= plan.flags + accepted_flags(rejected, calls));
    }
}

/// Two backends that receive the same calls resolve the same definitions:
/// read back, the definitions of both plans are those that the calls meant,
/// in the same order, however each backend spells a boolean and whatever
/// flags its toolchain accepts.
pub proof fn backends_agree<A: BuilderDefine, B: BuilderDefine>(
    calls: Seq<CallModel>,
    rejected_a: Set<Seq<char>>,
    rejected_b: Set<Seq<char>>,
)
    ensures
        meanings::<A>(after_calls::<A>(PlanModel::empty(), rejected_a, calls).defines)
            == semantic_defines(calls),
        meanings::<B>(after_calls::<B>(PlanModel::empty(), rejected_b, calls).defines)
            == semantic_defines(calls),
        meanings::<A>(after_calls::<A>(PlanModel::empty(), rejected_a, calls).defines).to_set()
            == meanings::<B>(
            after_calls::<B>(PlanModel::empty(), rejected_b, calls).defines,
        ).to_set(),
{
    calls_extend_plan::<A>(PlanModel::empty(), rejected_a, calls);
    calls_extend_plan::<B>(PlanModel::empty(), rejected_b, calls);
    assert(meanings::<A>(PlanModel::empty().defines) + semantic_defines(calls)
        =~= semantic_defines(calls));
    assert(meanings::<B>(PlanModel::empty().defines) + semantic_defines(calls)
        =~= semantic_defines(calls));
}

/// No accepted flag is one that the toolchain turns down, and every offered
/// flag that it does not turn down is accepted.
pub proof fn accepted_flags_are_supported(rejected: Set<Seq<char>>, calls: Seq<CallModel>)
    ensures
        forall|i: int|
            0 <= i < accepted_flags(rejected, calls).len() ==> !rejected.contains(
                #[trigger] accepted_flags(rejected, calls)[i],
            ),
        forall|i: int|
            0 <= i < calls.len() ==> (#[trigger] calls[i] matches CallModel::FlagIfSupported {
                flag,
            } ==> (accepted_flags(rejected, calls).contains(flag) <==> !rejected.contains(flag))),
    decreases calls.len(),
{
    if calls.len() > 0 {
        let shorter = calls.drop_last();
        accepted_flags_are_supported(rejected, shorter);
        let before = accepted_flags(rejected, shorter);
        let now = accepted_flags(rejected, calls);
        assert forall|i: int| 0 <= i < calls.len() implies (#[trigger] calls[i]
            matches CallModel::FlagIfSupported { flag } ==> (now.contains(flag)
            <==> !rejected.contains(flag))) by {
            if let CallModel::FlagIfSupported { flag } = calls[i] {
                if !rejected.contains(flag) {
                    if i < shorter.len() {
                        assert(shorter[i] == calls[i]);
                        assert(before.contains(flag));
                        let k = choose|k: int| 0 <= k < before.len() && before[k] == flag;
                        assert(now[k] == flag);
                    } else {
                        assert(calls.last() == calls[i]);
                        assert(now == before.push(flag));
                        assert(now[before.len() as int] == flag);
                    }
                } else {
                    if now.contains(flag) {
                        let k = choose|k: int| 0 <= k < now.len() && now[k] == flag;
                        assert(!rejected.contains(now[k]));
                    }
                }
            }
        }
    }
}

/// A flag that the probed toolchain turns down does not appear among the
/// flags of the plan, whatever calls were made, provided it was not there
/// before; the calls are made all the same.
pub proof fn rejected_flags_are_dropped<B: BuilderDefine>(
    plan: PlanModel,
    rejected: Set<Seq<char>>,
    calls: Seq<CallModel>,
    flag: Seq<char>,
)
    requires
        rejected.contains(flag),
        !plan.flags.contains(flag),
    ensures
        !after_calls::<B>(plan, rejected, calls).flags.contains(flag),
{
    calls_extend_plan::<B>(plan, rejected, calls);
    accepted_flags_are_supported(rejected, calls);
    let flags = after_calls::<B>(plan, rejected, calls).flags;
    let accepted = accepted_flags(rejected, calls);
    if flags.contains(flag) {
        let k = choose|k: int| 0 <= k < flags.len() && flags[k] == flag;
        if k < plan.flags.len() {
            assert(plan.flags[k] == flag);
        } else {
            assert(accepted[k - plan.flags.len()] == flag);
        }
    }
}

} // verus!
