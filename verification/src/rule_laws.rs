//! What holds of every list of calls that the rule table emits.

use crate::call::{compiler_text, define, flag, switch, CallModel, CompilerDefineModel, Setting};
use crate::features::FeatureSet;
use crate::platform::DescriptorModel;
use crate::rules::{
    abi_calls, android_calls, base_calls, clang_layer_calls, cpu_calls, feature_calls,
    gnu_layer_calls, gwp_asan_calls, mingw_calls, msvc_calls, msvc_flag_calls, optional_calls,
    rule_table, subsystem_calls, toggle_calls, version_calls, windows_version,
};
use crate::signals::SignalsModel;
use vstd::prelude::*;

verus! {

/// A call that sets a key to a text at the level of the compiler.
spec fn is_compiler_text(call: CallModel) -> bool {
    call matches CallModel::CompilerDefine { define: CompilerDefineModel::Text { .. } }
}

/// No call of the part is one that sets a key to a text at the level of
/// the compiler.
spec fn free_of_compiler_text(part: Seq<CallModel>) -> bool {
    forall|i: int| 0 <= i < part.len() ==> !is_compiler_text(#[trigger] part[i])
}

/// Joining two parts that are free of such calls gives a part that is free
/// of them.
proof fn free_parts_join(a: Seq<CallModel>, b: Seq<CallModel>)
    requires
        free_of_compiler_text(a),
        free_of_compiler_text(b),
    ensures
        free_of_compiler_text(a + b),
{
    assert forall|i: int| 0 <= i < (a + b).len() implies !is_compiler_text(
        #[trigger] (a + b)[i],
    ) by {
        if i < a.len() {
            assert((a + b)[i] == a[i]);
        } else {
            assert((a + b)[i] == b[i - a.len()]);
        }
    }
}

/// The calls made for every target define no text at the level of the
/// compiler.
proof fn base_is_free(d: DescriptorModel)
    ensures
        free_of_compiler_text(base_calls(d)),
{
}

/// Nor do the calls for machine tuning.
proof fn cpu_is_free(d: DescriptorModel, f: FeatureSet)
    ensures
        free_of_compiler_text(cpu_calls(d, f)),
{
}

/// Nor do the flags offered to the Microsoft compiler.
proof fn msvc_flags_are_free()
    ensures
        free_of_compiler_text(msvc_flag_calls()),
{
}

/// Nor do the calls for the Microsoft toolchain.
proof fn msvc_is_free(d: DescriptorModel, f: FeatureSet)
    ensures
        free_of_compiler_text(msvc_calls(d, f)),
{
    let release: Seq<CallModel> = if !d.debug {
        seq![switch(Setting::NoDebug, true)]
    } else {
        Seq::empty()
    };
    let whole_program: Seq<CallModel> = if f.lto {
        seq![
            flag("/GL"@),
            define("CMAKE_INTERPROCEDURAL_OPTIMIZATION"@, "TRUE"@),
            define("SNMALLOC_IPO"@, "ON"@),
        ]
    } else {
        Seq::empty()
    };
    let flags_of_release = seq![
        define("CMAKE_CXX_FLAGS_RELEASE"@, "/O2 /Ob2 /DNDEBUG /EHsc"@),
        define("CMAKE_C_FLAGS_RELEASE"@, "/O2 /Ob2 /DNDEBUG /EHsc"@),
    ];
    msvc_flags_are_free();
    assert(free_of_compiler_text(release));
    assert(free_of_compiler_text(whole_program));
    assert(free_of_compiler_text(flags_of_release));
    free_parts_join(msvc_flag_calls(), release);
    free_parts_join(msvc_flag_calls() + release, whole_program);
    free_parts_join(msvc_flag_calls() + release + whole_program, flags_of_release);
}

/// Nor do the flags for another toolchain on Windows.
proof fn mingw_is_free()
    ensures
        free_of_compiler_text(mingw_calls()),
{
}

/// Nor do the calls of a subsystem.
proof fn subsystem_is_free(d: DescriptorModel, f: FeatureSet)
    ensures
        free_of_compiler_text(subsystem_calls(d, f)),
{
    assert(free_of_compiler_text(clang_layer_calls(f)));
    assert(free_of_compiler_text(gnu_layer_calls()));
}

/// Nor do the calls of the feature pass.
proof fn features_are_free(d: DescriptorModel, f: FeatureSet, s: SignalsModel)
    ensures
        free_of_compiler_text(feature_calls(d, f, s)),
{
    let checked = seq![
        switch(Setting::CheckLoads, f.check_loads),
        switch(Setting::PageId, f.pageid),
    ];
    let waiting = seq![switch(Setting::WaitOnAddress, f.wait_on_address)];
    assert(free_of_compiler_text(toggle_calls(d, f)));
    assert(free_of_compiler_text(optional_calls(f)));
    assert(free_of_compiler_text(checked));
    assert(free_of_compiler_text(gwp_asan_calls(f, s)));
    assert(free_of_compiler_text(waiting));
    free_parts_join(toggle_calls(d, f), optional_calls(f));
    free_parts_join(toggle_calls(d, f) + optional_calls(f), checked);
    free_parts_join(toggle_calls(d, f) + optional_calls(f) + checked, gwp_asan_calls(f, s));
    free_parts_join(
        toggle_calls(d, f) + optional_calls(f) + checked + gwp_asan_calls(f, s),
        waiting,
    );
}

/// Nor do the calls of the Android axis.
proof fn android_is_free(d: DescriptorModel, f: FeatureSet, s: SignalsModel, root: Seq<char>)
    ensures
        free_of_compiler_text(android_calls(d, f, s, root)),
{
    assert(free_of_compiler_text(abi_calls(d.target)));
}

/// Outside the version pair the rule table makes no definition of a text
/// at the level of the compiler.
proof fn only_the_pair_is_compiler_text(
    d: DescriptorModel,
    f: FeatureSet,
    s: SignalsModel,
    root: Seq<char>,
)
    ensures
        free_of_compiler_text(base_calls(d)),
        free_of_compiler_text(cpu_calls(d, f)),
        free_of_compiler_text(msvc_calls(d, f)),
        free_of_compiler_text(mingw_calls()),
        free_of_compiler_text(subsystem_calls(d, f)),
        free_of_compiler_text(feature_calls(d, f, s)),
        free_of_compiler_text(android_calls(d, f, s, root)),
{
    base_is_free(d);
    cpu_is_free(d, f);
    msvc_is_free(d, f);
    mingw_is_free();
    subsystem_is_free(d, f);
    features_are_free(d, f, s);
    android_is_free(d, f, s, root);
}

/// The two values of the Windows-version definitions differ.
proof fn versions_differ()
    ensures
        windows_version(true) != windows_version(false),
{
    reveal_strlit("0x0603");
    reveal_strlit("0x0A00");
    assert("0x0603"@[3] == '6');
    assert("0x0A00"@[3] == 'A');
}

/// Moving the brackets of a list of calls so that the version pair stands
/// between what precedes it and what follows it.
proof fn regroup(
    base: Seq<CallModel>,
    cpu: Seq<CallModel>,
    toolchain: Seq<CallModel>,
    pair: Seq<CallModel>,
    layer: Seq<CallModel>,
    features: Seq<CallModel>,
    last: Seq<CallModel>,
)
    ensures
        base + cpu + (toolchain + pair + layer) + features + last == (base + cpu + toolchain)
            + pair + (layer + features + last),
        toolchain + pair == toolchain + pair + Seq::<CallModel>::empty(),
        base + cpu + (toolchain + pair + layer) + features == base + cpu + (toolchain + pair
            + layer) + features + Seq::<CallModel>::empty(),
{
    assert(base + cpu + (toolchain + pair + layer) + features + last =~= (base + cpu + toolchain)
        + pair + (layer + features + last));
    assert(toolchain + pair =~= toolchain + pair + Seq::<CallModel>::empty());
    assert(base + cpu + (toolchain + pair + layer) + features =~= base + cpu + (toolchain + pair
        + layer) + features + Seq::<CallModel>::empty());
}

/// A definition of a text at the level of the compiler occurs in a list
/// exactly if it occurs in the one part that is not free of them.
proof fn found_in_the_pair(
    before: Seq<CallModel>,
    pair: Seq<CallModel>,
    after: Seq<CallModel>,
    call: CallModel,
)
    requires
        free_of_compiler_text(before),
        free_of_compiler_text(after),
        is_compiler_text(call),
    ensures
        (before + pair + after).contains(call) == pair.contains(call),
{
    let all = before + pair + after;
    let k = before.len() as int;
    if pair.contains(call) {
        let i = choose|i: int| 0 <= i < pair.len() && pair[i] == call;
        assert(all[k + i] == call);
    }
    if all.contains(call) {
        let i = choose|i: int| 0 <= i < all.len() && all[i] == call;
        if i < k {
            assert(all[i] == before[i]);
        } else if i < k + pair.len() {
            assert(pair[i - k] == call);
        } else {
            assert(all[i] == after[i - k - pair.len()]);
        }
    }
}

/// What it means for a list of two calls to contain a call.
proof fn one_of_two(first: CallModel, second: CallModel, call: CallModel)
    ensures
        seq![first, second].contains(call) == (call == first || call == second),
{
    let pair = seq![first, second];
    if call == first {
        assert(pair[0] == call);
    }
    if call == second {
        assert(pair[1] == call);
    }
}

/// The calls of the rule table for a Windows target, with the version pair
/// set apart: what precedes the pair, and what follows it.
spec fn around_the_pair(d: DescriptorModel, f: FeatureSet, s: SignalsModel) -> (
    Seq<CallModel>,
    Seq<CallModel>,
) {
    (
        base_calls(d) + cpu_calls(d, f) + (if d.is_msvc() {
            msvc_calls(d, f)
        } else {
            mingw_calls()
        }),
        (if d.is_msvc() {
            Seq::empty()
        } else {
            subsystem_calls(d, f)
        }) + feature_calls(d, f, s) + (if d.is_android() && s.ndk_root is Some {
            android_calls(d, f, s, s.ndk_root->0)
        } else {
            Seq::empty()
        }),
    )
}

/// For a Windows target the calls are what precedes the pair, the pair, and
/// what follows it; and only the pair defines a text at the level of the
/// compiler.
proof fn pair_stands_alone(d: DescriptorModel, f: FeatureSet, s: SignalsModel)
    requires
        d.is_windows(),
        rule_table(d, f, s) is Ok,
    ensures
        rule_table(d, f, s)->Ok_0 == around_the_pair(d, f, s).0 + version_calls(f)
            + around_the_pair(d, f, s).1,
        free_of_compiler_text(around_the_pair(d, f, s).0),
        free_of_compiler_text(around_the_pair(d, f, s).1),
{
    let root = if s.ndk_root is Some {
        s.ndk_root->0
    } else {
        Seq::empty()
    };
    only_the_pair_is_compiler_text(d, f, s, root);
    let toolchain = if d.is_msvc() {
        msvc_calls(d, f)
    } else {
        mingw_calls()
    };
    let layer = if d.is_msvc() {
        Seq::empty()
    } else {
        subsystem_calls(d, f)
    };
    let last = if d.is_android() {
        android_calls(d, f, s, root)
    } else {
        Seq::empty()
    };
    regroup(
        base_calls(d),
        cpu_calls(d, f),
        toolchain,
        version_calls(f),
        layer,
        feature_calls(d, f, s),
        last,
    );
    free_parts_join(base_calls(d), cpu_calls(d, f));
    free_parts_join(base_calls(d) + cpu_calls(d, f), toolchain);
    free_parts_join(layer, feature_calls(d, f, s));
    free_parts_join(layer + feature_calls(d, f, s), last);
}

/// For a Windows target the rule table defines exactly one pair of Windows
/// versions: that of Windows 8.1 when the compatibility toggle is on, that
/// of Windows 10 when it is off; never both, never neither.
pub proof fn version_pair_is_exclusive(d: DescriptorModel, f: FeatureSet, s: SignalsModel)
    requires
        d.is_windows(),
        rule_table(d, f, s) is Ok,
    ensures
        rule_table(d, f, s)->Ok_0.contains(compiler_text("WINVER"@, "0x0603"@)) == f.win8_compat,
        rule_table(d, f, s)->Ok_0.contains(compiler_text("_WIN32_WINNT"@, "0x0603"@))
            == f.win8_compat,
        rule_table(d, f, s)->Ok_0.contains(compiler_text("WINVER"@, "0x0A00"@)) == !f.win8_compat,
        rule_table(d, f, s)->Ok_0.contains(compiler_text("_WIN32_WINNT"@, "0x0A00"@))
            == !f.win8_compat,
{
    pair_stands_alone(d, f, s);
    versions_differ();
    let before = around_the_pair(d, f, s).0;
    let after = around_the_pair(d, f, s).1;
    let pair = version_calls(f);
    let first = compiler_text("WINVER"@, windows_version(f.win8_compat));
    let second = compiler_text("_WIN32_WINNT"@, windows_version(f.win8_compat));
    assert(pair == seq![first, second]);
    reveal_strlit("WINVER");
    reveal_strlit("_WIN32_WINNT");
    assert("WINVER"@.len() != "_WIN32_WINNT"@.len());
    let old_winver = compiler_text("WINVER"@, "0x0603"@);
    let old_winnt = compiler_text("_WIN32_WINNT"@, "0x0603"@);
    let new_winver = compiler_text("WINVER"@, "0x0A00"@);
    let new_winnt = compiler_text("_WIN32_WINNT"@, "0x0A00"@);
    found_in_the_pair(before, pair, after, old_winver);
    found_in_the_pair(before, pair, after, old_winnt);
    found_in_the_pair(before, pair, after, new_winver);
    found_in_the_pair(before, pair, after, new_winnt);
    one_of_two(first, second, old_winver);
    one_of_two(first, second, old_winnt);
    one_of_two(first, second, new_winver);
    one_of_two(first, second, new_winnt);
}

/// Moving the brackets of a list of calls so that the calls of the
/// subsystem stand between what precedes them and what follows them.
proof fn regroup_layer(
    base: Seq<CallModel>,
    cpu: Seq<CallModel>,
    toolchain: Seq<CallModel>,
    layer: Seq<CallModel>,
    features: Seq<CallModel>,
    last: Seq<CallModel>,
)
    ensures
        base + cpu + (toolchain + layer) + features + last == (base + cpu + toolchain) + layer + (
        features + last),
        base + cpu + (toolchain + layer) + features == (base + cpu + toolchain) + layer + (
        features + Seq::<CallModel>::empty()),
        (base + cpu + toolchain) + Seq::<CallModel>::empty() + (features + last) == base + cpu + (
        toolchain + Seq::<CallModel>::empty()) + features + last,
        (base + cpu + toolchain) + Seq::<CallModel>::empty() + (features + Seq::<
            CallModel,
        >::empty()) == base + cpu + (toolchain + Seq::<CallModel>::empty()) + features,
{
    let none = Seq::<CallModel>::empty();
    assert(base + cpu + (toolchain + layer) + features + last =~= (base + cpu + toolchain) + layer
        + (features + last));
    assert(base + cpu + (toolchain + layer) + features =~= (base + cpu + toolchain) + layer + (
    features + none));
    assert((base + cpu + toolchain) + none + (features + last) =~= base + cpu + (toolchain + none)
        + features + last);
    assert((base + cpu + toolchain) + none + (features + none) =~= base + cpu + (toolchain + none)
        + features);
}

/// What is put between two parts removes nothing from them.
proof fn insertion_keeps(
    before: Seq<CallModel>,
    layer: Seq<CallModel>,
    after: Seq<CallModel>,
)
    ensures
        forall|i: int|
            0 <= i < (before + Seq::<CallModel>::empty() + after).len() ==> (before + layer
                + after).contains(#[trigger] (before + Seq::<CallModel>::empty() + after)[i]),
{
    let plain = before + Seq::<CallModel>::empty() + after;
    let full = before + layer + after;
    assert forall|i: int| 0 <= i < plain.len() implies full.contains(#[trigger] plain[i]) by {
        if i < before.len() {
            assert(full[i] == plain[i]);
        } else {
            assert(full[i + layer.len()] == plain[i]);
        }
    }
}

/// The descriptor without its subsystem marker.
pub open spec fn without_subsystem(d: DescriptorModel) -> DescriptorModel {
    DescriptorModel { msystem: None, ..d }
}

/// A more specific value of an axis adds to the calls of the more general
/// one and removes none: every call that the rule table makes for a target
/// without subsystem marker, it also makes for the same target with one.
pub proof fn subsystem_only_adds(d: DescriptorModel, f: FeatureSet, s: SignalsModel)
    requires
        rule_table(d, f, s) is Ok,
    ensures
        rule_table(without_subsystem(d), f, s) is Ok,
        forall|i: int|
            0 <= i < rule_table(without_subsystem(d), f, s)->Ok_0.len() ==> rule_table(
                d,
                f,
                s,
            )->Ok_0.contains(#[trigger] rule_table(without_subsystem(d), f, s)->Ok_0[i]),
{
    let plain = without_subsystem(d);
    let with_marker = rule_table(d, f, s)->Ok_0;
    let without_marker = rule_table(plain, f, s)->Ok_0;
    if d.is_windows() && !d.is_msvc() {
        let toolchain = mingw_calls() + version_calls(f);
        let layer = subsystem_calls(d, f);
        let last = if d.is_android() {
            android_calls(d, f, s, s.ndk_root->0)
        } else {
            Seq::empty()
        };
        assert(android_calls(plain, f, s, s.ndk_root->0) == android_calls(d, f, s, s.ndk_root->0));
        assert(feature_calls(plain, f, s) == feature_calls(d, f, s));
        assert(base_calls(plain) == base_calls(d));
        assert(cpu_calls(plain, f) == cpu_calls(d, f));
        assert(subsystem_calls(plain, f) == Seq::<CallModel>::empty());
        regroup_layer(
            base_calls(d),
            cpu_calls(d, f),
            toolchain,
            layer,
            feature_calls(d, f, s),
            last,
        );
        let before = base_calls(d) + cpu_calls(d, f) + toolchain;
        let after = if d.is_android() {
            feature_calls(d, f, s) + last
        } else {
            feature_calls(d, f, s) + Seq::<CallModel>::empty()
        };
        assert(with_marker == before + layer + after);
        assert(without_marker == before + Seq::<CallModel>::empty() + after);
        insertion_keeps(before, layer, after);
    } else {
        assert(without_marker == with_marker);
        assert forall|i: int| 0 <= i < without_marker.len() implies with_marker.contains(
            #[trigger] without_marker[i],
        ) by {
            assert(with_marker[i] == without_marker[i]);
        }
    }
}

} // verus!
