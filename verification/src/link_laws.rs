//! What holds of every link plan that the table emits.

use crate::features::FeatureSet;
use crate::link::{
    argument, artifact, artifact_directives, artifact_section, code_generation_directives,
    library, link_table, linux_libraries, mingw_libraries, msvc_libraries, no_whole_archive,
    platform_libraries, search_directives, shim_directives, whole_archive, DirectiveModel,
    LinkKind,
};
use crate::platform::DescriptorModel;
use vstd::prelude::*;

verus! {

/// A library that only a Unix system has.
pub open spec fn is_unix_only_library(name: Seq<char>) -> bool {
    name == "pthread"@ || name == "dl"@ || name == "c"@ || name == "m"@ || name == "rt"@ || name
        == "util"@ || name == "gcc_s"@ || name == "c_nonshared"@
}

/// A directive that links a library that only a Unix system has.
pub open spec fn is_unix_only(directive: DirectiveModel) -> bool {
    match directive {
        DirectiveModel::Library { kind, name } => is_unix_only_library(name),
        _ => false,
    }
}

/// A directive that links the atomics library.
pub open spec fn links_atomics(directive: DirectiveModel) -> bool {
    match directive {
        DirectiveModel::Library { kind, name } => name == "atomic"@,
        _ => false,
    }
}

/// How many of the first `n` directives link the atomics library.
pub open spec fn atomics_among(plan: Seq<DirectiveModel>, n: int) -> int
    decreases n,
{
    if n <= 0 {
        0
    } else {
        atomics_among(plan, n - 1) + if links_atomics(plan[n - 1]) {
            1int
        } else {
            0int
        }
    }
}

/// The state of the whole-archive bracket after one more directive:
/// whether it is open, or nothing where the directive opens an open bracket
/// or closes a closed one.
pub open spec fn bracket_step(open: bool, directive: DirectiveModel) -> Option<bool> {
    if directive == whole_archive() {
        if open {
            None
        } else {
            Some(true)
        }
    } else if directive == no_whole_archive() {
        if open {
            Some(false)
        } else {
            None
        }
    } else {
        Some(open)
    }
}

/// The state of the whole-archive bracket after the first `n` directives.
pub open spec fn bracket_after(plan: Seq<DirectiveModel>, n: int) -> Option<bool>
    decreases n,
{
    if n <= 0 {
        Some(false)
    } else {
        match bracket_after(plan, n - 1) {
            Some(open) => bracket_step(open, plan[n - 1]),
            None => None,
        }
    }
}

/// Every bracket that is opened is closed again, and none is opened or
/// closed twice in a row.
pub open spec fn brackets_paired(plan: Seq<DirectiveModel>) -> bool {
    bracket_after(plan, plan.len() as int) == Some(false)
}

/// No search path follows a library.
pub open spec fn paths_precede_libraries(plan: Seq<DirectiveModel>) -> bool {
    forall|i: int, j: int|
        0 <= i < j < plan.len() && (#[trigger] plan[i] is Library) ==> !(
        #[trigger] plan[j] is SearchPath)
}

/// The texts of the raw arguments are pairwise different.
proof fn arguments_differ()
    ensures
        whole_archive() != no_whole_archive(),
        argument("/LTCG"@) != whole_archive(),
        argument("/LTCG"@) != no_whole_archive(),
        argument("-fuse-ld=lld"@) != whole_archive(),
        argument("-fuse-ld=lld"@) != no_whole_archive(),
{
    reveal_strlit("-Wl,--whole-archive");
    reveal_strlit("-Wl,--no-whole-archive");
    reveal_strlit("/LTCG");
    reveal_strlit("-fuse-ld=lld");
    assert("-Wl,--whole-archive"@.len() == 19);
    assert("-Wl,--no-whole-archive"@.len() == 22);
    assert("/LTCG"@.len() == 5);
    assert("-fuse-ld=lld"@.len() == 12);
}

/// Directives that are no bracket leave the state of the bracket alone.
proof fn quiet_range(plan: Seq<DirectiveModel>, lo: int, hi: int)
    requires
        0 <= lo <= hi <= plan.len(),
        bracket_after(plan, lo) is Some,
        forall|i: int|
            lo <= i < hi ==> #[trigger] plan[i] != whole_archive() && plan[i]
                != no_whole_archive(),
    ensures
        bracket_after(plan, hi) == bracket_after(plan, lo),
    decreases hi - lo,
{
    if lo < hi {
        quiet_range(plan, lo, hi - 1);
        assert(plan[hi - 1] != whole_archive() && plan[hi - 1] != no_whole_archive());
    }
}

/// A directive that is neither part of a bracket nor a search path.
spec fn is_plain(directive: DirectiveModel) -> bool {
    directive != whole_archive() && directive != no_whole_archive() && !(directive is SearchPath)
}

/// Every directive of the part is plain.
spec fn all_plain(part: Seq<DirectiveModel>) -> bool {
    forall|i: int| 0 <= i < part.len() ==> is_plain(#[trigger] part[i])
}

/// The libraries of the Microsoft toolchain are plain.
proof fn msvc_libraries_are_plain(d: DescriptorModel, f: FeatureSet)
    ensures
        all_plain(msvc_libraries(d, f)),
{
}

/// The libraries of another toolchain on Windows are plain.
proof fn mingw_libraries_are_plain(d: DescriptorModel)
    ensures
        all_plain(mingw_libraries(d)),
{
}

/// The libraries of Linux are plain.
proof fn linux_libraries_are_plain(d: DescriptorModel)
    ensures
        all_plain(linux_libraries(d)),
{
    arguments_differ();
}

/// The system libraries hold no bracket and no search path.
proof fn libraries_are_plain(d: DescriptorModel, f: FeatureSet)
    ensures
        forall|i: int|
            0 <= i < platform_libraries(d, f).len() ==> {
                let x = #[trigger] platform_libraries(d, f)[i];
                x != whole_archive() && x != no_whole_archive() && !(x is SearchPath)
            },
{
    msvc_libraries_are_plain(d, f);
    mingw_libraries_are_plain(d);
    linux_libraries_are_plain(d);
    let libraries = platform_libraries(d, f);
    assert forall|i: int| 0 <= i < libraries.len() implies is_plain(#[trigger] libraries[i]) by {
        if d.is_msvc() {
            assert(is_plain(msvc_libraries(d, f)[i]));
        } else if d.is_windows() {
            assert(is_plain(mingw_libraries(d)[i]));
        } else if d.target_os == "freebsd"@ {
        } else if d.is_linux() {
            assert(is_plain(linux_libraries(d)[i]));
        } else {
        }
    }
}

/// Every link plan is well formed: the search paths come before the
/// libraries that depend on them, and the whole-archive bracket is paired.
pub proof fn link_plan_is_well_formed(
    d: DescriptorModel,
    f: FeatureSet,
    out_dir: Seq<char>,
    shim: Option<Seq<char>>,
    checks: bool,
)
    ensures
        paths_precede_libraries(link_table(d, f, out_dir, shim, checks)),
        brackets_paired(link_table(d, f, out_dir, shim, checks)),
{
    let plan = link_table(d, f, out_dir, shim, checks);
    let head = code_generation_directives(d, f) + search_directives(out_dir) + shim_directives(
        d,
        shim,
    );
    let middle = artifact_directives(d, checks);
    let tail = platform_libraries(d, f);
    let k = head.len() as int;
    let m = k + middle.len();
    arguments_differ();
    libraries_are_plain(d, f);
    assert(plan =~= head + middle + tail);
    assert forall|i: int| 0 <= i < k implies #[trigger] plan[i] != whole_archive() && plan[i]
        != no_whole_archive() && !(plan[i] is Library) by {
        assert(plan[i] == head[i]);
    }
    assert forall|i: int| m <= i < plan.len() implies #[trigger] plan[i] != whole_archive()
        && plan[i] != no_whole_archive() && !(plan[i] is SearchPath) by {
        assert(plan[i] == tail[i - m]);
    }
    assert forall|i: int| k <= i < m implies !(#[trigger] plan[i] is SearchPath) by {
        assert(plan[i] == middle[i - k]);
    }
    quiet_range(plan, 0, k);
    if d.is_linux() {
        assert(plan[k] == middle[0]);
        assert(plan[k + 1] == middle[1]);
        assert(plan[k + 2] == middle[2]);
        assert(bracket_after(plan, k + 1) == Some(true));
        assert(bracket_after(plan, k + 2) == Some(true));
        assert(bracket_after(plan, k + 3) == Some(false));
    } else {
        assert(plan[k] == middle[0]);
        assert(bracket_after(plan, k + 1) == Some(false));
    }
    quiet_range(plan, m, plan.len() as int);
}

/// On Linux the artifact is linked statically, directly between the
/// argument that opens the whole-archive bracket and the one that closes it.
pub proof fn linux_brackets_artifact(
    d: DescriptorModel,
    f: FeatureSet,
    out_dir: Seq<char>,
    shim: Option<Seq<char>>,
    checks: bool,
)
    requires
        d.is_linux(),
    ensures
        exists|k: int|
            0 <= k && k + 2 < link_table(d, f, out_dir, shim, checks).len() && #[trigger] link_table(
                d,
                f,
                out_dir,
                shim,
                checks,
            )[k] == whole_archive() && link_table(d, f, out_dir, shim, checks)[k + 1] == (
            DirectiveModel::Library { kind: LinkKind::Static, name: artifact(checks) })
                && link_table(d, f, out_dir, shim, checks)[k + 2] == no_whole_archive(),
        brackets_paired(link_table(d, f, out_dir, shim, checks)),
{
    let plan = link_table(d, f, out_dir, shim, checks);
    let head = code_generation_directives(d, f) + search_directives(out_dir) + shim_directives(
        d,
        shim,
    );
    let middle = artifact_directives(d, checks);
    let tail = platform_libraries(d, f);
    let k = head.len() as int;
    assert(plan =~= head + middle + tail);
    assert(plan[k] == middle[0]);
    assert(plan[k + 1] == middle[1]);
    assert(plan[k + 2] == middle[2]);
    link_plan_is_well_formed(d, f, out_dir, shim, checks);
}

/// Neither name of the artifact and none of the libraries of the Microsoft
/// toolchain is a library that only a Unix system has.
proof fn msvc_names_are_not_unix()
    ensures
        !is_unix_only_library(artifact(true)),
        !is_unix_only_library(artifact(false)),
        !is_unix_only_library("mincore"@),
        !is_unix_only_library("kernel32"@),
        !is_unix_only_library("user32"@),
        !is_unix_only_library("advapi32"@),
        !is_unix_only_library("ws2_32"@),
        !is_unix_only_library("userenv"@),
        !is_unix_only_library("bcrypt"@),
        !is_unix_only_library("msvcrtd"@),
        !is_unix_only_library("msvcrt"@),
{
    reveal_strlit("pthread");
    reveal_strlit("dl");
    reveal_strlit("c");
    reveal_strlit("m");
    reveal_strlit("rt");
    reveal_strlit("util");
    reveal_strlit("gcc_s");
    reveal_strlit("c_nonshared");
    reveal_strlit("snmallocshim-checks-rust");
    reveal_strlit("snmallocshim-rust");
    reveal_strlit("mincore");
    reveal_strlit("kernel32");
    reveal_strlit("user32");
    reveal_strlit("advapi32");
    reveal_strlit("ws2_32");
    reveal_strlit("userenv");
    reveal_strlit("bcrypt");
    reveal_strlit("msvcrtd");
    reveal_strlit("msvcrt");
    assert("pthread"@.len() == 7 && "pthread"@[0] == 'p');
    assert("dl"@.len() == 2);
    assert("c"@.len() == 1);
    assert("m"@.len() == 1);
    assert("rt"@.len() == 2);
    assert("util"@.len() == 4);
    assert("gcc_s"@.len() == 5);
    assert("c_nonshared"@.len() == 11);
    assert("snmallocshim-checks-rust"@.len() == 24);
    assert("snmallocshim-rust"@.len() == 17);
    assert("mincore"@.len() == 7 && "mincore"@[0] == 'm');
    assert("kernel32"@.len() == 8);
    assert("user32"@.len() == 6);
    assert("advapi32"@.len() == 8);
    assert("ws2_32"@.len() == 6);
    assert("userenv"@.len() == 7 && "userenv"@[0] == 'u');
    assert("bcrypt"@.len() == 6);
    assert("msvcrtd"@.len() == 7 && "msvcrtd"@[0] == 'm');
    assert("msvcrt"@.len() == 6);
}

/// With the Microsoft toolchain the link plan links no library that only a
/// Unix system has, whatever the other signals say.
pub proof fn msvc_links_no_unix_library(
    d: DescriptorModel,
    f: FeatureSet,
    out_dir: Seq<char>,
    shim: Option<Seq<char>>,
    checks: bool,
)
    requires
        d.is_msvc(),
    ensures
        forall|i: int|
            0 <= i < link_table(d, f, out_dir, shim, checks).len() ==> !is_unix_only(
                #[trigger] link_table(d, f, out_dir, shim, checks)[i],
            ),
{
    let plan = link_table(d, f, out_dir, shim, checks);
    let head = code_generation_directives(d, f) + search_directives(out_dir) + shim_directives(
        d,
        shim,
    );
    let middle = artifact_directives(d, checks);
    let tail = msvc_libraries(d, f);
    let k = head.len() as int;
    let m = k + middle.len();
    msvc_names_are_not_unix();
    assert(plan =~= head + middle + tail);
    assert forall|i: int| 0 <= i < plan.len() implies !is_unix_only(#[trigger] plan[i]) by {
        if i < k {
            assert(plan[i] == head[i]);
        } else if i < m {
            assert(plan[i] == middle[i - k]);
        } else {
            assert(plan[i] == tail[i - m]);
        }
    }
}

/// The names that a Linux link plan holds beside the atomics library are
/// not that of the atomics library.
proof fn linux_names_are_not_atomics()
    ensures
        artifact(true) != "atomic"@,
        artifact(false) != "atomic"@,
        "stdc++"@ != "atomic"@,
        "pthread"@ != "atomic"@,
        "c"@ != "atomic"@,
        "gcc_s"@ != "atomic"@,
        "util"@ != "atomic"@,
        "rt"@ != "atomic"@,
        "dl"@ != "atomic"@,
        "m"@ != "atomic"@,
        "gcc"@ != "atomic"@,
{
    reveal_strlit("atomic");
    reveal_strlit("snmallocshim-checks-rust");
    reveal_strlit("snmallocshim-rust");
    reveal_strlit("stdc++");
    reveal_strlit("pthread");
    reveal_strlit("c");
    reveal_strlit("gcc_s");
    reveal_strlit("util");
    reveal_strlit("rt");
    reveal_strlit("dl");
    reveal_strlit("m");
    reveal_strlit("gcc");
    assert("atomic"@.len() == 6 && "atomic"@[0] == 'a');
    assert("snmallocshim-checks-rust"@.len() == 24);
    assert("snmallocshim-rust"@.len() == 17);
    assert("stdc++"@.len() == 6 && "stdc++"@[0] == 's');
    assert("pthread"@.len() == 7);
    assert("c"@.len() == 1);
    assert("gcc_s"@.len() == 5);
    assert("util"@.len() == 4);
    assert("rt"@.len() == 2);
    assert("dl"@.len() == 2);
    assert("m"@.len() == 1);
    assert("gcc"@.len() == 3);
}

/// Directives that do not link the atomics library do not change the count.
proof fn no_atomics_in_range(plan: Seq<DirectiveModel>, lo: int, hi: int)
    requires
        0 <= lo <= hi <= plan.len(),
        forall|i: int| lo <= i < hi ==> !links_atomics(#[trigger] plan[i]),
    ensures
        atomics_among(plan, hi) == atomics_among(plan, lo),
    decreases hi - lo,
{
    if lo < hi {
        no_atomics_in_range(plan, lo, hi - 1);
        assert(!links_atomics(plan[hi - 1]));
    }
}

/// On Linux, unless the environment is that of the Microsoft toolchain,
/// the link plan links the atomics library exactly once.
pub proof fn linux_links_atomics_once(
    d: DescriptorModel,
    f: FeatureSet,
    out_dir: Seq<char>,
    shim: Option<Seq<char>>,
    checks: bool,
)
    requires
        d.is_linux(),
        !d.is_msvc(),
    ensures
        atomics_among(
            link_table(d, f, out_dir, shim, checks),
            link_table(d, f, out_dir, shim, checks).len() as int,
        ) == 1,
{
    let plan = link_table(d, f, out_dir, shim, checks);
    let head = artifact_section(d, f, out_dir, shim, checks);
    let tail = linux_libraries(d);
    let m = head.len() as int;
    reveal_strlit("linux");
    reveal_strlit("windows");
    reveal_strlit("freebsd");
    assert("linux"@.len() == 5);
    assert("windows"@.len() == 7);
    assert("freebsd"@.len() == 7);
    assert(platform_libraries(d, f) == tail);
    linux_names_are_not_atomics();
    assert(plan =~= head + tail);
    assert forall|i: int| 0 <= i < m implies !links_atomics(#[trigger] plan[i]) by {
        assert(plan[i] == head[i]);
    }
    assert forall|i: int| m + 1 <= i < plan.len() implies !links_atomics(#[trigger] plan[i]) by {
        assert(plan[i] == tail[i - m]);
    }
    assert(plan[m] == tail[0]);
    no_atomics_in_range(plan, 0, m);
    assert(atomics_among(plan, m + 1) == 1);
    no_atomics_in_range(plan, m + 1, plan.len() as int);
}

} // verus!
