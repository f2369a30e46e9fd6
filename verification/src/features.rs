//! The feature toggles of a build and the resolution of the chunk-size group.

use crate::error::ResolveError;
use crate::signals::{lookup, Environment};
use vstd::prelude::*;

verus! {

/// The memory-page grouping granularity of the native component.
#[derive(Debug, Clone, Copy, PartialEq, Eq, Structural)]
pub enum ChunkSize {
    OneMib,
    SixteenMib,
}

/// The toggles as the caller selected them, before the chunk-size group has
/// been checked.
#[derive(Debug, Clone, Copy, PartialEq, Eq, Structural)]
pub struct FeatureSelection {
    pub native_cpu: bool,
    pub qemu_workaround: bool,
    pub wait_on_address: bool,
    pub lto: bool,
    pub notls: bool,
    pub win8_compat: bool,
    pub stats: bool,
    pub android_lld: bool,
    pub local_dynamic_tls: bool,
    pub libc_api: bool,
    pub tracing: bool,
    pub fuzzing: bool,
    pub vendored_stl: bool,
    pub check_loads: bool,
    pub pageid: bool,
    pub gwp_asan: bool,
    /// Member of the chunk-size group: one-mebibyte chunks.
    pub chunk_1mib: bool,
    /// Member of the chunk-size group: sixteen-mebibyte chunks.
    pub chunk_16mib: bool,
    /// Deprecated; accepted and without effect.
    pub cache_friendly: bool,
}

/// The resolved toggles of one build: every named toggle, exactly one
/// chunk size, and the deprecated toggle that changes nothing.
#[derive(Debug, Clone, Copy, PartialEq, Eq, Structural)]
pub struct FeatureSet {
    pub native_cpu: bool,
    pub qemu_workaround: bool,
    pub wait_on_address: bool,
    pub lto: bool,
    pub notls: bool,
    pub win8_compat: bool,
    pub stats: bool,
    pub android_lld: bool,
    pub local_dynamic_tls: bool,
    pub libc_api: bool,
    pub tracing: bool,
    pub fuzzing: bool,
    pub vendored_stl: bool,
    pub check_loads: bool,
    pub pageid: bool,
    pub gwp_asan: bool,
    pub chunk: ChunkSize,
    pub cache_friendly: bool,
}

/// Whether the environment carries an entry under `key`.
pub open spec fn present(entries: Seq<(String, String)>, key: Seq<char>) -> bool {
    lookup(entries, key) is Some
}

/// The selection that an environment carries: a toggle is selected exactly
/// if there is an entry under its key, whatever the value.
pub open spec fn selection_of(entries: Seq<(String, String)>) -> FeatureSelection {
    FeatureSelection {
        native_cpu: present(entries, "CARGO_FEATURE_NATIVE_CPU"@),
        qemu_workaround: present(entries, "CARGO_FEATURE_QEMU"@),
        wait_on_address: present(entries, "CARGO_FEATURE_USEWAIT_ON_ADDRESS"@),
        lto: present(entries, "CARGO_FEATURE_LTO"@),
        notls: present(entries, "CARGO_FEATURE_NOTLS"@),
        win8_compat: present(entries, "CARGO_FEATURE_WIN8COMPAT"@),
        stats: present(entries, "CARGO_FEATURE_STATS"@),
        android_lld: present(entries, "CARGO_FEATURE_ANDROID_LLD"@),
        local_dynamic_tls: present(entries, "CARGO_FEATURE_LOCAL_DYNAMIC_TLS"@),
        libc_api: present(entries, "CARGO_FEATURE_LIBC_API"@),
        tracing: present(entries, "CARGO_FEATURE_TRACING"@),
        fuzzing: present(entries, "CARGO_FEATURE_FUZZING"@),
        vendored_stl: present(entries, "CARGO_FEATURE_VENDORED_STL"@),
        check_loads: present(entries, "CARGO_FEATURE_CHECK_LOADS"@),
        pageid: present(entries, "CARGO_FEATURE_PAGEID"@),
        gwp_asan: present(entries, "CARGO_FEATURE_GWP_ASAN"@),
        chunk_1mib: present(entries, "CARGO_FEATURE_1MIB"@),
        chunk_16mib: present(entries, "CARGO_FEATURE_16MIB"@),
        cache_friendly: present(entries, "CARGO_FEATURE_CACHE_FRIENDLY"@),
    }
}

impl FeatureSelection {
    /// Reads the selection that the environment carries.
    pub fn read(env: &Environment) -> (r: FeatureSelection)
        ensures
            r == selection_of(env.entries@),
    {
        FeatureSelection {
            native_cpu: env.has("CARGO_FEATURE_NATIVE_CPU"),
            qemu_workaround: env.has("CARGO_FEATURE_QEMU"),
            wait_on_address: env.has("CARGO_FEATURE_USEWAIT_ON_ADDRESS"),
            lto: env.has("CARGO_FEATURE_LTO"),
            notls: env.has("CARGO_FEATURE_NOTLS"),
            win8_compat: env.has("CARGO_FEATURE_WIN8COMPAT"),
            stats: env.has("CARGO_FEATURE_STATS"),
            android_lld: env.has("CARGO_FEATURE_ANDROID_LLD"),
            local_dynamic_tls: env.has("CARGO_FEATURE_LOCAL_DYNAMIC_TLS"),
            libc_api: env.has("CARGO_FEATURE_LIBC_API"),
            tracing: env.has("CARGO_FEATURE_TRACING"),
            fuzzing: env.has("CARGO_FEATURE_FUZZING"),
            vendored_stl: env.has("CARGO_FEATURE_VENDORED_STL"),
            check_loads: env.has("CARGO_FEATURE_CHECK_LOADS"),
            pageid: env.has("CARGO_FEATURE_PAGEID"),
            gwp_asan: env.has("CARGO_FEATURE_GWP_ASAN"),
            chunk_1mib: env.has("CARGO_FEATURE_1MIB"),
            chunk_16mib: env.has("CARGO_FEATURE_16MIB"),
            cache_friendly: env.has("CARGO_FEATURE_CACHE_FRIENDLY"),
        }
    }

    /// How many members of the chunk-size group are selected.
    pub open spec fn chunk_count(self) -> int {
        (if self.chunk_1mib {
            1int
        } else {
            0int
        }) + (if self.chunk_16mib {
            1int
        } else {
            0int
        })
    }

    /// The one selected chunk size, where exactly one is selected.
    pub open spec fn chosen_chunk(self) -> ChunkSize {
        if self.chunk_1mib {
            ChunkSize::OneMib
        } else {
            ChunkSize::SixteenMib
        }
    }

    /// The feature set that a valid selection resolves to.
    pub open spec fn resolved(self) -> FeatureSet {
        FeatureSet {
            native_cpu: self.native_cpu,
            qemu_workaround: self.qemu_workaround,
            wait_on_address: self.wait_on_address,
            lto: self.lto,
            notls: self.notls,
            win8_compat: self.win8_compat,
            stats: self.stats,
            android_lld: self.android_lld,
            local_dynamic_tls: self.local_dynamic_tls,
            libc_api: self.libc_api,
            tracing: self.tracing,
            fuzzing: self.fuzzing,
            vendored_stl: self.vendored_stl,
            check_loads: self.check_loads,
            pageid: self.pageid,
            gwp_asan: self.gwp_asan,
            chunk: self.chosen_chunk(),
            cache_friendly: self.cache_friendly,
        }
    }

    /// What resolving the selection yields: the feature set when exactly one
    /// chunk size is selected, otherwise the mutual-exclusion error carrying
    /// the number of selected members.
    pub open spec fn outcome(self) -> Result<FeatureSet, crate::error::ErrorModel> {
        if self.chunk_count() == 1 {
            Ok(self.resolved())
        } else {
            Err(
                crate::error::ErrorModel::InvalidMutualExclusion {
                    selected: self.chunk_count() as u8,
                },
            )
        }
    }

    /// A selection with every toggle off and no chunk size chosen.
    pub fn none() -> (r: FeatureSelection)
        ensures
            r == (FeatureSelection {
                native_cpu: false,
                qemu_workaround: false,
                wait_on_address: false,
                lto: false,
                notls: false,
                win8_compat: false,
                stats: false,
                android_lld: false,
                local_dynamic_tls: false,
                libc_api: false,
                tracing: false,
                fuzzing: false,
                vendored_stl: false,
                check_loads: false,
                pageid: false,
                gwp_asan: false,
                chunk_1mib: false,
                chunk_16mib: false,
                cache_friendly: false,
            }),
    {
        FeatureSelection {
            native_cpu: false,
            qemu_workaround: false,
            wait_on_address: false,
            lto: false,
            notls: false,
            win8_compat: false,
            stats: false,
            android_lld: false,
            local_dynamic_tls: false,
            libc_api: false,
            tracing: false,
            fuzzing: false,
            vendored_stl: false,
            check_loads: false,
            pageid: false,
            gwp_asan: false,
            chunk_1mib: false,
            chunk_16mib: false,
            cache_friendly: false,
        }
    }

    /// Resolves the selection. Every toggle is carried over unchanged; the
    /// chunk-size group must have exactly one member selected.
    pub fn resolve(&self) -> (r: Result<FeatureSet, ResolveError>)
        ensures
            match r {
                Ok(set) => self.outcome() == Ok::<FeatureSet, crate::error::ErrorModel>(set),
                Err(e) => self.outcome() == Err::<FeatureSet, crate::error::ErrorModel>(e@),
            },
    {
        let chunk = if self.chunk_1mib && self.chunk_16mib {
            return Err(ResolveError::InvalidMutualExclusion { selected: 2 });
        } else if self.chunk_1mib {
            ChunkSize::OneMib
        } else if self.chunk_16mib {
            ChunkSize::SixteenMib
        } else {
            return Err(ResolveError::InvalidMutualExclusion { selected: 0 });
        };
        Ok(
            FeatureSet {
                native_cpu: self.native_cpu,
                qemu_workaround: self.qemu_workaround,
                wait_on_address: self.wait_on_address,
                lto: self.lto,
                notls: self.notls,
                win8_compat: self.win8_compat,
                stats: self.stats,
                android_lld: self.android_lld,
                local_dynamic_tls: self.local_dynamic_tls,
                libc_api: self.libc_api,
                tracing: self.tracing,
                fuzzing: self.fuzzing,
                vendored_stl: self.vendored_stl,
                check_loads: self.check_loads,
                pageid: self.pageid,
                gwp_asan: self.gwp_asan,
                chunk,
                cache_friendly: self.cache_friendly,
            },
        )
    }
}

impl FeatureSet {
    /// The notice owed to a caller who selected the deprecated toggle.
    pub open spec fn notice(self) -> Option<Seq<char>> {
        if self.cache_friendly {
            Some(
                "cache-friendly feature flag is deprecated and no longer has any effect. it may be removed in a future release"@,
            )
        } else {
            None
        }
    }

    /// The notice owed to a caller who selected the deprecated toggle, if it
    /// was selected.
    pub fn deprecation_notice(&self) -> (r: Option<&'static str>)
        ensures
            match r {
                Some(text) => self.notice() == Some(text@),
                None => self.notice() is None,
            },
    {
        if self.cache_friendly {
            Some(
                "cache-friendly feature flag is deprecated and no longer has any effect. it may be removed in a future release",
            )
        } else {
            None
        }
    }
}

/// Zero or two selected chunk sizes never resolve: the outcome is the
/// mutual-exclusion error, and it is the only error feature resolution has.
pub proof fn chunk_group_is_exclusive(selection: FeatureSelection)
    ensures
        selection.chunk_count() != 1 ==> selection.outcome() is Err,
        selection.chunk_count() == 1 ==> selection.outcome() is Ok,
        selection.outcome() matches Err(e) ==> e is InvalidMutualExclusion,
        !selection.chunk_1mib && !selection.chunk_16mib ==> selection.outcome() == Err::<
            FeatureSet,
            crate::error::ErrorModel,
        >(crate::error::ErrorModel::InvalidMutualExclusion { selected: 0 }),
        selection.chunk_1mib && selection.chunk_16mib ==> selection.outcome() == Err::<
            FeatureSet,
            crate::error::ErrorModel,
        >(crate::error::ErrorModel::InvalidMutualExclusion { selected: 2 }),
{
}

} // verus!
