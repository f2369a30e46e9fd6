//! The raw inputs of a resolution: an environment of key/value entries and
//! the signals read from it.

use crate::platform::text_of;
use crate::text::text_eq;
use vstd::prelude::*;

verus! {

/// A snapshot of key/value entries, taken once before resolution starts.
#[derive(Debug, Clone, PartialEq, Eq)]
pub struct Environment {
    pub entries: Vec<(String, String)>,
}

/// The value of the first entry of `entries` whose key is `key`.
pub open spec fn lookup(entries: Seq<(String, String)>, key: Seq<char>) -> Option<Seq<char>>
    decreases entries.len(),
{
    if entries.len() == 0 {
        None
    } else if entries[0].0@ == key {
        Some(entries[0].1@)
    } else {
        lookup(entries.drop_first(), key)
    }
}

/// The signals of one resolution, each present or absent.
#[derive(Debug, Clone, PartialEq, Eq)]
pub struct Signals {
    pub target_os: Option<String>,
    pub target_env: Option<String>,
    pub target_family: Option<String>,
    pub target: Option<String>,
    pub out_dir: Option<String>,
    /// The subsystem marker.
    pub msystem: Option<String>,
    /// The compiler-selection override.
    pub compiler_override: Option<String>,
    pub ndk_root: Option<String>,
    pub android_platform: Option<String>,
    pub gwp_asan_include: Option<String>,
    pub gwp_asan_library: Option<String>,
    /// Where the linker finds the runtime of a GNU toolchain on Windows.
    pub shim_search_path: Option<String>,
}

/// The mathematical content of `Signals`.
pub struct SignalsModel {
    pub target_os: Option<Seq<char>>,
    pub target_env: Option<Seq<char>>,
    pub target_family: Option<Seq<char>>,
    pub target: Option<Seq<char>>,
    pub out_dir: Option<Seq<char>>,
    pub msystem: Option<Seq<char>>,
    pub compiler_override: Option<Seq<char>>,
    pub ndk_root: Option<Seq<char>>,
    pub android_platform: Option<Seq<char>>,
    pub gwp_asan_include: Option<Seq<char>>,
    pub gwp_asan_library: Option<Seq<char>>,
    pub shim_search_path: Option<Seq<char>>,
}

impl View for Signals {
    type V = SignalsModel;

    open spec fn view(&self) -> SignalsModel {
        SignalsModel {
            target_os: text_of(self.target_os),
            target_env: text_of(self.target_env),
            target_family: text_of(self.target_family),
            target: text_of(self.target),
            out_dir: text_of(self.out_dir),
            msystem: text_of(self.msystem),
            compiler_override: text_of(self.compiler_override),
            ndk_root: text_of(self.ndk_root),
            android_platform: text_of(self.android_platform),
            gwp_asan_include: text_of(self.gwp_asan_include),
            gwp_asan_library: text_of(self.gwp_asan_library),
            shim_search_path: text_of(self.shim_search_path),
        }
    }
}

/// What `Signals::read` finds in a list of entries: each signal under its
/// own key.
pub open spec fn signals_of(entries: Seq<(String, String)>) -> SignalsModel {
    SignalsModel {
        target_os: lookup(entries, "CARGO_CFG_TARGET_OS"@),
        target_env: lookup(entries, "CARGO_CFG_TARGET_ENV"@),
        target_family: lookup(entries, "CARGO_CFG_TARGET_FAMILY"@),
        target: lookup(entries, "TARGET"@),
        out_dir: lookup(entries, "OUT_DIR"@),
        msystem: lookup(entries, "MSYSTEM"@),
        compiler_override: lookup(entries, "CC"@),
        ndk_root: lookup(entries, "ANDROID_NDK"@),
        android_platform: lookup(entries, "ANDROID_PLATFORM"@),
        gwp_asan_include: lookup(entries, "SNMALLOC_GWP_ASAN_INCLUDE_PATH"@),
        gwp_asan_library: lookup(entries, "SNMALLOC_GWP_ASAN_LIBRARY_PATH"@),
        shim_search_path: lookup(entries, "SNMALLOC_SHIM_SEARCH_PATH"@),
    }
}

impl Environment {
    /// The value stored under `key`: that of the first entry with this key.
    pub fn get(&self, key: &str) -> (r: Option<String>)
        ensures
            text_of(r) == lookup(self.entries@, key@),
    {
        let mut i: usize = 0;
        assert(self.entries@.skip(0) =~= self.entries@);
        while i < self.entries.len()
            invariant
                i <= self.entries@.len(),
                lookup(self.entries@, key@) == lookup(self.entries@.skip(i as int), key@),
            decreases self.entries@.len() - i,
        {
            let ghost rest = self.entries@.skip(i as int);
            assert(rest[0] == self.entries@[i as int]);
            assert(rest.drop_first() =~= self.entries@.skip(i + 1));
            if text_eq(self.entries[i].0.as_str(), key) {
                return Some(self.entries[i].1.clone());
            }
            i = i + 1;
        }
        assert(self.entries@.skip(i as int).len() == 0);
        None
    }
}

impl Environment {
    /// Whether an entry is stored under `key`.
    pub fn has(&self, key: &str) -> (r: bool)
        ensures
            r == lookup(self.entries@, key@) is Some,
    {
        self.get(key).is_some()
    }
}

impl Signals {
    /// Reads every signal that the environment carries.
    pub fn read(env: &Environment) -> (r: Signals)
        ensures
            r@ == signals_of(env.entries@),
    {
        Signals {
            target_os: env.get("CARGO_CFG_TARGET_OS"),
            target_env: env.get("CARGO_CFG_TARGET_ENV"),
            target_family: env.get("CARGO_CFG_TARGET_FAMILY"),
            target: env.get("TARGET"),
            out_dir: env.get("OUT_DIR"),
            msystem: env.get("MSYSTEM"),
            compiler_override: env.get("CC"),
            ndk_root: env.get("ANDROID_NDK"),
            android_platform: env.get("ANDROID_PLATFORM"),
            gwp_asan_include: env.get("SNMALLOC_GWP_ASAN_INCLUDE_PATH"),
            gwp_asan_library: env.get("SNMALLOC_GWP_ASAN_LIBRARY_PATH"),
            shim_search_path: env.get("SNMALLOC_SHIM_SEARCH_PATH"),
        }
    }
}

} // verus!
