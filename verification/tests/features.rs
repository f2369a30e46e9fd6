use snmalloc_rs::error::ResolveError;
use snmalloc_rs::features::{ChunkSize, FeatureSelection};

#[test]
fn empty_selection_has_everything_off() {
    let s = FeatureSelection::none();
    assert!(!s.native_cpu && !s.qemu_workaround && !s.wait_on_address && !s.lto);
    assert!(!s.notls && !s.win8_compat && !s.stats && !s.android_lld);
    assert!(!s.local_dynamic_tls && !s.libc_api && !s.tracing && !s.fuzzing);
    assert!(!s.vendored_stl && !s.check_loads && !s.pageid && !s.gwp_asan);
    assert!(!s.chunk_1mib && !s.chunk_16mib && !s.cache_friendly);
}

#[test]
fn no_chunk_size_is_a_mutual_exclusion_error() {
    let s = FeatureSelection::none();
    assert_eq!(s.resolve(), Err(ResolveError::InvalidMutualExclusion { selected: 0 }));
}

#[test]
fn two_chunk_sizes_are_a_mutual_exclusion_error() {
    let mut s = FeatureSelection::none();
    s.chunk_1mib = true;
    s.chunk_16mib = true;
    assert_eq!(s.resolve(), Err(ResolveError::InvalidMutualExclusion { selected: 2 }));
}

#[test]
fn one_chunk_size_resolves() {
    let mut s = FeatureSelection::none();
    s.chunk_1mib = true;
    assert_eq!(s.resolve().unwrap().chunk, ChunkSize::OneMib);
    let mut s = FeatureSelection::none();
    s.chunk_16mib = true;
    assert_eq!(s.resolve().unwrap().chunk, ChunkSize::SixteenMib);
}

#[test]
fn every_toggle_is_carried_over() {
    let mut s = FeatureSelection::none();
    s.chunk_16mib = true;
    s.native_cpu = true;
    s.wait_on_address = true;
    s.notls = true;
    s.stats = true;
    s.local_dynamic_tls = true;
    s.tracing = true;
    s.vendored_stl = true;
    s.pageid = true;
    let f = s.resolve().unwrap();
    assert!(f.native_cpu && f.wait_on_address && f.notls && f.stats);
    assert!(f.local_dynamic_tls && f.tracing && f.vendored_stl && f.pageid);
    assert!(!f.qemu_workaround && !f.lto && !f.win8_compat && !f.android_lld);
    assert!(!f.libc_api && !f.fuzzing && !f.check_loads && !f.gwp_asan && !f.cache_friendly);

    let mut s = FeatureSelection::none();
    s.chunk_1mib = true;
    s.qemu_workaround = true;
    s.lto = true;
    s.win8_compat = true;
    s.android_lld = true;
    s.libc_api = true;
    s.fuzzing = true;
    s.check_loads = true;
    s.gwp_asan = true;
    s.cache_friendly = true;
    let f = s.resolve().unwrap();
    assert!(f.qemu_workaround && f.lto && f.win8_compat && f.android_lld);
    assert!(f.libc_api && f.fuzzing && f.check_loads && f.gwp_asan && f.cache_friendly);
    assert!(!f.native_cpu && !f.wait_on_address && !f.notls && !f.stats);
    assert!(!f.local_dynamic_tls && !f.tracing && !f.vendored_stl && !f.pageid);
}

#[test]
fn deprecated_toggle_only_yields_a_notice() {
    let mut s = FeatureSelection::none();
    s.chunk_1mib = true;
    let plain = s.resolve().unwrap();
    assert_eq!(plain.deprecation_notice(), None);
    s.cache_friendly = true;
    let noted = s.resolve().unwrap();
    assert_eq!(
        noted.deprecation_notice(),
        Some(
            "cache-friendly feature flag is deprecated and no longer has any effect. it may be removed in a future release"
        )
    );
}
