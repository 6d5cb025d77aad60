//! Symbol resolution: the per-symbol protocol, the graphics function
//! table, and the compositor-extension table.

use azul_desktop::loader::{resolve_entry, DwmFunctionTable, GlFunctionTable};

#[test]
fn resolution_context_hit_export_hit_prefers_context() {
    assert_eq!(resolve_entry(0x1000, 0x2000, true), 0x1000);
}

#[test]
fn resolution_context_hit_export_miss_takes_context() {
    assert_eq!(resolve_entry(0x1000, 0, true), 0x1000);
}

#[test]
fn resolution_context_miss_export_hit_falls_back() {
    assert_eq!(resolve_entry(0, 0x2000, true), 0x2000);
}

#[test]
fn resolution_context_miss_export_miss_stores_null() {
    assert_eq!(resolve_entry(0, 0, true), 0);
}

#[test]
fn resolution_without_library_never_reads_exports() {
    assert_eq!(resolve_entry(0, 0x2000, false), 0);
    assert_eq!(resolve_entry(0x1000, 0x2000, false), 0x1000);
}

#[test]
fn resolution_is_deterministic() {
    let first = resolve_entry(0, 0x4242, true);
    let second = resolve_entry(0, 0x4242, true);
    assert_eq!(first, second);
    let third = resolve_entry(0x7, 0, false);
    let fourth = resolve_entry(0x7, 0, false);
    assert_eq!(third, fourth);
}

#[test]
fn unloaded_table_is_all_null() {
    let t = GlFunctionTable::initialize(true, 5);
    assert_eq!(t.slot_count(), 5);
    assert!(t.is_all_null());
    for i in 0..5 {
        assert_eq!(t.entry(i), 0);
    }
}

#[test]
fn load_resolves_every_slot_without_failing() {
    let mut t = GlFunctionTable::initialize(true, 4);
    let context_addrs = vec![0x10, 0, 0x30, 0];
    let export_addrs = vec![0x11, 0x21, 0, 0];
    t.load(&context_addrs, &export_addrs);
    assert_eq!(t.entry(0), 0x10); // context wins
    assert_eq!(t.entry(1), 0x21); // export fallback
    assert_eq!(t.entry(2), 0x30); // context only
    assert_eq!(t.entry(3), 0); // both miss: null, not an error
    assert!(!t.is_all_null());
}

#[test]
fn load_without_library_keeps_export_misses_null() {
    let mut t = GlFunctionTable::initialize(false, 2);
    let context_addrs = vec![0, 0x5];
    let export_addrs = vec![0x9, 0x6];
    t.load(&context_addrs, &export_addrs);
    assert_eq!(t.entry(0), 0);
    assert_eq!(t.entry(1), 0x5);
}

#[test]
fn dwm_absent_library_yields_no_table() {
    let t = DwmFunctionTable::initialize(false, 0x1, 0x2, 0x3);
    assert!(t.is_none());
}

#[test]
fn dwm_present_library_resolves_each_symbol_independently() {
    let t = DwmFunctionTable::initialize(true, 0x10, 0, 0x30).unwrap();
    assert_eq!(t.enable_blur_behind_window, Some(0x10));
    assert_eq!(t.extend_frame_into_client_area, None);
    assert_eq!(t.def_window_proc, Some(0x30));
}
