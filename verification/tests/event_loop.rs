//! The startup sequence, the dispatch loop's termination conditions,
//! and the full run.

use azul_desktop::errors::{
    WindowsOpenGlError, WindowsStartupError, WindowsWindowCreateError,
};
use azul_desktop::event_loop::{
    dispatch, run, start_up, sweep_should_exit, DwmProbe, GlProbe, SweepRecord, WindowRequest,
};
use azul_desktop::window::{NativeWindowOutcome, WindowCreateOptions};

fn request(title: &str, hwnd: usize, gl_context: Option<usize>) -> WindowRequest {
    WindowRequest {
        options: WindowCreateOptions { title: String::from(title), parent_window: None },
        outcome: NativeWindowOutcome {
            hwnd,
            last_error: if hwnd == 0 { 1400 } else { 0 },
            gl_context,
            render_api: 1,
            renderer: Some(2),
            hit_tester: 3,
        },
    }
}

fn gl_probe(device_context: usize) -> GlProbe {
    GlProbe {
        dll_loaded: true,
        context_addrs: vec![0x100, 0, 0],
        export_addrs: vec![0x200, 0x300, 0],
        device_context,
    }
}

fn dwm_probe() -> DwmProbe {
    DwmProbe {
        dll_found: true,
        enable_blur_addr: 0x10,
        extend_frame_addr: 0x20,
        def_window_proc_addr: 0,
    }
}

fn sweep(statuses: Vec<i32>, last_wparam: isize) -> SweepRecord {
    SweepRecord { statuses, last_wparam }
}

#[test]
fn sweep_of_no_handles_exits() {
    assert!(sweep_should_exit(&vec![]));
}

#[test]
fn sweep_of_healthy_sources_continues() {
    assert!(!sweep_should_exit(&vec![1, 2, 1]));
}

#[test]
fn sweep_with_exhausted_source_exits() {
    assert!(sweep_should_exit(&vec![1, 0, 1]));
}

#[test]
fn sweep_with_errored_source_exits() {
    assert!(sweep_should_exit(&vec![-1]));
}

#[test]
fn empty_window_set_terminates_on_first_iteration() {
    // one sweep with an empty handle snapshot: no message is dispatched
    let sweeps = vec![sweep(vec![], 0)];
    assert_eq!(dispatch(&sweeps), (0, 1));
}

#[test]
fn dispatch_stops_at_the_first_terminal_sweep() {
    let sweeps = vec![
        sweep(vec![1, 1], 3),
        sweep(vec![1, 0], 7),
        sweep(vec![1, 1], 9),
    ];
    // the second sweep is polled in full (its wparam is kept), the third
    // is never polled, and the first sweep's dispatches stand
    assert_eq!(dispatch(&sweeps), (7, 2));
}

#[test]
fn dispatch_of_exhausted_script_keeps_the_last_wparam() {
    let sweeps = vec![sweep(vec![1], 4), sweep(vec![1], 6)];
    assert_eq!(dispatch(&sweeps), (6, 2));
}

#[test]
fn startup_without_module_handle_is_fatal() {
    let r = start_up(0, 126, vec![], request("root", 0x10, None), gl_probe(0x1), dwm_probe());
    match r {
        Err(WindowsStartupError::NoAppInstance(code)) => assert_eq!(code, 126),
        _ => panic!("a null module handle must abort startup"),
    }
}

#[test]
fn failed_extra_window_leaves_siblings_and_root_intact() {
    // two extra windows requested, one of them fails natively; the root
    // window is created in addition: exactly two windows survive, shown
    let requested = vec![request("w1", 0x10, None), request("w2", 0, None)];
    let rt = start_up(
        0x400000,
        0,
        requested,
        request("root", 0x30, None),
        gl_probe(0x1),
        dwm_probe(),
    )
    .unwrap();
    assert_eq!(rt.window_count(), 2);
    assert_eq!(rt.snapshot_hwnds(), vec![0x10, 0x30]);
    assert!(rt.get_window(0x10).unwrap().shown);
    assert!(rt.get_window(0x30).unwrap().shown);
    assert!(rt.get_window(0x20).is_none());
}

#[test]
fn startup_with_context_loads_the_table() {
    let requested = vec![request("hw", 0x10, Some(0x77))];
    let rt = start_up(
        0x400000,
        0,
        requested,
        request("root", 0x30, None),
        gl_probe(0x1),
        dwm_probe(),
    )
    .unwrap();
    assert_eq!(rt.gl.entry(0), 0x100); // context resolver wins
    assert_eq!(rt.gl.entry(1), 0x300); // export fallback
    assert_eq!(rt.gl.entry(2), 0); // both sources missed: null entry
    assert!(!rt.gl.is_all_null());
}

#[test]
fn startup_without_any_context_keeps_the_table_null() {
    let requested = vec![request("sw", 0x10, None)];
    let rt = start_up(
        0x400000,
        0,
        requested,
        request("root", 0x30, None),
        gl_probe(0x1),
        dwm_probe(),
    )
    .unwrap();
    assert_eq!(rt.gl.slot_count(), 3);
    assert!(rt.gl.is_all_null());
}

#[test]
fn startup_with_failed_device_context_skips_loading() {
    let requested = vec![request("hw", 0x10, Some(0x77))];
    let rt = start_up(
        0x400000,
        0,
        requested,
        request("root", 0x30, None),
        gl_probe(0),
        dwm_probe(),
    )
    .unwrap();
    assert!(rt.gl.is_all_null());
}

#[test]
fn startup_records_the_compositor_probe() {
    let rt = start_up(
        0x400000,
        0,
        vec![],
        request("root", 0x30, None),
        gl_probe(0x1),
        dwm_probe(),
    )
    .unwrap();
    let dwm = rt.dwm.as_ref().unwrap();
    assert_eq!(dwm.enable_blur_behind_window, Some(0x10));
    assert_eq!(dwm.extend_frame_into_client_area, Some(0x20));
    assert_eq!(dwm.def_window_proc, None);
}

#[test]
fn software_only_run_exits_normally() {
    // no window obtains a graphics context; once messages are exhausted
    // the run still ends in the normal exit-code path, not an error
    let requested = vec![request("sw", 0x10, None)];
    let sweeps = vec![sweep(vec![1], 5), sweep(vec![0], 0)];
    let r = run(
        0x400000,
        0,
        requested,
        request("root", 0x30, None),
        gl_probe(0x1),
        dwm_probe(),
        sweeps,
    );
    assert_eq!(r, Ok(0));
}

#[test]
fn run_surfaces_the_dispatch_exit_code() {
    let requested = vec![request("w", 0x10, None)];
    let sweeps = vec![sweep(vec![1], 11), sweep(vec![0], 42)];
    let r = run(
        0x400000,
        0,
        requested,
        request("root", 0x30, None),
        gl_probe(0x1),
        dwm_probe(),
        sweeps,
    );
    assert_eq!(r, Ok(42));
}

#[test]
fn run_with_no_surviving_window_exits_with_zero() {
    // every allocation fails: the first handle snapshot is empty and the
    // loop terminates at once, before any scripted sweep is read
    let requested = vec![request("w", 0, None)];
    let sweeps = vec![sweep(vec![1], 99)];
    let r = run(
        0x400000,
        0,
        requested,
        request("root", 0, None),
        gl_probe(0x1),
        dwm_probe(),
        sweeps,
    );
    assert_eq!(r, Ok(0));
}

#[test]
fn run_without_module_handle_is_fatal() {
    let r = run(
        0,
        6,
        vec![],
        request("root", 0x10, None),
        gl_probe(0x1),
        dwm_probe(),
        vec![],
    );
    assert_eq!(r, Err(WindowsStartupError::NoAppInstance(6)));
}

#[test]
fn startup_error_conversions_keep_the_cause() {
    let create = WindowsWindowCreateError::FailedToCreateHWND(5);
    assert_eq!(
        WindowsStartupError::from(create),
        WindowsStartupError::Create(WindowsWindowCreateError::FailedToCreateHWND(5))
    );
    let gl = WindowsOpenGlError::OpenGL32DllNotFound(2);
    assert_eq!(
        WindowsStartupError::from(gl),
        WindowsStartupError::Gl(WindowsOpenGlError::OpenGL32DllNotFound(2))
    );
}

#[test]
fn every_open_gl_error_carries_its_platform_code() {
    let errors = [
        WindowsOpenGlError::OpenGL32DllNotFound(1),
        WindowsOpenGlError::FailedToGetDC(2),
        WindowsOpenGlError::FailedToGetPixelFormat(3),
        WindowsOpenGlError::NoMatchingPixelFormat(4),
        WindowsOpenGlError::OpenGLNotAvailable(5),
        WindowsOpenGlError::FailedToStoreContext(6),
    ];
    for (i, e) in errors.iter().enumerate() {
        let wrapped = WindowsStartupError::from(*e);
        match wrapped {
            WindowsStartupError::Gl(inner) => assert_eq!(inner, errors[i]),
            _ => panic!("conversion must keep the graphics error"),
        }
    }
}

#[test]
fn borrow_conflicts_are_distinct_error_variants() {
    assert_ne!(WindowsStartupError::Borrow, WindowsStartupError::BorrowMut);
    assert_ne!(WindowsStartupError::Borrow, WindowsStartupError::WindowCreationFailed);
}
