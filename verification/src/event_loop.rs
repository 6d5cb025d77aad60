//! The top-level control flow of the shell: the startup sequence and the
//! single-threaded multi-window message-dispatch loop.
//!
//! The driver performs the native work — obtaining the module handle,
//! allocating windows, probing the two libraries, making a context
//! current, retrieving messages — and hands the outcomes to this module,
//! which makes every decision: which windows enter the runtime, whether
//! and how the function table is loaded, which windows are shown, and
//! when the dispatch loop terminates with which exit code.

use vstd::prelude::*;
use crate::errors::WindowsStartupError;
use crate::loader::{spec_all_null, spec_dwm_table, spec_resolve, DwmFunctionTable, GlFunctionTable};
use crate::runtime::{lemma_lookup_characterization, spec_contains, spec_lookup, ApplicationRuntime};
use crate::window::{spec_created_window, NativeWindowOutcome, PlatformWindow, WindowCreateOptions};

verus! {

/// One requested window together with what the driver's native calls
/// produced for it.
pub struct WindowRequest {
    pub options: WindowCreateOptions,
    pub outcome: NativeWindowOutcome,
}

/// What the driver found when probing the graphics library and the
/// elected window's device context: whether the library was loaded, the
/// two candidate addresses per symbol slot, and the temporary device
/// context (null if it could not be obtained).
pub struct GlProbe {
    pub dll_loaded: bool,
    pub context_addrs: Vec<usize>,
    pub export_addrs: Vec<usize>,
    pub device_context: usize,
}

/// What the driver found when probing the compositor-extension library.
pub struct DwmProbe {
    pub dll_found: bool,
    pub enable_blur_addr: usize,
    pub extend_frame_addr: usize,
    pub def_window_proc_addr: usize,
}

/// One sweep of the dispatch loop: the status that message retrieval
/// reported for each handle polled this iteration, and the message
/// parameter of the last message retrieved (the loop's exit code when it
/// terminates here).
pub struct SweepRecord {
    pub statuses: Vec<i32>,
    pub last_wparam: isize,
}

/// How many of the requests the native window allocation satisfied.
pub open spec fn spec_success_count(requests: Seq<WindowRequest>) -> nat
    decreases requests.len(),
{
    if requests.len() == 0 {
        0
    } else {
        spec_success_count(requests.drop_first()) + (if requests[0].outcome.hwnd != 0 {
            1nat
        } else {
            0nat
        })
    }
}

/// Native handles identify windows: two successfully created windows
/// never share one.
pub open spec fn spec_distinct_handles(requests: Seq<WindowRequest>) -> bool {
    forall|i: int, j: int|
        0 <= i < j < requests.len() && requests[i].outcome.hwnd != 0
            && requests[j].outcome.hwnd != 0 ==> requests[i].outcome.hwnd
            != requests[j].outcome.hwnd
}

/// Whether any successfully created window obtained a graphics context —
/// if none did, the run is pure software rendering and symbol loading is
/// skipped entirely.
pub open spec fn spec_any_context(requests: Seq<WindowRequest>) -> bool {
    exists|i: int|
        0 <= i < requests.len() && requests[i].outcome.hwnd != 0
            && requests[i].outcome.gl_context is Some
}

/// A sweep after which the loop stops: the snapshot of handles was empty,
/// or some polled message source reported an error or exhaustion.
pub open spec fn spec_sweep_terminal(statuses: Seq<i32>) -> bool {
    statuses.len() == 0 || exists|i: int| 0 <= i < statuses.len() && statuses[i] <= 0
}

/// Decides whether the dispatch loop stops after a sweep with these
/// statuses. A positive status means the source delivered an ordinary
/// message; zero or less means the source is gone or errored.
pub fn sweep_should_exit(statuses: &Vec<i32>) -> (r: bool)
    ensures
        r == spec_sweep_terminal(statuses@),
{
    let n = statuses.len();
    if n == 0 {
        return true;
    }
    let mut i: usize = 0;
    while i < n
        invariant
            i <= n,
            n == statuses@.len(),
            forall|j: int| 0 <= j < i ==> statuses@[j] > 0,
        decreases n - i,
    {
        if statuses[i] <= 0 {
            return true;
        }
        i += 1;
    }
    false
}

/// What replaying the sweeps yields: the exit code and the number of
/// sweeps run. Sweeps run in order until the first terminal one; a sweep
/// that polled at least one handle leaves its last message parameter as
/// the candidate exit code.
pub open spec fn spec_dispatch(sweeps: Seq<SweepRecord>, wparam: isize) -> (isize, nat)
    decreases sweeps.len(),
{
    if sweeps.len() == 0 {
        (wparam, 0)
    } else {
        let wparam2 = if sweeps[0].statuses@.len() > 0 {
            sweeps[0].last_wparam
        } else {
            wparam
        };
        if spec_sweep_terminal(sweeps[0].statuses@) {
            (wparam2, 1)
        } else {
            let rest = spec_dispatch(sweeps.drop_first(), wparam2);
            (rest.0, rest.1 + 1)
        }
    }
}

/// The dispatch loop stops with the first terminal sweep: every earlier
/// sweep ran in full, the terminal sweep's already-collected statuses are
/// kept (nothing is rolled back), and no later sweep is polled.
pub proof fn lemma_dispatch_stops_at_first_terminal(
    sweeps: Seq<SweepRecord>,
    wparam: isize,
    k: int,
)
    requires
        0 <= k < sweeps.len(),
        spec_sweep_terminal(sweeps[k].statuses@),
        forall|j: int| 0 <= j < k ==> !spec_sweep_terminal(sweeps[j].statuses@),
    ensures
        spec_dispatch(sweeps, wparam).1 == k + 1,
    decreases k,
{
    if k > 0 {
        let rest = sweeps.drop_first();
        assert(forall|j: int| 0 <= j < rest.len() ==> rest[j] == sweeps[j + 1]);
        let wparam2 = if sweeps[0].statuses@.len() > 0 {
            sweeps[0].last_wparam
        } else {
            wparam
        };
        lemma_dispatch_stops_at_first_terminal(rest, wparam2, k - 1);
    }
}

/// Replays the scripted sweeps as the dispatch loop would: one sweep per
/// iteration, stopping after the first terminal sweep, or when the script
/// is exhausted. Returns the exit code and the number of sweeps run.
pub fn dispatch(sweeps: &Vec<SweepRecord>) -> (r: (isize, usize))
    ensures
        r.0 == spec_dispatch(sweeps@, 0).0,
        r.1 == spec_dispatch(sweeps@, 0).1,
        r.1 <= sweeps@.len(),
        sweeps@.len() > 0 && sweeps@[0].statuses@.len() == 0 ==> r == (0isize, 1usize),
        forall|k: int| 0 <= k < r.1 - 1 ==> !spec_sweep_terminal(sweeps@[k].statuses@),
        r.1 < sweeps@.len() ==> r.1 > 0 && spec_sweep_terminal(sweeps@[r.1 - 1].statuses@),
{
    let n = sweeps.len();
    let mut wparam: isize = 0;
    let mut i: usize = 0;
    proof {
        assert(sweeps@.skip(0) =~= sweeps@);
    }
    while i < n
        invariant
            i <= n,
            n == sweeps@.len(),
            spec_dispatch(sweeps@, 0).0 == spec_dispatch(sweeps@.skip(i as int), wparam).0,
            spec_dispatch(sweeps@, 0).1 == i + spec_dispatch(sweeps@.skip(i as int), wparam).1,
            forall|k: int| 0 <= k < i ==> !spec_sweep_terminal(sweeps@[k].statuses@),
        decreases n - i,
    {
        proof {
            assert(sweeps@.skip(i as int).drop_first() =~= sweeps@.skip(i + 1));
            assert(sweeps@.skip(i as int)[0] == sweeps@[i as int]);
        }
        let s = &sweeps[i];
        if s.statuses.len() > 0 {
            wparam = s.last_wparam;
        }
        i += 1;
        if sweep_should_exit(&s.statuses) {
            return (wparam, i);
        }
    }
    proof {
        assert(sweeps@.skip(n as int) =~= Seq::<SweepRecord>::empty());
    }
    (wparam, i)
}

/// Splitting a suffix at its first element splits its success count.
proof fn lemma_success_count_skip(requests: Seq<WindowRequest>, l: int)
    requires
        0 <= l < requests.len(),
    ensures
        spec_success_count(requests.skip(l)) == (if requests[l].outcome.hwnd != 0 {
            1nat
        } else {
            0nat
        }) + spec_success_count(requests.skip(l + 1)),
{
    assert(requests.skip(l).drop_first() =~= requests.skip(l + 1));
    assert(requests.skip(l)[0] == requests[l]);
}

/// Appending one request adds its own success, if any, to the count.
proof fn lemma_success_count_push(requests: Seq<WindowRequest>, last: WindowRequest)
    ensures
        spec_success_count(requests.push(last)) == spec_success_count(requests) + (
        if last.outcome.hwnd != 0 {
            1nat
        } else {
            0nat
        }),
    decreases requests.len(),
{
    if requests.len() == 0 {
        assert(requests.push(last).drop_first() =~= Seq::<WindowRequest>::empty());
        assert(requests.push(last)[0] == last);
        assert(spec_success_count(Seq::<WindowRequest>::empty()) == 0);
    } else {
        assert(requests.push(last).drop_first() =~= requests.drop_first().push(last));
        assert(requests.push(last)[0] == requests[0]);
        lemma_success_count_push(requests.drop_first(), last);
    }
}

/// The startup sequence, up to and including showing the windows: builds
/// the runtime from what the driver's native calls produced.
///
/// A null module handle is the one fatal condition. Window allocation
/// failures are per-window: the failed window is absent, siblings are
/// unaffected, and the designated root window is created last in
/// addition to the requested ones. If some created window obtained a
/// graphics context, the first such window in map order is elected and —
/// provided its temporary device context could be obtained — the
/// function table is loaded once for all windows; otherwise the table
/// keeps its null entries, which is a valid software-rendering start,
/// not an error. Every surviving window is then shown.
pub fn start_up(
    hinstance: usize,
    module_error: u32,
    requested: Vec<WindowRequest>,
    root_window: WindowRequest,
    gl_probe: GlProbe,
    dwm_probe: DwmProbe,
) -> (r: Result<ApplicationRuntime, WindowsStartupError>)
    requires
        gl_probe.context_addrs@.len() == gl_probe.export_addrs@.len(),
        forall|j: int| 0 <= j < requested@.len() ==> requested@[j].outcome.wf(),
        root_window.outcome.wf(),
        spec_distinct_handles(requested@.push(root_window)),
    ensures
        r is Err <==> hinstance == 0,
        hinstance == 0 ==> r == Result::<ApplicationRuntime, WindowsStartupError>::Err(
            WindowsStartupError::NoAppInstance(module_error),
        ),
        hinstance != 0 ==> ({
            let rt = r->Ok_0;
            let allr = requested@.push(root_window);
            &&& rt.wf()
            &&& rt.hinstance == hinstance
            &&& rt.timers@.len() == 0
            &&& rt.threads@.len() == 0
            &&& rt.dwm == spec_dwm_table(
                dwm_probe.dll_found,
                dwm_probe.enable_blur_addr,
                dwm_probe.extend_frame_addr,
                dwm_probe.def_window_proc_addr,
            )
            &&& rt.gl.dll_loaded == gl_probe.dll_loaded
            &&& rt.gl.entries@.len() == gl_probe.context_addrs@.len()
            &&& rt.windows@.len() == spec_success_count(allr)
            &&& forall|j: int|
                0 <= j < allr.len() && allr[j].outcome.hwnd != 0 ==> spec_lookup(
                    rt.windows@,
                    allr[j].outcome.hwnd,
                ) == Some(spec_created_window(allr[j].options, allr[j].outcome).spec_shown())
            &&& forall|h: usize|
                spec_contains(rt.windows@, h) ==> exists|j: int|
                    0 <= j < allr.len() && allr[j].outcome.hwnd == h
            &&& (spec_any_context(allr) && gl_probe.device_context != 0 ==> forall|i: int|
                0 <= i < rt.gl.entries@.len() ==> rt.gl.entries@[i] == spec_resolve(
                    gl_probe.context_addrs@[i],
                    gl_probe.export_addrs@[i],
                    gl_probe.dll_loaded,
                ))
            &&& (!(spec_any_context(allr) && gl_probe.device_context != 0) ==> spec_all_null(
                rt.gl.entries@,
            ))
        }),
{
    if hinstance == 0 {
        return Err(WindowsStartupError::NoAppInstance(module_error));
    }
    let ghost all0 = requested@;
    let ghost allr = requested@.push(root_window);
    proof {
        assert(forall|j: int| 0 <= j < all0.len() ==> allr[j] == all0[j]);
        assert(allr[all0.len() as int] == root_window);
    }
    let dwm = DwmFunctionTable::initialize(
        dwm_probe.dll_found,
        dwm_probe.enable_blur_addr,
        dwm_probe.extend_frame_addr,
        dwm_probe.def_window_proc_addr,
    );
    let slots = gl_probe.context_addrs.len();
    let gl = GlFunctionTable::initialize(gl_probe.dll_loaded, slots);
    let ghost dwm0 = dwm;
    let mut rt = ApplicationRuntime::new(hinstance, gl, dwm);

    // Create the requested windows; a failed one is dropped, not fatal.
    let mut rest = requested;
    proof {
        assert(rest@ =~= all0.take(all0.len() as int));
        assert(all0.skip(all0.len() as int) =~= Seq::<WindowRequest>::empty());
    }
    while rest.len() > 0
        invariant
            rest@.len() <= all0.len(),
            rest@ == all0.take(rest@.len() as int),
            rt.wf(),
            rt.hinstance == hinstance,
            rt.timers@.len() == 0,
            rt.threads@.len() == 0,
            rt.dwm == dwm0,
            rt.gl.dll_loaded == gl_probe.dll_loaded,
            rt.gl.entries@.len() == gl_probe.context_addrs@.len(),
            spec_all_null(rt.gl.entries@),
            rt.windows@.len() == spec_success_count(all0.skip(rest@.len() as int)),
            forall|j: int|
                rest@.len() <= j < all0.len() && all0[j].outcome.hwnd != 0 ==> spec_lookup(
                    rt.windows@,
                    all0[j].outcome.hwnd,
                ) == Some(spec_created_window(all0[j].options, all0[j].outcome)),
            forall|h: usize|
                spec_contains(rt.windows@, h) ==> exists|j: int|
                    rest@.len() <= j < all0.len() && all0[j].outcome.hwnd == h,
            forall|j: int| 0 <= j < all0.len() ==> all0[j].outcome.wf(),
            spec_distinct_handles(allr),
            all0.len() == allr.len() - 1,
            forall|j: int| 0 <= j < all0.len() ==> allr[j] == all0[j],
        decreases rest@.len(),
    {
        let ghost l = rest@.len() as int;
        let req = rest.pop().unwrap();
        proof {
            assert(all0.take(l).last() == all0[l - 1]);
            assert(all0.take(l).drop_last() =~= all0.take(l - 1));
            lemma_success_count_skip(all0, l - 1);
        }
        let WindowRequest { options, outcome } = req;
        match PlatformWindow::create(options, outcome) {
            Ok(w) => {
                proof {
                    assert(w.hwnd == all0[l - 1].outcome.hwnd);
                    if spec_contains(rt.windows@, w.hwnd) {
                        let j = choose|j: int|
                            l <= j < all0.len() && all0[j].outcome.hwnd == w.hwnd;
                        assert(allr[l - 1].outcome.hwnd == allr[j].outcome.hwnd);
                        assert(false);
                    }
                }
                let ghost pre = rt;
                rt.insert_window(w);
                proof {
                    assert forall|h: usize| spec_contains(rt.windows@, h) implies exists|j: int|
                        l - 1 <= j < all0.len() && all0[j].outcome.hwnd == h by {
                        if h == w.hwnd {
                            assert(l - 1 <= l - 1 < all0.len() && all0[l - 1].outcome.hwnd == h);
                        } else {
                            assert(spec_lookup(rt.windows@, h) == spec_lookup(pre.windows@, h));
                            assert(spec_contains(pre.windows@, h));
                            let j = choose|j: int|
                                l <= j < all0.len() && all0[j].outcome.hwnd == h;
                            assert(l - 1 <= j < all0.len() && all0[j].outcome.hwnd == h);
                        }
                    }
                }
            },
            Err(_) => {},
        }
    }
    proof {
        assert(all0.skip(0) =~= all0);
    }

    // The root window is created last, in addition to the requested ones.
    let WindowRequest { options, outcome } = root_window;
    let ghost n0 = all0.len() as int;
    match PlatformWindow::create(options, outcome) {
        Ok(w) => {
            proof {
                assert(w.hwnd == root_window.outcome.hwnd);
                lemma_success_count_push(all0, root_window);
                if spec_contains(rt.windows@, w.hwnd) {
                    let j = choose|j: int| 0 <= j < all0.len() && all0[j].outcome.hwnd == w.hwnd;
                    assert(allr[j].outcome.hwnd == allr[n0].outcome.hwnd);
                    assert(false);
                }
            }
            let ghost pre = rt;
            rt.insert_window(w);
            proof {
                assert forall|h: usize| spec_contains(rt.windows@, h) implies exists|j: int|
                    0 <= j < allr.len() && allr[j].outcome.hwnd == h by {
                    if h == w.hwnd {
                        assert(0 <= n0 < allr.len() && allr[n0].outcome.hwnd == h);
                    } else {
                        assert(spec_lookup(rt.windows@, h) == spec_lookup(pre.windows@, h));
                        assert(spec_contains(pre.windows@, h));
                        let j = choose|j: int| 0 <= j < all0.len() && all0[j].outcome.hwnd == h;
                        assert(0 <= j < allr.len() && allr[j].outcome.hwnd == h);
                    }
                }
            }
        },
        Err(_) => {
            proof {
                lemma_success_count_push(all0, root_window);
                assert forall|h: usize| spec_contains(rt.windows@, h) implies exists|j: int|
                    0 <= j < allr.len() && allr[j].outcome.hwnd == h by {
                    let j = choose|j: int| 0 <= j < all0.len() && all0[j].outcome.hwnd == h;
                    assert(0 <= j < allr.len() && allr[j].outcome.hwnd == h);
                }
            }
        },
    }
    proof {
        assert forall|j: int|
            0 <= j < allr.len() && allr[j].outcome.hwnd != 0 implies spec_lookup(
            rt.windows@,
            allr[j].outcome.hwnd,
        ) == Some(spec_created_window(allr[j].options, allr[j].outcome)) by {
            if j < n0 {
                assert(allr[j] == all0[j]);
            }
        }
    }

    // Elect the first window in map order that has a graphics context and
    // load the function table once; skip loading in a software-only run.
    let ghost pre_load = rt.windows@;
    match rt.first_gl_context() {
        Some((_elected_hwnd, _ctx)) => {
            if gl_probe.device_context != 0 {
                proof {
                    let i = choose|i: int|
                        0 <= i < rt.windows@.len() && rt.windows@[i].gl_context
                            == Some(_ctx) && rt.windows@[i].hwnd == _elected_hwnd && (forall|
                            j: int,
                        |
                            0 <= j < i ==> rt.windows@[j].gl_context is None);
                    assert(forall|a: int, b: int|
                        0 <= a < b < rt.windows@.len() ==> rt.windows@[a].hwnd
                            != rt.windows@[b].hwnd);
                    lemma_lookup_characterization(rt.windows@, rt.windows@[i].hwnd);
                    assert(spec_contains(rt.windows@, rt.windows@[i].hwnd));
                    let j = choose|j: int|
                        0 <= j < allr.len() && allr[j].outcome.hwnd == rt.windows@[i].hwnd;
                    assert(allr[j].outcome.hwnd != 0);
                    assert(spec_lookup(rt.windows@, allr[j].outcome.hwnd) == Some(
                        spec_created_window(allr[j].options, allr[j].outcome),
                    ));
                    assert(spec_lookup(rt.windows@, rt.windows@[i].hwnd) == Some(rt.windows@[i]));
                    assert(allr[j].outcome.gl_context is Some);
                    assert(spec_any_context(allr));
                }
                rt.gl.load(&gl_probe.context_addrs, &gl_probe.export_addrs);
            }
        },
        None => {
            proof {
                if spec_any_context(allr) {
                    let j = choose|j: int|
                        0 <= j < allr.len() && allr[j].outcome.hwnd != 0
                            && allr[j].outcome.gl_context is Some;
                    assert(spec_lookup(rt.windows@, allr[j].outcome.hwnd) == Some(
                        spec_created_window(allr[j].options, allr[j].outcome),
                    ));
                    assert(forall|a: int, b: int|
                        0 <= a < b < rt.windows@.len() ==> rt.windows@[a].hwnd
                            != rt.windows@[b].hwnd);
                    lemma_lookup_characterization(rt.windows@, allr[j].outcome.hwnd);
                    let i = choose|i: int|
                        0 <= i < rt.windows@.len() && rt.windows@[i].hwnd
                            == allr[j].outcome.hwnd;
                    assert(spec_lookup(rt.windows@, allr[j].outcome.hwnd) == Some(
                        rt.windows@[i],
                    ));
                    assert(rt.windows@[i].gl_context is Some);
                    assert(false);
                }
            }
        },
    }
    proof {
        assert(rt.windows@ == pre_load);
    }

    // Show every window that made it into the runtime.
    let ghost pre_show = rt.windows@;
    rt.show_all();
    proof {
        assert(forall|a: int, b: int|
            0 <= a < b < pre_show.len() ==> pre_show[a].hwnd != pre_show[b].hwnd);
        assert(forall|a: int, b: int|
            0 <= a < b < rt.windows@.len() ==> rt.windows@[a].hwnd != rt.windows@[b].hwnd);
        assert forall|j: int|
            0 <= j < allr.len() && allr[j].outcome.hwnd != 0 implies spec_lookup(
            rt.windows@,
            allr[j].outcome.hwnd,
        ) == Some(spec_created_window(allr[j].options, allr[j].outcome).spec_shown()) by {
            let h = allr[j].outcome.hwnd;
            lemma_lookup_characterization(pre_show, h);
            assert(spec_lookup(pre_show, h) == Some(
                spec_created_window(allr[j].options, allr[j].outcome),
            ));
            let i = choose|i: int| 0 <= i < pre_show.len() && pre_show[i].hwnd == h;
            assert(pre_show[i] == spec_created_window(allr[j].options, allr[j].outcome));
            assert(rt.windows@[i] == pre_show[i].spec_shown());
            assert(rt.windows@[i].hwnd == h);
            lemma_lookup_characterization(rt.windows@, h);
        }
        assert forall|h: usize| spec_contains(rt.windows@, h) implies exists|j: int|
            0 <= j < allr.len() && allr[j].outcome.hwnd == h by {
            lemma_lookup_characterization(rt.windows@, h);
            let i = choose|i: int| 0 <= i < rt.windows@.len() && rt.windows@[i].hwnd == h;
            assert(pre_show[i].hwnd == h);
            lemma_lookup_characterization(pre_show, h);
            assert(spec_contains(pre_show, h));
        }
    }
    Ok(rt)
}

/// The sole entry point of the shell, as seen from the embedding
/// process: the startup sequence followed by the message-dispatch loop,
/// over the native outcomes the driver supplies.
///
/// The only fatal startup condition is a null process module handle.
/// Otherwise the run ends normally: with exit code zero straight away if
/// no window at all could be created (the loop's first snapshot of
/// handles is then empty), and with the dispatch loop's exit code
/// otherwise.
pub fn run(
    hinstance: usize,
    module_error: u32,
    requested: Vec<WindowRequest>,
    root_window: WindowRequest,
    gl_probe: GlProbe,
    dwm_probe: DwmProbe,
    sweeps: Vec<SweepRecord>,
) -> (r: Result<isize, WindowsStartupError>)
    requires
        gl_probe.context_addrs@.len() == gl_probe.export_addrs@.len(),
        forall|j: int| 0 <= j < requested@.len() ==> requested@[j].outcome.wf(),
        root_window.outcome.wf(),
        spec_distinct_handles(requested@.push(root_window)),
    ensures
        r is Err <==> hinstance == 0,
        hinstance == 0 ==> r == Result::<isize, WindowsStartupError>::Err(
            WindowsStartupError::NoAppInstance(module_error),
        ),
        hinstance != 0 ==> r == Result::<isize, WindowsStartupError>::Ok(
            if spec_success_count(requested@.push(root_window)) == 0 {
                0isize
            } else {
                spec_dispatch(sweeps@, 0).0
            },
        ),
{
    let rt = match start_up(hinstance, module_error, requested, root_window, gl_probe, dwm_probe) {
        Ok(rt) => rt,
        Err(e) => {
            return Err(e);
        },
    };
    if rt.window_count() == 0 {
        return Ok(0);
    }
    let exit = dispatch(&sweeps);
    Ok(exit.0)
}

/// The monitors the shell reports to the embedding caller. Monitor
/// enumeration is not wired to the native display API in this shell: the
/// list it hands back is empty.
pub fn get_monitors(_rt: &ApplicationRuntime) -> (r: Vec<usize>)
    ensures
        r@.len() == 0,
{
    Vec::new()
}

} // verus!
