//! The process-wide application runtime: the window map keyed by native
//! handle, the timer and thread registries, the graphics function table
//! and the optional compositor-extension table.
//!
//! The window map mirrors an ordered map: the windows sit in a vector in
//! strictly ascending handle order, so handles are unique and iteration
//! order is the key order. Insertion and removal happen only from the UI
//! thread; the driver shares the runtime behind a dynamically
//! borrow-checked handle, and a borrow conflict there is surfaced as an
//! error, never a crash.

use vstd::prelude::*;
use crate::loader::{DwmFunctionTable, GlFunctionTable};
use crate::window::PlatformWindow;

verus! {

/// Strictly ascending handle order: the map order of the window vector.
pub open spec fn spec_sorted(s: Seq<PlatformWindow>) -> bool {
    forall|i: int, j: int| 0 <= i < j < s.len() ==> s[i].hwnd < s[j].hwnd
}

/// The window stored under a handle: the first (and, with unique
/// handles, the only) element of the vector that carries it.
pub open spec fn spec_lookup(s: Seq<PlatformWindow>, hwnd: usize) -> Option<PlatformWindow>
    decreases s.len(),
{
    if s.len() == 0 {
        None
    } else if s[0].hwnd == hwnd {
        Some(s[0])
    } else {
        spec_lookup(s.drop_first(), hwnd)
    }
}

/// Whether some window in the vector carries the handle.
pub open spec fn spec_contains(s: Seq<PlatformWindow>, hwnd: usize) -> bool {
    spec_lookup(s, hwnd) is Some
}

/// With unique handles, looking a handle up finds exactly the element
/// that carries it, and finds something exactly when such an element
/// exists.
pub proof fn lemma_lookup_characterization(s: Seq<PlatformWindow>, hwnd: usize)
    requires
        forall|i: int, j: int| 0 <= i < j < s.len() ==> s[i].hwnd != s[j].hwnd,
    ensures
        spec_contains(s, hwnd) <==> exists|i: int| 0 <= i < s.len() && s[i].hwnd == hwnd,
        forall|i: int|
            0 <= i < s.len() && s[i].hwnd == hwnd ==> spec_lookup(s, hwnd) == Some(s[i]),
    decreases s.len(),
{
    if s.len() > 0 && s[0].hwnd != hwnd {
        let t = s.drop_first();
        assert(forall|i: int, j: int| 0 <= i < j < t.len() ==> t[i].hwnd != t[j].hwnd);
        lemma_lookup_characterization(t, hwnd);
        assert(forall|i: int| 0 <= i < t.len() ==> t[i] == s[i + 1]);
        if exists|i: int| 0 <= i < s.len() && s[i].hwnd == hwnd {
            let i = choose|i: int| 0 <= i < s.len() && s[i].hwnd == hwnd;
            assert(t[i - 1] == s[i]);
        }
    }
}

/// The process-wide runtime, created once per process run and destroyed
/// when the event loop exits.
pub struct ApplicationRuntime {
    /// The process module handle; valid for the process lifetime.
    pub hinstance: usize,
    /// The live windows, in ascending handle order.
    pub windows: Vec<PlatformWindow>,
    /// Registered timer identifiers.
    pub timers: Vec<usize>,
    /// Background thread identifiers.
    pub threads: Vec<usize>,
    /// The graphics function table, read-only once loaded.
    pub gl: GlFunctionTable,
    /// The compositor-extension table, present only if the compositor
    /// library was found.
    pub dwm: Option<DwmFunctionTable>,
}

impl ApplicationRuntime {
    /// The runtime invariant: a valid module handle, windows in strict
    /// handle order, every window well-formed, and unique registry ids.
    pub open spec fn wf(self) -> bool {
        &&& self.hinstance != 0
        &&& spec_sorted(self.windows@)
        &&& forall|i: int| 0 <= i < self.windows@.len() ==> self.windows@[i].wf()
        &&& forall|i: int, j: int| 0 <= i < j < self.timers@.len() ==> self.timers@[i] < self.timers@[j]
        &&& forall|i: int, j: int|
            0 <= i < j < self.threads@.len() ==> self.threads@[i] < self.threads@[j]
    }

    /// Builds the runtime with empty window, timer and thread registries.
    pub fn new(hinstance: usize, gl: GlFunctionTable, dwm: Option<DwmFunctionTable>) -> (r: Self)
        requires
            hinstance != 0,
        ensures
            r.wf(),
            r.hinstance == hinstance,
            r.windows@.len() == 0,
            r.timers@.len() == 0,
            r.threads@.len() == 0,
            r.gl == gl,
            r.dwm == dwm,
    {
        ApplicationRuntime {
            hinstance,
            windows: Vec::new(),
            timers: Vec::new(),
            threads: Vec::new(),
            gl,
            dwm,
        }
    }

    /// The number of live windows.
    pub fn window_count(&self) -> (r: usize)
        ensures
            r == self.windows@.len(),
    {
        self.windows.len()
    }

    /// Inserts a window under its native handle, keeping handle order.
    /// Native handles identify live windows uniquely, so the handle is
    /// new to the map.
    pub fn insert_window(&mut self, w: PlatformWindow)
        requires
            old(self).wf(),
            w.wf(),
            !spec_contains(old(self).windows@, w.hwnd),
        ensures
            final(self).wf(),
            final(self).windows@.len() == old(self).windows@.len() + 1,
            spec_lookup(final(self).windows@, w.hwnd) == Some(w),
            forall|h: usize|
                h != w.hwnd ==> spec_lookup(final(self).windows@, h) == spec_lookup(
                    old(self).windows@,
                    h,
                ),
            final(self).hinstance == old(self).hinstance,
            final(self).timers@ == old(self).timers@,
            final(self).threads@ == old(self).threads@,
            final(self).gl == old(self).gl,
            final(self).dwm == old(self).dwm,
    {
        proof {
            lemma_lookup_characterization(old(self).windows@, w.hwnd);
        }
        let n = self.windows.len();
        let mut i: usize = 0;
        while i < n && self.windows[i].hwnd < w.hwnd
            invariant
                i <= n,
                n == self.windows@.len(),
                *self == *old(self),
                forall|j: int| 0 <= j < i ==> self.windows@[j].hwnd < w.hwnd,
            decreases n - i,
        {
            i += 1;
        }
        assert(forall|j: int| 0 <= j < old(self).windows@.len() ==> old(self).windows@[j].hwnd
            != w.hwnd);
        assert(forall|j: int| i <= j < n ==> self.windows@[j].hwnd > w.hwnd) by {
            assert(forall|j: int| i < j < n ==> self.windows@[j].hwnd > self.windows@[i as int].hwnd);
        }
        self.windows.insert(i, w);
        proof {
            let s = self.windows@;
            let s0 = old(self).windows@;
            assert(forall|j: int| 0 <= j < i ==> s[j] == s0[j]);
            assert(s[i as int] == w);
            assert(forall|j: int| i < j < s.len() ==> s[j] == s0[j - 1]);
            assert(spec_sorted(s));
            lemma_lookup_characterization(s, w.hwnd);
            assert forall|h: usize| h != w.hwnd implies spec_lookup(s, h) == spec_lookup(
                s0,
                h,
            ) by {
                lemma_lookup_characterization(s, h);
                lemma_lookup_characterization(s0, h);
                if spec_contains(s0, h) {
                    let j = choose|j: int| 0 <= j < s0.len() && s0[j].hwnd == h;
                    if j < i {
                        assert(s[j] == s0[j]);
                    } else {
                        assert(s[j + 1] == s0[j]);
                    }
                } else {
                    assert(forall|j: int| 0 <= j < s.len() && j != i ==> s[j].hwnd != h);
                }
            }
        }
    }

    /// Removes the window under a handle, if one is live: the native
    /// window-close path drops the entry from the map.
    pub fn remove_window(&mut self, hwnd: usize)
        requires
            old(self).wf(),
        ensures
            final(self).wf(),
            !spec_contains(final(self).windows@, hwnd),
            final(self).windows@.len() == old(self).windows@.len() - (
            if spec_contains(old(self).windows@, hwnd) {
                1int
            } else {
                0int
            }),
            forall|h: usize|
                h != hwnd ==> spec_lookup(final(self).windows@, h) == spec_lookup(
                    old(self).windows@,
                    h,
                ),
            final(self).hinstance == old(self).hinstance,
            final(self).timers@ == old(self).timers@,
            final(self).threads@ == old(self).threads@,
            final(self).gl == old(self).gl,
            final(self).dwm == old(self).dwm,
    {
        proof {
            lemma_lookup_characterization(old(self).windows@, hwnd);
        }
        let n = self.windows.len();
        let mut i: usize = 0;
        while i < n && self.windows[i].hwnd != hwnd
            invariant
                i <= n,
                n == self.windows@.len(),
                *self == *old(self),
                forall|j: int| 0 <= j < i ==> self.windows@[j].hwnd != hwnd,
            decreases n - i,
        {
            i += 1;
        }
        if i == n {
            assert(!spec_contains(self.windows@, hwnd));
            return ;
        }
        self.windows.remove(i);
        proof {
            let s = self.windows@;
            let s0 = old(self).windows@;
            assert(forall|j: int| 0 <= j < i ==> s[j] == s0[j]);
            assert(forall|j: int| i <= j < s.len() ==> s[j] == s0[j + 1]);
            assert(spec_sorted(s));
            lemma_lookup_characterization(s, hwnd);
            assert forall|h: usize| h != hwnd implies spec_lookup(s, h) == spec_lookup(
                s0,
                h,
            ) by {
                lemma_lookup_characterization(s, h);
                lemma_lookup_characterization(s0, h);
                if spec_contains(s0, h) {
                    let j = choose|j: int| 0 <= j < s0.len() && s0[j].hwnd == h;
                    if j < i {
                        assert(s[j] == s0[j]);
                    } else {
                        assert(s[j - 1] == s0[j]);
                    }
                } else {
                    assert(forall|j: int| 0 <= j < s.len() ==> s[j].hwnd != h);
                }
            }
        }
    }

    /// Borrows the window under a handle, if one is live.
    pub fn get_window(&self, hwnd: usize) -> (r: Option<&PlatformWindow>)
        requires
            self.wf(),
        ensures
            match r {
                Some(w) => spec_lookup(self.windows@, hwnd) == Some(*w),
                None => !spec_contains(self.windows@, hwnd),
            },
    {
        proof {
            lemma_lookup_characterization(self.windows@, hwnd);
        }
        let n = self.windows.len();
        let mut i: usize = 0;
        while i < n
            invariant
                i <= n,
                self.wf(),
                n == self.windows@.len(),
                forall|j: int| 0 <= j < i ==> self.windows@[j].hwnd != hwnd,
            decreases n - i,
        {
            if self.windows[i].hwnd == hwnd {
                proof {
                    lemma_lookup_characterization(self.windows@, hwnd);
                }
                return Some(&self.windows[i]);
            }
            i += 1;
        }
        None
    }

    /// The current snapshot of native handles, in map iteration order.
    /// The dispatch loop re-takes it every sweep, because dispatch can
    /// create or destroy windows.
    pub fn snapshot_hwnds(&self) -> (r: Vec<usize>)
        ensures
            r@.len() == self.windows@.len(),
            forall|i: int| 0 <= i < r@.len() ==> r@[i] == self.windows@[i].hwnd,
    {
        let n = self.windows.len();
        let mut out: Vec<usize> = Vec::new();
        let mut i: usize = 0;
        while i < n
            invariant
                i <= n,
                n == self.windows@.len(),
                out@.len() == i,
                forall|j: int| 0 <= j < i ==> out@[j] == self.windows@[j].hwnd,
            decreases n - i,
        {
            out.push(self.windows[i].hwnd);
            i += 1;
        }
        out
    }

    /// Elects the context for one-time symbol resolution: the first
    /// window in map iteration order that has a graphics context, with
    /// its handle. Absence means a pure software-rendering run: symbol
    /// loading is skipped, which is valid and must not fail startup.
    pub fn first_gl_context(&self) -> (r: Option<(usize, usize)>)
        ensures
            match r {
                None => forall|i: int|
                    0 <= i < self.windows@.len() ==> self.windows@[i].gl_context is None,
                Some((hwnd, ctx)) => exists|i: int|
                    0 <= i < self.windows@.len() && self.windows@[i].gl_context == Some(ctx)
                        && self.windows@[i].hwnd == hwnd && (forall|j: int|
                        0 <= j < i ==> self.windows@[j].gl_context is None),
            },
    {
        let n = self.windows.len();
        let mut i: usize = 0;
        while i < n
            invariant
                i <= n,
                n == self.windows@.len(),
                forall|j: int| 0 <= j < i ==> self.windows@[j].gl_context is None,
            decreases n - i,
        {
            match self.windows[i].gl_context {
                Some(ctx) => {
                    return Some((self.windows[i].hwnd, ctx));
                },
                None => {},
            }
            i += 1;
        }
        None
    }

    /// Shows every live window, in map iteration order; nothing else
    /// about any window or the runtime changes.
    pub fn show_all(&mut self)
        requires
            old(self).wf(),
        ensures
            final(self).wf(),
            final(self).windows@.len() == old(self).windows@.len(),
            forall|i: int|
                0 <= i < final(self).windows@.len() ==> final(self).windows@[i] == old(
                    self,
                ).windows@[i].spec_shown(),
            final(self).hinstance == old(self).hinstance,
            final(self).timers@ == old(self).timers@,
            final(self).threads@ == old(self).threads@,
            final(self).gl == old(self).gl,
            final(self).dwm == old(self).dwm,
    {
        let n = self.windows.len();
        let mut i: usize = 0;
        while i < n
            invariant
                i <= n,
                n == self.windows@.len(),
                forall|j: int|
                    0 <= j < i ==> self.windows@[j] == old(self).windows@[j].spec_shown(),
                forall|j: int| i <= j < n ==> self.windows@[j] == old(self).windows@[j],
                self.hinstance == old(self).hinstance,
                self.timers@ == old(self).timers@,
                self.threads@ == old(self).threads@,
                self.gl == old(self).gl,
                self.dwm == old(self).dwm,
            decreases n - i,
        {
            let w = &mut self.windows[i];
            w.show();
            i += 1;
        }
        proof {
            assert forall|i: int, j: int|
                0 <= i < j < self.windows@.len() implies self.windows@[i].hwnd
                < self.windows@[j].hwnd by {
                assert(self.windows@[i] == old(self).windows@[i].spec_shown());
                assert(self.windows@[j] == old(self).windows@[j].spec_shown());
            }
            assert forall|i: int| 0 <= i < self.windows@.len() implies self.windows@[i].wf() by {
                assert(self.windows@[i] == old(self).windows@[i].spec_shown());
            }
        }
    }
}

/// The window invariant holds at every observation point: any window in
/// the runtime's map that has a graphics context also has a renderer.
pub proof fn lemma_window_invariant(rt: ApplicationRuntime, i: int)
    requires
        rt.wf(),
        0 <= i < rt.windows@.len(),
    ensures
        rt.windows@[i].gl_context is Some ==> rt.windows@[i].renderer is Some,
{
}

} // verus!
