//! Function-table loading: the graphics API table and the optional
//! compositor-extension table.
//!
//! A symbol address is a plain machine word; the null address `0` is the
//! sentinel for an unresolved entry. The driver performs the native
//! queries — the context-specific resolver of the current graphics context
//! and the export table of the statically loaded graphics library — and
//! hands both candidate addresses per symbol to this module, which applies
//! the resolution protocol. Resolution is total: every combination of
//! outcomes yields an entry, possibly null, and never an error.

use vstd::prelude::*;

verus! {

/// The resolution protocol for one symbol: the context resolver's answer
/// wins if it is non-null; otherwise the static export table answers, but
/// only if the graphics library was found; otherwise the entry stays null.
pub open spec fn spec_resolve(context_addr: usize, export_addr: usize, dll_loaded: bool) -> usize {
    if context_addr != 0 {
        context_addr
    } else if dll_loaded {
        export_addr
    } else {
        0
    }
}

/// Resolves one symbol from the two candidate addresses the driver
/// queried for it.
pub fn resolve_entry(context_addr: usize, export_addr: usize, dll_loaded: bool) -> (r: usize)
    ensures
        r == spec_resolve(context_addr, export_addr, dll_loaded),
{
    if context_addr != 0 {
        context_addr
    } else if dll_loaded {
        export_addr
    } else {
        0
    }
}

/// Resolution is deterministic and idempotent: as long as the loaded
/// library and the current context answer alike — symbol addresses are
/// stable for the process lifetime once the library is loaded — resolving
/// the same symbol a second time yields the same address (or null) again.
pub proof fn lemma_resolution_deterministic(
    context_addr: usize,
    export_addr: usize,
    dll_loaded: bool,
    context_addr2: usize,
    export_addr2: usize,
    dll_loaded2: bool,
)
    requires
        context_addr2 == context_addr,
        export_addr2 == export_addr,
        dll_loaded2 == dll_loaded,
    ensures
        spec_resolve(context_addr2, export_addr2, dll_loaded2) == spec_resolve(
            context_addr,
            export_addr,
            dll_loaded,
        ),
{
}

/// Resolution never fails: each of the four hit/miss combinations of the
/// context resolver and the export table yields a definite entry — the
/// context address when it is non-null, the export address otherwise, and
/// the null sentinel when both sources miss or the library is absent.
pub proof fn lemma_resolution_total(context_addr: usize, export_addr: usize, dll_loaded: bool)
    ensures
        context_addr != 0 ==> spec_resolve(context_addr, export_addr, dll_loaded) == context_addr,
        context_addr == 0 && dll_loaded ==> spec_resolve(context_addr, export_addr, dll_loaded)
            == export_addr,
        context_addr == 0 && !dll_loaded ==> spec_resolve(context_addr, export_addr, dll_loaded)
            == 0,
{
}

/// The flat table of graphics API entry points, one slot per symbol.
///
/// Immutable once loaded and shared by every window; each entry is
/// independently a resolved address or null, and callers of individual
/// functions check for null before invoking. `dll_loaded` records whether
/// the graphics library itself was found when the shell started.
pub struct GlFunctionTable {
    pub dll_loaded: bool,
    pub entries: Vec<usize>,
}

/// Whether every entry of the table is still the null sentinel.
pub open spec fn spec_all_null(entries: Seq<usize>) -> bool {
    forall|i: int| 0 <= i < entries.len() ==> entries[i] == 0
}

impl GlFunctionTable {
    /// Builds the unloaded table: the driver reports whether the graphics
    /// library was found, and every one of the `slots` entries starts as
    /// the null sentinel. No symbol is resolved yet.
    pub fn initialize(dll_loaded: bool, slots: usize) -> (r: Self)
        ensures
            r.dll_loaded == dll_loaded,
            r.entries@.len() == slots,
            spec_all_null(r.entries@),
    {
        GlFunctionTable { dll_loaded, entries: vec![0usize; slots] }
    }

    /// The number of slots in the table.
    pub fn slot_count(&self) -> (r: usize)
        ensures
            r == self.entries@.len(),
    {
        self.entries.len()
    }

    /// Reads one entry; null means the symbol is unresolved or absent.
    pub fn entry(&self, slot: usize) -> (r: usize)
        requires
            slot < self.entries@.len(),
        ensures
            r == self.entries@[slot as int],
    {
        self.entries[slot]
    }

    /// Whether every entry is still null, as in a pure software-rendering
    /// run where the loader was never invoked.
    pub fn is_all_null(&self) -> (r: bool)
        ensures
            r == spec_all_null(self.entries@),
    {
        let mut i: usize = 0;
        while i < self.entries.len()
            invariant
                i <= self.entries@.len(),
                forall|j: int| 0 <= j < i ==> self.entries@[j] == 0,
            decreases self.entries@.len() - i,
        {
            if self.entries[i] != 0 {
                return false;
            }
            i += 1;
        }
        true
    }

    /// Loads the table: slot by slot, applies the resolution protocol to
    /// the candidate addresses the driver queried while a graphics context
    /// was current. Total by construction — no failure path exists.
    pub fn load(&mut self, context_addrs: &Vec<usize>, export_addrs: &Vec<usize>)
        requires
            context_addrs@.len() == old(self).entries@.len(),
            export_addrs@.len() == old(self).entries@.len(),
        ensures
            final(self).dll_loaded == old(self).dll_loaded,
            final(self).entries@.len() == old(self).entries@.len(),
            forall|i: int|
                0 <= i < final(self).entries@.len() ==> final(self).entries@[i] == spec_resolve(
                    context_addrs@[i],
                    export_addrs@[i],
                    old(self).dll_loaded,
                ),
    {
        let n = self.entries.len();
        let mut resolved: Vec<usize> = Vec::new();
        let mut i: usize = 0;
        while i < n
            invariant
                i <= n,
                n == context_addrs@.len(),
                n == export_addrs@.len(),
                resolved@.len() == i,
                forall|j: int|
                    0 <= j < i ==> resolved@[j] == spec_resolve(
                        context_addrs@[j],
                        export_addrs@[j],
                        self.dll_loaded,
                    ),
            decreases n - i,
        {
            let e = resolve_entry(context_addrs[i], export_addrs[i], self.dll_loaded);
            resolved.push(e);
            i += 1;
        }
        self.entries = resolved;
    }
}

/// The compositor-extension table: a handful of optional entry points of
/// the OS compositor's library, used for blur and extended-frame effects.
///
/// Each field is the resolved non-null address of one entry point, or
/// `None` if that symbol was absent — a silently disabled feature, never
/// an error.
pub struct DwmFunctionTable {
    pub enable_blur_behind_window: Option<usize>,
    pub extend_frame_into_client_area: Option<usize>,
    pub def_window_proc: Option<usize>,
}

/// A resolved extension entry: the address if the symbol was found,
/// absence otherwise.
pub open spec fn spec_extension_entry(addr: usize) -> Option<usize> {
    if addr != 0 {
        Some(addr)
    } else {
        None
    }
}

/// The extension table that a probe of the compositor library yields:
/// none at all if the library was absent, otherwise one entry per symbol.
pub open spec fn spec_dwm_table(
    dll_found: bool,
    enable_blur_addr: usize,
    extend_frame_addr: usize,
    def_window_proc_addr: usize,
) -> Option<DwmFunctionTable> {
    if dll_found {
        Some(
            DwmFunctionTable {
                enable_blur_behind_window: spec_extension_entry(enable_blur_addr),
                extend_frame_into_client_area: spec_extension_entry(extend_frame_addr),
                def_window_proc: spec_extension_entry(def_window_proc_addr),
            },
        )
    } else {
        None
    }
}

impl DwmFunctionTable {
    /// Builds the extension table from what the driver resolved. If the
    /// compositor library itself was not found there is no table at all;
    /// otherwise each entry point is independently present or absent.
    /// Absence, of the library or of any symbol, is never an error.
    pub fn initialize(
        dll_found: bool,
        enable_blur_addr: usize,
        extend_frame_addr: usize,
        def_window_proc_addr: usize,
    ) -> (r: Option<Self>)
        ensures
            r == spec_dwm_table(
                dll_found,
                enable_blur_addr,
                extend_frame_addr,
                def_window_proc_addr,
            ),
            r is Some <==> dll_found,
    {
        if !dll_found {
            return None;
        }
        Some(
            DwmFunctionTable {
                enable_blur_behind_window: if enable_blur_addr != 0 {
                    Some(enable_blur_addr)
                } else {
                    None
                },
                extend_frame_into_client_area: if extend_frame_addr != 0 {
                    Some(extend_frame_addr)
                } else {
                    None
                },
                def_window_proc: if def_window_proc_addr != 0 {
                    Some(def_window_proc_addr)
                } else {
                    None
                },
            },
        )
    }
}

} // verus!
