//! The monitor's state machine and the decision taken on each probe cycle.
//!
//! The monitor owns a single "is the watcher running" flag. Starting it is
//! idempotent: the first start reports that a watcher must be spawned, every
//! later start is a no-op. Each probe cycle combines the two probe readings
//! into one binary detection outcome; a positive outcome hands control to the
//! destruction reactor.

use vstd::prelude::*;

use crate::denylist::{name_is_dangerous, name_matches_denylist, snapshot_detects};

verus! {

/// The debugger probe fires when the OS attached-debugger query reported
/// true, or when the debug-flag byte read from the process environment block
/// is set. The byte is absent when the block could not be located; an absent
/// byte alone never fires.
pub open spec fn debugger_signals(api_flag: bool, peb_flag: Option<u8>) -> bool {
    api_flag || (peb_flag matches Some(b) && b != 0)
}

/// The readings of one probe cycle: the debugger check and the
/// analysis-tool check, each already reduced to a boolean.
pub struct ProbeCycle {
    pub debugger: bool,
    pub tools: bool,
}

/// One probe cycle calls for destruction exactly when either check fired.
pub open spec fn cycle_detects(c: ProbeCycle) -> bool {
    c.debugger || c.tools
}

/// Some cycle of a run calls for destruction.
pub open spec fn any_cycle_detects(cycles: Seq<ProbeCycle>) -> bool {
    exists|i: int| 0 <= i < cycles.len() && cycle_detects(cycles[i])
}

/// The watcher flag after a start operation: set, whatever it was before.
pub open spec fn watching_after_start(watching: bool) -> bool {
    true
}

/// Whether a start operation spawns a new watcher: only from the idle state.
pub open spec fn start_spawns(watching: bool) -> bool {
    !watching
}

/// The anti-tampering monitor. Construct it once, then start it once; the
/// host runs the watcher on its own thread, asking [`should_trigger`] about
/// each probe cycle and handing a positive answer to the reactor.
pub struct AntiDebug {
    is_running: bool,
}

impl AntiDebug {
    /// True while the background watcher is active.
    pub closed spec fn watching(&self) -> bool {
        self.is_running
    }

    /// A fresh monitor is idle: no watcher runs until `start_protection`.
    pub fn new() -> (m: Self)
        ensures
            !m.watching(),
    {
        Self { is_running: false }
    }

    /// Move the monitor into its watching state. Returns whether the caller
    /// must spawn the background watcher: true on the first call, false on
    /// every later one, so that the watcher is never duplicated.
    pub fn start_protection(&mut self) -> (spawn: bool)
        ensures
            final(self).watching() == watching_after_start(old(self).watching()),
            spawn == start_spawns(old(self).watching()),
    {
        if self.is_running {
            return false;
        }
        self.is_running = true;
        true
    }

    /// Combine the two debugger signals of one probe cycle. `api_flag` is the
    /// OS attached-debugger query; `peb_flag` is the debug-flag byte read from
    /// the process environment block, absent when that block was not found.
    /// The two vectors are deliberately redundant: either one alone can be
    /// defeated independently by different classes of debugger.
    pub fn detect_debugger(api_flag: bool, peb_flag: Option<u8>) -> (detected: bool)
        ensures
            detected == debugger_signals(api_flag, peb_flag),
    {
        match peb_flag {
            Some(b) => api_flag || b != 0,
            None => api_flag,
        }
    }

    /// Scan one snapshot of running process image names for analysis tooling.
    /// Returns true exactly when some captured name, lowercased, contains a
    /// denylist entry as a substring.
    pub fn detect_analysis_tools(snapshot: &Vec<Vec<u8>>) -> (detected: bool)
        ensures
            detected == snapshot_detects(snapshot.deep_view()),
    {
        let mut i: usize = 0;
        while i < snapshot.len()
            invariant
                i <= snapshot@.len(),
                forall|t: int| 0 <= t < i ==> !name_is_dangerous(snapshot.deep_view()[t]),
            decreases snapshot@.len() - i,
        {
            proof {
                assert(snapshot.deep_view()[i as int] == snapshot@[i as int].deep_view());
                assert(snapshot@[i as int].deep_view() =~= snapshot@[i as int]@);
            }
            if name_matches_denylist(snapshot[i].as_slice()) {
                return true;
            }
            i += 1;
        }
        false
    }

    /// The installation-integrity query the host makes once at startup.
    /// Presently a placeholder for future verification logic: it reports the
    /// installation as trustworthy unconditionally.
    pub fn verify_integrity() -> (ok: bool)
        ensures
            ok,
    {
        true
    }
}

/// The decision of one watcher iteration: destruction is triggered exactly
/// when either probe check fired on this cycle.
pub fn should_trigger(debugger_detected: bool, tools_detected: bool) -> (trigger: bool)
    ensures
        trigger == cycle_detects(ProbeCycle { debugger: debugger_detected, tools: tools_detected }),
{
    debugger_detected || tools_detected
}

/// Law: a run of probe cycles in which neither check ever fires never calls
/// for destruction — the idle monitor produces no false positive.
pub proof fn lemma_idle_cycles_never_trigger(cycles: Seq<ProbeCycle>)
    requires
        forall|i: int| 0 <= i < cycles.len() ==> !cycles[i].debugger && !cycles[i].tools,
    ensures
        !any_cycle_detects(cycles),
{
}

/// Law: starting the monitor twice in succession spawns exactly one watcher.
/// The first start from the idle state spawns; a second start, from the state
/// the first one leaves behind, never does, whatever the starting state was.
pub proof fn lemma_double_start_spawns_once(watching: bool)
    ensures
        !watching ==> start_spawns(watching),
        !start_spawns(watching_after_start(watching)),
{
}

} // verus!
