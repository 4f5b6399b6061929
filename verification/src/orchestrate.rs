//! The orchestrator's state machine: one rebuild cycle per change event,
//! strictly serialized.
//!
//! The main loop outside the library performs the actions — running a
//! build, stopping the old server and starting a new one — and feeds the
//! outcome back as the next event. The machine guarantees the cycle order
//! build → server restart → reload signal, queues a change that arrives
//! mid-cycle instead of starting a second build, and on a failed build
//! keeps the previous server running and skips the reload signal.

use vstd::prelude::*;

verus! {

/// Where the orchestrator stands in a rebuild cycle.
#[derive(Clone, Copy, Debug, PartialEq, Eq, Structural)]
pub enum Phase {
    /// Steady state: the current server instance serves the built output.
    Serving,
    /// A build is running; the prior server instance keeps serving stale
    /// content meanwhile.
    Building,
    /// The build is done; the old server is being stopped and the new one
    /// started (the transition window).
    Restarting,
}

/// What the main loop reports to the orchestrator.
#[derive(Clone, Copy, Debug, PartialEq, Eq, Structural)]
pub enum OrchEvent {
    /// The watcher saw the content tree change.
    ContentChanged,
    /// The rebuild finished and the new output is on disk.
    BuildSucceeded,
    /// The rebuild failed; the output tree is as the last build left it.
    BuildFailed,
    /// The old server stopped and the new instance is accepting.
    RestartComplete,
}

/// What the main loop must do next.
#[derive(Clone, Copy, Debug, PartialEq, Eq, Structural)]
pub enum OrchAction {
    /// Run a full rebuild.
    RunBuild,
    /// Stop the running server instance and start a new one.
    RestartServer,
    /// Nothing: keep waiting for events.
    Idle,
}

/// The orchestrator's whole state: its phase, and whether a change event
/// arrived mid-cycle and waits to be processed.
#[derive(Clone, Copy, Debug, PartialEq, Eq, Structural)]
pub struct Orchestrator {
    pub phase: Phase,
    pub pending: bool,
}

/// The transition relation: from a state and an event to the next state,
/// the action the main loop must perform, and whether to signal connected
/// browsers to reload. The reload signal comes only once the restart
/// completes, so browsers are never told to reload before the new output
/// exists and is served.
pub open spec fn spec_step(s: Orchestrator, ev: OrchEvent) -> (Orchestrator, OrchAction, bool) {
    match ev {
        OrchEvent::ContentChanged => match s.phase {
            Phase::Serving => (
                Orchestrator { phase: Phase::Building, pending: false },
                OrchAction::RunBuild,
                false,
            ),
            _ => (Orchestrator { phase: s.phase, pending: true }, OrchAction::Idle, false),
        },
        OrchEvent::BuildSucceeded => match s.phase {
            Phase::Building => (
                Orchestrator { phase: Phase::Restarting, pending: s.pending },
                OrchAction::RestartServer,
                false,
            ),
            _ => (s, OrchAction::Idle, false),
        },
        OrchEvent::BuildFailed => match s.phase {
            Phase::Building => if s.pending {
                (Orchestrator { phase: Phase::Building, pending: false }, OrchAction::RunBuild, false)
            } else {
                (Orchestrator { phase: Phase::Serving, pending: false }, OrchAction::Idle, false)
            },
            _ => (s, OrchAction::Idle, false),
        },
        OrchEvent::RestartComplete => match s.phase {
            Phase::Restarting => if s.pending {
                (Orchestrator { phase: Phase::Building, pending: false }, OrchAction::RunBuild, true)
            } else {
                (Orchestrator { phase: Phase::Serving, pending: false }, OrchAction::Idle, true)
            },
            _ => (s, OrchAction::Idle, false),
        },
    }
}

impl Orchestrator {
    /// The state after the initial build, when the first server instance
    /// starts serving: steady state, nothing queued.
    pub fn new() -> (r: Orchestrator)
        ensures
            r.phase == Phase::Serving,
            !r.pending,
    {
        Orchestrator { phase: Phase::Serving, pending: false }
    }

    /// Process one event: move to the next state and return the action to
    /// perform and whether to signal a reload, exactly as `spec_step`
    /// relates them.
    pub fn on_event(&mut self, ev: OrchEvent) -> (r: (OrchAction, bool))
        ensures
            (*final(self), r.0, r.1) == spec_step(*old(self), ev),
    {
        match ev {
            OrchEvent::ContentChanged => {
                if matches!(self.phase, Phase::Serving) {
                    self.phase = Phase::Building;
                    self.pending = false;
                    (OrchAction::RunBuild, false)
                } else {
                    self.pending = true;
                    (OrchAction::Idle, false)
                }
            },
            OrchEvent::BuildSucceeded => {
                if matches!(self.phase, Phase::Building) {
                    self.phase = Phase::Restarting;
                    (OrchAction::RestartServer, false)
                } else {
                    (OrchAction::Idle, false)
                }
            },
            OrchEvent::BuildFailed => {
                if matches!(self.phase, Phase::Building) {
                    if self.pending {
                        self.pending = false;
                        (OrchAction::RunBuild, false)
                    } else {
                        self.phase = Phase::Serving;
                        (OrchAction::Idle, false)
                    }
                } else {
                    (OrchAction::Idle, false)
                }
            },
            OrchEvent::RestartComplete => {
                if matches!(self.phase, Phase::Restarting) {
                    let was_pending = self.pending;
                    self.pending = false;
                    if was_pending {
                        self.phase = Phase::Building;
                        (OrchAction::RunBuild, true)
                    } else {
                        self.phase = Phase::Serving;
                        (OrchAction::Idle, true)
                    }
                } else {
                    (OrchAction::Idle, false)
                }
            },
        }
    }
}

/// Rebuilds are serialized: a change event arriving while a rebuild cycle
/// is underway starts no build — it is queued, and the phase is unchanged.
pub proof fn lemma_rebuilds_serialized(s: Orchestrator)
    requires
        s.phase != Phase::Serving,
    ensures
        ({
            let (s2, act, notify) = spec_step(s, OrchEvent::ContentChanged);
            &&& act != OrchAction::RunBuild
            &&& s2.phase == s.phase
            &&& s2.pending
            &&& !notify
        }),
{
}

/// A queued change is processed only after the running cycle's
/// server-restart transition completes: only then does the next build
/// start.
pub proof fn lemma_queued_change_runs_after_restart(s: Orchestrator)
    requires
        s.phase == Phase::Restarting,
        s.pending,
    ensures
        spec_step(s, OrchEvent::RestartComplete) == (
            Orchestrator { phase: Phase::Building, pending: false },
            OrchAction::RunBuild,
            true,
        ),
{
}

/// Within one cycle the order is fixed: a reload is signalled only when
/// the server restart completes, which in turn is requested only when a
/// build succeeded — browsers are never told to reload before the new
/// output exists on disk and is served.
pub proof fn lemma_reload_follows_restart(s: Orchestrator, ev: OrchEvent)
    ensures
        ({
            let (s2, act, notify) = spec_step(s, ev);
            &&& notify ==> s.phase == Phase::Restarting && ev == OrchEvent::RestartComplete
            &&& act == OrchAction::RestartServer ==> s.phase == Phase::Building && ev
                == OrchEvent::BuildSucceeded
        }),
{
}

/// A failed build aborts the transition: the previous server instance
/// keeps serving (no restart is requested) and no reload is signalled for
/// that cycle.
pub proof fn lemma_failed_build_keeps_serving(s: Orchestrator)
    requires
        s.phase == Phase::Building,
    ensures
        ({
            let (s2, act, notify) = spec_step(s, OrchEvent::BuildFailed);
            &&& act != OrchAction::RestartServer
            &&& !notify
        }),
{
}

} // verus!
