//! The per-child monitor loop: spawn, wait for exit, decide, respawn.
//!
//! One loop owns one child record for the engine's lifetime. Each iteration
//! probes liveness (a child already running elsewhere is never spawned
//! again), spawns the child, blocks until it exits, and then decides:
//! respawn while the running count of restarts stays within the configured
//! limit, otherwise send one notice on the termination channel and end the
//! loop for good. `monitor_step` is that decision machine; the embedding
//! program runs the loop, performing each action (spawning, waiting,
//! deleting the PID file, sending the notice) and feeding the outcome back
//! in as the next event.

use vstd::prelude::*;
use vstd::string::StringExecFns;
use crate::config::ProcessConfig;
use crate::process::Processes;

verus! {

/// Where one child's monitor loop stands.
#[derive(Clone, Copy, PartialEq, Eq, Structural, Debug)]
pub enum MonitorState {
    /// About to ask whether the child is already running.
    Probing,
    /// The probe found nothing live; a spawn is due.
    Spawning,
    /// The child is running; the loop blocks until it exits.
    Waiting,
    /// The loop has ended for good; `notified` says whether the termination
    /// notice was sent on the way out.
    Terminated { notified: bool },
}

/// What the embedding program observed while carrying out the last action.
#[derive(Clone, Copy, PartialEq, Eq, Structural, Debug)]
pub enum MonitorEvent {
    /// The liveness probe's answer for the child's PID file.
    Probed(Option<u32>),
    /// The OS refused to spawn the child.
    SpawnFailed,
    /// The child was spawned with this PID.
    Spawned(u32),
    /// The child exited: `true` for a reaped exit (any exit status — success
    /// and failure count alike), `false` for a wait error.
    Exited(bool),
}

/// What the monitor loop must do next.
#[derive(Clone, Copy, PartialEq, Eq, Structural, Debug)]
pub enum MonitorAction {
    /// Launch the child, record its PID, and report `Spawned` or
    /// `SpawnFailed`.
    Spawn,
    /// Block until the child exits and report `Exited`.
    Wait,
    /// End the loop; nothing to clean up and no notice is owed.
    Stop,
    /// Delete the PID file, then end the loop without a notice.
    CleanupStop,
    /// Delete the PID file and run another iteration, from the probe.
    Respawn,
    /// Delete the PID file, send the termination notice, and end the loop.
    GiveUp,
}

/// The events that can arrive in each state: a probe answer while probing,
/// a spawn outcome while spawning, an exit while waiting — and nothing
/// once the loop has terminated.
pub open spec fn event_fits(state: MonitorState, event: MonitorEvent) -> bool {
    match (state, event) {
        (MonitorState::Probing, MonitorEvent::Probed(_)) => true,
        (MonitorState::Spawning, MonitorEvent::SpawnFailed) => true,
        (MonitorState::Spawning, MonitorEvent::Spawned(_)) => true,
        (MonitorState::Waiting, MonitorEvent::Exited(_)) => true,
        _ => false,
    }
}

/// The transition function of the monitor loop: from the record's
/// configuration, the loop's state and the observed event to the new
/// configuration, the next state and the action due. A probe that finds the
/// child already running terminates the loop without a notice; a spawn
/// failure likewise (a misconfigured command does not become valid on
/// retry); a wait error cleans up and stops; a reaped exit bumps the respawn
/// counter and either respawns (within the limit) or gives up with the one
/// termination notice.
pub open spec fn step_spec(cfg: ProcessConfig, state: MonitorState, event: MonitorEvent) -> (
    ProcessConfig,
    MonitorState,
    MonitorAction,
) {
    match (state, event) {
        (MonitorState::Probing, MonitorEvent::Probed(Some(_))) => (
            cfg,
            MonitorState::Terminated { notified: false },
            MonitorAction::Stop,
        ),
        (MonitorState::Probing, MonitorEvent::Probed(None)) => (
            cfg,
            MonitorState::Spawning,
            MonitorAction::Spawn,
        ),
        (MonitorState::Spawning, MonitorEvent::SpawnFailed) => (
            cfg,
            MonitorState::Terminated { notified: false },
            MonitorAction::Stop,
        ),
        (MonitorState::Spawning, MonitorEvent::Spawned(_)) => (
            cfg,
            MonitorState::Waiting,
            MonitorAction::Wait,
        ),
        (MonitorState::Waiting, MonitorEvent::Exited(false)) => (
            cfg,
            MonitorState::Terminated { notified: false },
            MonitorAction::CleanupStop,
        ),
        (MonitorState::Waiting, MonitorEvent::Exited(true)) => {
            let bumped = ProcessConfig {
                respawns: Some((cfg.spec_respawn_count() + 1) as u32),
                ..cfg
            };
            if cfg.spec_respawn_count() + 1 <= cfg.spec_respawn_limit() {
                (bumped, MonitorState::Probing, MonitorAction::Respawn)
            } else {
                (bumped, MonitorState::Terminated { notified: true }, MonitorAction::GiveUp)
            }
        },
        _ => (cfg, state, MonitorAction::Stop),
    }
}

/// Bumps the record's running count of restarts after an exit and decides
/// whether the child stays within its respawn budget: `true` to respawn,
/// `false` once the limit (the configured value, or the default) is
/// exceeded.
pub fn change_status(process: &mut Processes) -> (within_limit: bool)
    requires
        old(process).processcfg.spec_respawn_count() < u32::MAX,
    ensures
        final(process).processcfg == (ProcessConfig {
            respawns: Some((old(process).processcfg.spec_respawn_count() + 1) as u32),
            ..old(process).processcfg
        }),
        final(process).children == old(process).children,
        within_limit == (old(process).processcfg.spec_respawn_count() + 1
            <= old(process).processcfg.spec_respawn_limit()),
{
    let count: u32 = match process.processcfg.respawns {
        Some(n) => n,
        None => 0,
    };
    let next = count + 1;
    process.processcfg.respawns = Some(next);
    let limit = process.processcfg.respawn_limit();
    next <= limit
}

/// One turn of the monitor loop on the child's record: applies the
/// transition function and leaves everything else of the record untouched.
/// The embedding program performs the returned action and calls again with
/// the event it observed.
pub fn monitor_step(process: &mut Processes, state: MonitorState, event: MonitorEvent) -> (r: (
    MonitorState,
    MonitorAction,
))
    requires
        event_fits(state, event),
        old(process).processcfg.spec_respawn_count() < u32::MAX,
    ensures
        (final(process).processcfg, r.0, r.1) == step_spec(
            old(process).processcfg,
            state,
            event,
        ),
        final(process).children == old(process).children,
{
    match (state, event) {
        (MonitorState::Probing, MonitorEvent::Probed(found)) => match found {
            Some(_) => (MonitorState::Terminated { notified: false }, MonitorAction::Stop),
            None => (MonitorState::Spawning, MonitorAction::Spawn),
        },
        (MonitorState::Spawning, MonitorEvent::SpawnFailed) => (
            MonitorState::Terminated { notified: false },
            MonitorAction::Stop,
        ),
        (MonitorState::Spawning, MonitorEvent::Spawned(_)) => (
            MonitorState::Waiting,
            MonitorAction::Wait,
        ),
        (MonitorState::Waiting, MonitorEvent::Exited(ok)) => {
            if ok {
                if change_status(process) {
                    (MonitorState::Probing, MonitorAction::Respawn)
                } else {
                    (MonitorState::Terminated { notified: true }, MonitorAction::GiveUp)
                }
            } else {
                (MonitorState::Terminated { notified: false }, MonitorAction::CleanupStop)
            }
        },
        _ => (state, MonitorAction::Stop),
    }
}

/// The one notice sent on the termination channel when a child exhausts its
/// respawn budget, identifying the child by name.
pub fn termination_message(name: &str) -> (msg: String)
    ensures
        msg@ == "Child process "@ + name@ + " exited unexpectedly!"@,
{
    let mut msg = String::from_str("Child process ");
    msg.append(name);
    msg.append(" exited unexpectedly!");
    msg
}

/// What a run of the monitor loop has done after some number of exits.
pub struct MonitorRun {
    pub cfg: ProcessConfig,
    pub state: MonitorState,
    pub spawns: nat,
    pub notices: nat,
}

/// One full cycle of the loop, composed from `step_spec`: the probe finds
/// nothing, the child is spawned with `pid`, and it exits reaped.
pub open spec fn cycle_spec(cfg: ProcessConfig, pid: u32) -> (ProcessConfig, MonitorState, MonitorAction) {
    let probed = step_spec(cfg, MonitorState::Probing, MonitorEvent::Probed(None));
    let spawned = step_spec(probed.0, probed.1, MonitorEvent::Spawned(pid));
    step_spec(spawned.0, spawned.1, MonitorEvent::Exited(true))
}

/// The monitor loop driven from a fresh record through `exits` full cycles
/// (each: probe clear, spawn, reaped exit), counting the spawns performed
/// and the termination notices sent. Once the loop terminates, further
/// exits change nothing: the loop's execution unit has ended.
pub open spec fn monitor_run(cfg: ProcessConfig, exits: nat) -> MonitorRun
    decreases exits,
{
    if exits == 0 {
        MonitorRun { cfg, state: MonitorState::Probing, spawns: 0, notices: 0 }
    } else {
        let prev = monitor_run(cfg, (exits - 1) as nat);
        if prev.state is Terminated {
            prev
        } else {
            let next = cycle_spec(prev.cfg, 1);
            MonitorRun {
                cfg: next.0,
                state: next.1,
                spawns: prev.spawns + 1,
                notices: if next.2 is GiveUp {
                    prev.notices + 1
                } else {
                    prev.notices
                },
            }
        }
    }
}

/// Law (respawn policy, within the limit): with respawn limit `n`, a child
/// whose process has exited `k` times, `k <= n`, is still supervised: one
/// spawn per exit so far, the counter reads `k`, the loop stands at the
/// probe ready to respawn, and no termination notice has been sent.
pub proof fn lemma_respawn_within_limit(cfg: ProcessConfig, k: nat)
    requires
        cfg.respawns is None,
        cfg.spec_respawn_limit() < u32::MAX,
        k <= cfg.spec_respawn_limit(),
    ensures
        monitor_run(cfg, k).state == MonitorState::Probing,
        monitor_run(cfg, k).cfg.spec_respawn_count() == k,
        monitor_run(cfg, k).cfg.spec_respawn_limit() == cfg.spec_respawn_limit(),
        monitor_run(cfg, k).spawns == k,
        monitor_run(cfg, k).notices == 0,
    decreases k,
{
    if k > 0 {
        lemma_respawn_within_limit(cfg, (k - 1) as nat);
    }
}

/// Law (respawn exhaustion): with respawn limit `n`, the `n + 1`-th exit is
/// final: the loop terminates having sent exactly one termination notice,
/// after exactly `n + 1` spawns (one initial start plus `n` respawns), and
/// no further exit changes anything — no further respawn is ever attempted.
pub proof fn lemma_respawn_exhausted(cfg: ProcessConfig, k: nat)
    requires
        cfg.respawns is None,
        cfg.spec_respawn_limit() < u32::MAX,
        k > cfg.spec_respawn_limit(),
    ensures
        monitor_run(cfg, k).state == (MonitorState::Terminated { notified: true }),
        monitor_run(cfg, k).cfg.spec_respawn_count() == cfg.spec_respawn_limit() + 1,
        monitor_run(cfg, k).spawns == cfg.spec_respawn_limit() + 1,
        monitor_run(cfg, k).notices == 1,
    decreases k,
{
    let limit = cfg.spec_respawn_limit();
    if k == limit + 1 {
        lemma_respawn_within_limit(cfg, limit as nat);
    } else {
        lemma_respawn_exhausted(cfg, (k - 1) as nat);
    }
}

/// Law (duplicate-start prevention): the monitor spawns only after a probe
/// that found nothing live. A record already reporting a live PID for its
/// PID file is never spawned a second time: its loop terminates at once,
/// without a notice.
pub proof fn lemma_no_duplicate_start(cfg: ProcessConfig, state: MonitorState, event: MonitorEvent)
    requires
        event_fits(state, event),
    ensures
        step_spec(cfg, state, event).2 is Spawn ==> event == MonitorEvent::Probed(None::<u32>),
        (event matches MonitorEvent::Probed(p) && p is Some) ==> step_spec(cfg, state, event) == (
            cfg,
            MonitorState::Terminated { notified: false },
            MonitorAction::Stop,
        ),
{
}

} // verus!
