//! The process tree and the administrative operations over it.
//!
//! One record stands for the supervisor's own (root) process, plus one
//! independently owned record per supervised child. The operations here
//! decide everything the façade does — what to spawn, which PID to signal,
//! which PID file to delete — while the embedding program carries the
//! decisions out (spawning, signalling, filesystem work) and brings back
//! the outcomes (liveness probe answers).

use vstd::prelude::*;
use crate::config::ForeverConfig;
use crate::config::ProcessConfig;

verus! {

/// A fatal startup condition for one record: it cannot be supervised.
#[derive(Clone, Copy, PartialEq, Eq, Structural, Debug)]
pub enum StartError {
    /// No command is configured, so there is nothing to spawn.
    NoCommand,
    /// No PID-file path is configured, so a spawned process could not be
    /// tracked.
    NoPidfile,
}

/// What a `stop` of one record amounts to, given the liveness probe's
/// answer: the PID to send the termination signal to (if the record is
/// live), and the PID file to delete afterwards (always, when one is
/// configured, whatever became of the signal).
#[derive(Debug)]
pub struct StopPlan {
    pub kill_pid: Option<u32>,
    pub delete_path: Option<String>,
}

/// `plan` is the stop plan for a record configured as `cfg` whose liveness
/// probe answered `probe`.
pub open spec fn stop_plan_matches(cfg: ProcessConfig, probe: Option<u32>, plan: StopPlan) -> bool {
    &&& plan.kill_pid == (if cfg.pidfile is Some {
        probe
    } else {
        None::<u32>
    })
    &&& (plan.delete_path is Some <==> cfg.pidfile is Some)
    &&& (plan.delete_path matches Some(d) ==> cfg.pidfile matches Some(p) && d@ == p@)
}

/// A valid set of child definitions: every child is named and no two share
/// a name. The engine demands this of the configuration before the tree is
/// built; rejecting anything else is the configuration loader's business,
/// checked with `check_children`.
pub open spec fn spec_children_valid(children: Seq<ProcessConfig>) -> bool {
    &&& forall|i: int|
        0 <= i < children.len() ==> (#[trigger] children[i]).name is Some
    &&& forall|i: int, j: int|
        0 <= i < j < children.len() ==> (#[trigger] children[i]).name->0@ != (
        #[trigger] children[j]).name->0@
}

/// Decides whether a list of child definitions is valid: every child named,
/// all names distinct — exactly what building the process tree requires.
pub fn check_children(children: &Vec<ProcessConfig>) -> (ok: bool)
    ensures
        ok == spec_children_valid(children@),
{
    let mut i: usize = 0;
    while i < children.len()
        invariant
            i <= children@.len(),
            forall|p: int| 0 <= p < i ==> (#[trigger] children@[p]).name is Some,
            forall|p: int, q: int|
                0 <= p < q < i ==> (#[trigger] children@[p]).name->0@ != (
                #[trigger] children@[q]).name->0@,
        decreases children@.len() - i,
    {
        let name_i = match &children[i].name {
            Some(n) => n,
            None => {
                return false;
            },
        };
        let mut j: usize = 0;
        while j < i
            invariant
                j <= i < children@.len(),
                children@[i as int].name is Some,
                name_i@ == children@[i as int].name->0@,
                forall|p: int| 0 <= p < i ==> (#[trigger] children@[p]).name is Some,
                forall|p: int, q: int|
                    0 <= p < q < i ==> (#[trigger] children@[p]).name->0@ != (
                    #[trigger] children@[q]).name->0@,
                forall|q: int|
                    0 <= q < j ==> (#[trigger] children@[q]).name->0@ != children@[i as int].name->0@,
            decreases i - j,
        {
            let name_j = match &children[j].name {
                Some(n) => n,
                None => {
                    return false;
                },
            };
            if String::eq(name_j, name_i) {
                proof {
                    assert(children@[j as int].name->0@ == children@[i as int].name->0@);
                }
                return false;
            }
            j += 1;
        }
        i += 1;
    }
    true
}

/// One record of the process tree: the root record plus one per child. The
/// live OS handle of a spawned process is owned by the embedding program
/// (by the monitor loop running the record), not by the tree; the PID file
/// and the recorded `pid` are the ground truth for liveness.
#[derive(Debug)]
pub struct Processes {
    pub processcfg: ProcessConfig,
    pub children: Vec<Processes>,
}

impl Processes {
    /// Well-formed tree: every child is named, no two children share a
    /// name, and children have no children of their own.
    pub open spec fn wf(self) -> bool {
        &&& forall|i: int|
            0 <= i < self.children@.len() ==> (#[trigger] self.children@[i]).processcfg.name
                is Some
        &&& forall|i: int, j: int|
            0 <= i < j < self.children@.len()
                ==> (#[trigger] self.children@[i]).processcfg.name->0@ != (
            #[trigger] self.children@[j]).processcfg.name->0@
        &&& forall|i: int|
            0 <= i < self.children@.len() ==> (#[trigger] self.children@[i]).children@.len() == 0
    }

    /// Builds the process tree from the parsed configuration: the root
    /// record from the supervisor's own definition (with fresh bookkeeping),
    /// and one child record per child definition, in order. The
    /// configuration must list the children, each must be named, and names
    /// must be unique — rejecting duplicates is the configuration loader's
    /// business, before the tree is built.
    pub fn new(foreverconfig: ForeverConfig) -> (tree: Processes)
        requires
            foreverconfig.process is Some,
            spec_children_valid(foreverconfig.process->0@),
        ensures
            tree.processcfg.name == foreverconfig.name,
            tree.processcfg.command == foreverconfig.command,
            tree.processcfg.args == foreverconfig.args,
            tree.processcfg.pidfile == foreverconfig.pidfile,
            tree.processcfg.respawn is None,
            tree.processcfg.pid is None,
            tree.processcfg.respawns is None,
            tree.children@.len() == foreverconfig.process->0@.len(),
            forall|i: int|
                0 <= i < tree.children@.len() ==> (#[trigger] tree.children@[i]).processcfg
                    == foreverconfig.process->0@[i],
            tree.wf(),
    {
        let ForeverConfig { name, command, args, pidfile, process } = foreverconfig;
        let parentcfg = ProcessConfig {
            name,
            command,
            args,
            pidfile,
            respawn: None,
            pid: None,
            respawns: None,
        };
        let mut cfgs = match process {
            Some(v) => v,
            None => Vec::new(),
        };
        let ghost orig = cfgs@;
        let mut children: Vec<Processes> = Vec::new();
        while cfgs.len() > 0
            invariant
                children@.len() + cfgs@.len() == orig.len(),
                cfgs@ =~= orig.subrange(children@.len() as int, orig.len() as int),
                forall|i: int|
                    0 <= i < children@.len() ==> (#[trigger] children@[i]).processcfg == orig[i]
                        && children@[i].children@.len() == 0,
            decreases cfgs@.len(),
        {
            let cfg = cfgs.remove(0);
            proof {
                assert(cfg == orig[children@.len() as int]);
                assert(cfgs@ =~= orig.subrange(children@.len() + 1 as int, orig.len() as int));
            }
            let child = Processes { processcfg: cfg, children: Vec::new() };
            children.push(child);
        }
        Processes { processcfg: parentcfg, children }
    }

    /// The record's own liveness answer: absent when no PID file is
    /// configured (there is nowhere to look), otherwise whatever the
    /// liveness probe of the configured PID file answered.
    pub fn find_process(&self, probe: Option<u32>) -> (r: Option<u32>)
        ensures
            r == (if self.processcfg.pidfile is Some {
                probe
            } else {
                None::<u32>
            }),
    {
        match &self.processcfg.pidfile {
            Some(_) => probe,
            None => None,
        }
    }

    /// The spawn request for this record: the configured command and its
    /// arguments (the empty list when none are configured). A record with
    /// no command cannot be started — a fatal startup error.
    pub fn start_command(&self) -> (r: Result<(String, Vec<String>), StartError>)
        ensures
            self.processcfg.command is None ==> r == Err::<(String, Vec<String>), StartError>(
                StartError::NoCommand,
            ),
            self.processcfg.command matches Some(cmd) ==> (r matches Ok((c, a)) && c@ == cmd@
                && (match self.processcfg.args {
                Some(args) => a@.len() == args@.len() && forall|j: int|
                    0 <= j < args@.len() ==> (#[trigger] a@[j])@ == args@[j]@,
                None => a@.len() == 0,
            })),
    {
        match &self.processcfg.command {
            None => Err(StartError::NoCommand),
            Some(cmd) => {
                let command = cmd.clone();
                let args = match &self.processcfg.args {
                    Some(a) => clone_args(a),
                    None => Vec::new(),
                };
                Ok((command, args))
            },
        }
    }

    /// Records a successful spawn: stores the new PID in the record and
    /// hands back the configured PID-file path for the store to write. A
    /// process supervised beyond the current call must declare where its
    /// PID is recorded: with no PID-file path configured this is a fatal
    /// startup error and the record is left unchanged.
    pub fn record_start(&mut self, pid: u32) -> (r: Result<String, StartError>)
        ensures
            old(self).processcfg.pidfile is None ==> (r == Err::<String, StartError>(
                StartError::NoPidfile,
            ) && *final(self) == *old(self)),
            old(self).processcfg.pidfile matches Some(p) ==> (r matches Ok(path) && path@ == p@
                && *final(self) == (Processes {
                processcfg: ProcessConfig { pid: Some(pid), ..old(self).processcfg },
                children: old(self).children,
            })),
    {
        let path = match &self.processcfg.pidfile {
            None => {
                return Err(StartError::NoPidfile);
            },
            Some(p) => p.clone(),
        };
        self.processcfg.pid = Some(pid);
        Ok(path)
    }

    /// The stop plan for this record: signal the live PID if the probe
    /// found one, and delete the configured PID file afterwards in every
    /// case, so no stale liveness record survives. Stopping a record with
    /// no PID file configured signals nothing and touches nothing.
    pub fn stop(&self, probe: Option<u32>) -> (plan: StopPlan)
        ensures
            stop_plan_matches(self.processcfg, probe, plan),
    {
        match &self.processcfg.pidfile {
            None => StopPlan { kill_pid: None, delete_path: None },
            Some(p) => StopPlan { kill_pid: probe, delete_path: Some(p.clone()) },
        }
    }

    /// Stop plans for the whole tree: the root record first, then every
    /// child in order (order across children is immaterial — no child
    /// depends on another). `probes` holds the liveness answers, root
    /// first, then one per child.
    pub fn stop_all(&self, probes: &Vec<Option<u32>>) -> (plans: Vec<StopPlan>)
        requires
            probes@.len() == self.children@.len() + 1,
        ensures
            plans@.len() == probes@.len(),
            stop_plan_matches(self.processcfg, probes@[0], plans@[0]),
            forall|i: int|
                1 <= i < plans@.len() ==> stop_plan_matches(
                    self.children@[i - 1].processcfg,
                    probes@[i],
                    #[trigger] plans@[i],
                ),
    {
        let mut plans: Vec<StopPlan> = Vec::new();
        plans.push(self.stop(probes[0]));
        let mut i: usize = 0;
        while i < self.children.len()
            invariant
                probes@.len() == self.children@.len() + 1,
                i <= self.children@.len(),
                plans@.len() == i + 1,
                stop_plan_matches(self.processcfg, probes@[0], plans@[0]),
                forall|j: int|
                    1 <= j < plans@.len() ==> stop_plan_matches(
                        self.children@[j - 1].processcfg,
                        probes@[j],
                        #[trigger] plans@[j],
                    ),
            decreases self.children@.len() - i,
        {
            plans.push(self.children[i].stop(probes[i + 1]));
            i += 1;
        }
        plans
    }

    /// Rotation signals for every child: each child found live by its probe
    /// gets the rotation request at that PID; a child with no PID file, or
    /// not running, gets none. No PID file is touched by log rotation.
    pub fn logrotate(&self, probes: &Vec<Option<u32>>) -> (signals: Vec<Option<u32>>)
        requires
            probes@.len() == self.children@.len(),
        ensures
            signals@.len() == probes@.len(),
            forall|i: int|
                0 <= i < signals@.len() ==> #[trigger] signals@[i] == (if self.children@[i].processcfg.pidfile is Some {
                    probes@[i]
                } else {
                    None::<u32>
                }),
    {
        let mut signals: Vec<Option<u32>> = Vec::new();
        let mut i: usize = 0;
        while i < self.children.len()
            invariant
                probes@.len() == self.children@.len(),
                signals@.len() == i <= self.children@.len(),
                forall|j: int|
                    0 <= j < signals@.len() ==> #[trigger] signals@[j] == (if self.children@[j].processcfg.pidfile is Some {
                        probes@[j]
                    } else {
                        None::<u32>
                    }),
            decreases self.children@.len() - i,
        {
            signals.push(self.children[i].find_process(probes[i]));
            i += 1;
        }
        signals
    }
}

/// A copy of the configured argument list, element for element.
fn clone_args(args: &Vec<String>) -> (r: Vec<String>)
    ensures
        r@.len() == args@.len(),
        forall|j: int| 0 <= j < args@.len() ==> (#[trigger] r@[j])@ == args@[j]@,
{
    let mut out: Vec<String> = Vec::new();
    let mut i: usize = 0;
    while i < args.len()
        invariant
            i <= args@.len(),
            out@.len() == i,
            forall|j: int| 0 <= j < i ==> (#[trigger] out@[j])@ == args@[j]@,
        decreases args@.len() - i,
    {
        out.push(args[i].clone());
        i += 1;
    }
    out
}

/// Law: stopping always cleans up the liveness record. For every record
/// with a configured PID file, the stop plan schedules that file's
/// deletion, whatever the liveness probe answered — so however the
/// termination signal fares, `stop_all` deletes the PID file of every
/// child afterwards.
pub proof fn lemma_stop_always_deletes(cfg: ProcessConfig, probe: Option<u32>, plan: StopPlan)
    requires
        stop_plan_matches(cfg, probe, plan),
        cfg.pidfile is Some,
    ensures
        plan.delete_path is Some,
        plan.delete_path->0@ == cfg.pidfile->0@,
{
}

/// Law: stopping a record with no configured PID file makes no OS call at
/// all — there is no PID to signal and no file to delete.
pub proof fn lemma_stop_without_pidfile(cfg: ProcessConfig, probe: Option<u32>, plan: StopPlan)
    requires
        stop_plan_matches(cfg, probe, plan),
        cfg.pidfile is None,
    ensures
        plan.kill_pid is None,
        plan.delete_path is None,
{
}

} // verus!
