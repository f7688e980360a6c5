//! Configuration model for the supervisor.
//!
//! The engine consumes an already-parsed configuration: one optional root
//! process definition plus a list of child process definitions. Loading and
//! parsing the configuration file is the embedding program's business.

use vstd::prelude::*;

verus! {

/// Number of respawns a child is allowed when its configuration gives no
/// explicit limit.
pub const DEFAULT_RESPAWN_LIMIT: u32 = 3;

/// Static configuration and mutable bookkeeping for one supervised process.
///
/// `name`, `command`, `args`, `pidfile` and `respawn` come from the
/// configuration; `pid` and `respawns` are written by the engine while it
/// runs (the recorded OS process id, and the running count of restarts).
#[derive(Debug)]
pub struct ProcessConfig {
    pub name: Option<String>,
    pub command: Option<String>,
    pub args: Option<Vec<String>>,
    pub pidfile: Option<String>,
    pub respawn: Option<u32>,
    pub pid: Option<u32>,
    pub respawns: Option<u32>,
}

/// The whole parsed configuration: the supervisor's own (root) process
/// definition plus the list of child process definitions.
#[derive(Debug)]
pub struct ForeverConfig {
    pub name: Option<String>,
    pub command: Option<String>,
    pub args: Option<Vec<String>>,
    pub pidfile: Option<String>,
    pub process: Option<Vec<ProcessConfig>>,
}

impl ProcessConfig {
    /// The respawn limit this configuration asks for: the explicit value, or
    /// the default when none is given.
    pub open spec fn spec_respawn_limit(self) -> u32 {
        match self.respawn {
            Some(n) => n,
            None => DEFAULT_RESPAWN_LIMIT,
        }
    }

    /// The number of respawns attempted so far; absent counts as zero.
    pub open spec fn spec_respawn_count(self) -> nat {
        match self.respawns {
            Some(n) => n as nat,
            None => 0,
        }
    }

    /// The respawn limit in force for this process.
    pub fn respawn_limit(&self) -> (limit: u32)
        ensures
            limit == self.spec_respawn_limit(),
    {
        match self.respawn {
            Some(n) => n,
            None => DEFAULT_RESPAWN_LIMIT,
        }
    }
}

impl Default for ProcessConfig {
    /// A blank definition: nothing configured, no bookkeeping yet.
    fn default() -> (cfg: ProcessConfig)
        ensures
            cfg.name is None,
            cfg.command is None,
            cfg.args is None,
            cfg.pidfile is None,
            cfg.respawn is None,
            cfg.pid is None,
            cfg.respawns is None,
    {
        ProcessConfig {
            name: None,
            command: None,
            args: None,
            pidfile: None,
            respawn: None,
            pid: None,
            respawns: None,
        }
    }
}

impl Default for ForeverConfig {
    /// A blank configuration: nothing configured, no children listed.
    fn default() -> (cfg: ForeverConfig)
        ensures
            cfg.name is None,
            cfg.command is None,
            cfg.args is None,
            cfg.pidfile is None,
            cfg.process is None,
    {
        ForeverConfig { name: None, command: None, args: None, pidfile: None, process: None }
    }
}

impl ForeverConfig {
    /// Builds the configuration from its already-parsed parts.
    pub fn new(
        name: Option<String>,
        command: Option<String>,
        args: Option<Vec<String>>,
        pidfile: Option<String>,
        process: Option<Vec<ProcessConfig>>,
    ) -> (cfg: ForeverConfig)
        ensures
            cfg.name == name,
            cfg.command == command,
            cfg.args == args,
            cfg.pidfile == pidfile,
            cfg.process == process,
    {
        ForeverConfig { name, command, args, pidfile, process }
    }
}

} // verus!
