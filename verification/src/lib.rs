//! A minimal process supervisor engine.
//!
//! Given a declarative list of child process definitions, the engine models
//! launching each as a detached OS process, tracking its liveness through a
//! PID file, restarting it up to a configured limit when it exits, and
//! offering administrative operations (stop, log-rotation signal) across the
//! whole process tree.
//!
//! This crate holds the decision logic of the engine: the process-tree model,
//! the PID-file contents, the liveness protocol, the per-child monitor state
//! machine and its respawn policy, and the plans that the administrative
//! operations produce. The embedding program performs the filesystem,
//! process and signal work that those decisions call for.

pub mod config;
pub mod liveness;
pub mod monitor;
pub mod pidfile;
pub mod process;
