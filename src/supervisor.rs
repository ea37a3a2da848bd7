//! Supervision of one long-lived agent process.
//!
//! The supervisor decides and records; its owner holds the process itself.
//! Each process it records gets a fresh number, so two processes are never
//! confused, and at most one is supervised at a time. Liveness is probed by the
//! owner and handed in.

use vstd::prelude::*;
use crate::agent::{texts, Agent};
use crate::config::copy_strings;
use crate::exchange::CommandSpec;
use crate::time::TimeSpan;

verus! {

/// The record of a supervised process.
#[derive(Debug)]
pub struct ProcessSupervisor {
    /// The executable.
    pub cli_path: String,
    /// Its arguments.
    pub args: Vec<String>,
    /// The number of the supervised process, if there is one.
    pub current: Option<u64>,
    /// How many processes were started so far; the last one has this number.
    pub launches: u64,
}

impl ProcessSupervisor {
    /// The supervised process has a number that was handed out.
    pub open spec fn wf(&self) -> bool {
        self.current is Some ==> 1 <= self.current->Some_0 <= self.launches
    }

    /// Whether the supervised process runs, given whether it is alive.
    pub open spec fn spec_is_running(&self, alive: bool) -> bool {
        self.current is Some && alive
    }

    /// Whether `ensure_running` starts a process, given whether the
    /// supervised one is alive.
    pub open spec fn spec_needs_start(&self, alive: bool) -> bool {
        !self.spec_is_running(alive)
    }

    /// The record with no process supervised.
    pub open spec fn cleared(self) -> ProcessSupervisor {
        ProcessSupervisor { current: None, ..self }
    }

    /// The record after a new process started.
    pub open spec fn launched(self) -> ProcessSupervisor {
        ProcessSupervisor { current: Some((self.launches + 1) as u64), launches: (self.launches + 1) as u64, ..self }
    }

    /// A supervisor for `cli_path` with `args`, supervising nothing.
    pub fn new(cli_path: &str, args: Vec<String>) -> (r: ProcessSupervisor)
        ensures
            r.wf(),
            r.cli_path@ == cli_path@,
            r.args == args,
            r.current is None,
            r.launches == 0,
    {
        ProcessSupervisor { cli_path: cli_path.to_string(), args, current: None, launches: 0 }
    }

    /// A supervisor for `agent` in protocol mode, supervising nothing.
    pub fn for_agent<A: Agent>(agent: &A) -> (r: ProcessSupervisor)
        ensures
            r.wf(),
            r.cli_path@ == agent.spec_cli_path(),
            texts(r.args@) == agent.spec_acp_args(),
            r.current is None,
            r.launches == 0,
    {
        ProcessSupervisor::new(agent.cli_path(), agent.acp_args())
    }

    /// The command that starts the process; its standard streams are to be
    /// discarded.
    pub fn command(&self) -> (r: CommandSpec)
        ensures
            r.program@ == self.cli_path@,
            r.args@ == self.args@,
            r.env@.len() == 0,
            r.working_dir is None,
    {
        CommandSpec {
            program: self.cli_path.clone(),
            args: copy_strings(&self.args),
            env: Vec::new(),
            working_dir: None,
        }
    }

    /// Whether a process is supervised and, as probed, alive.
    pub fn is_running(&self, alive: bool) -> (r: bool)
        ensures
            r == self.spec_is_running(alive),
    {
        self.current.is_some() && alive
    }

    /// Whether `ensure_running` must start a process: none is supervised, or
    /// the supervised one is dead.
    pub fn needs_start(&self, alive: bool) -> (r: bool)
        ensures
            r == self.spec_needs_start(alive),
    {
        !self.is_running(alive)
    }

    /// The health of the process: for now, whether it runs.
    pub fn health_check(&self, alive: bool) -> (r: bool)
        ensures
            r == self.spec_is_running(alive),
    {
        self.is_running(alive)
    }

    /// Stops supervising the current process, if any, and hands back its number
    /// so that its owner terminates it. Starting and stopping both begin so.
    pub fn release(&mut self) -> (r: Option<u64>)
        requires
            old(self).wf(),
        ensures
            final(self).wf(),
            r == old(self).current,
            *final(self) == old(self).cleared(),
    {
        let r = self.current;
        self.current = None;
        r
    }

    /// Records that a new process started, and returns its number.
    pub fn record_started(&mut self) -> (r: u64)
        requires
            old(self).wf(),
            old(self).launches < u64::MAX,
        ensures
            final(self).wf(),
            *final(self) == old(self).launched(),
            r == final(self).launches,
            final(self).current == Some(r),
    {
        self.launches = self.launches + 1;
        self.current = Some(self.launches);
        self.launches
    }

    /// The pause after starting a process, before it is used.
    pub fn settle_delay() -> (r: TimeSpan)
        ensures
            r.millis == 500,
    {
        TimeSpan::from_millis(500)
    }

    /// The pause between stopping and starting again in a restart.
    pub fn restart_pause() -> (r: TimeSpan)
        ensures
            r.millis == 100,
    {
        TimeSpan::from_millis(100)
    }
}

/// Two calls of `ensure_running` in a row, with no stop between them, start
/// at most one process: once the first has a live process supervised, the second
/// starts none.
pub proof fn ensure_running_starts_at_most_once(s: ProcessSupervisor, alive: bool)
    requires
        s.wf(),
        s.launches < u64::MAX,
    ensures
        ({
            let after = if s.spec_needs_start(alive) {
                s.cleared().launched()
            } else {
                s
            };
            &&& after.wf()
            &&& !after.spec_needs_start(true)
            &&& after.launches <= s.launches + 1
        }),
{
}

/// A restart that succeeds leaves a live process supervised whose number differs
/// from that of every process supervised before.
pub proof fn restart_supervises_a_new_process(s: ProcessSupervisor)
    requires
        s.wf(),
        s.launches < u64::MAX,
    ensures
        ({
            let after = s.cleared().cleared().launched();
            &&& after.wf()
            &&& after.spec_is_running(true)
            &&& after.current->Some_0 > s.launches
            &&& s.current is Some ==> after.current != s.current
        }),
{
}

} // verus!
