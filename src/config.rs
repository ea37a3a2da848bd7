//! Per-operation agent configuration.

use vstd::prelude::*;
use crate::time::TimeSpan;

verus! {

/// How to run an agent for one operation.
#[derive(Debug)]
pub struct AgentConfig {
    /// The executable.
    pub cli_path: String,
    /// A mode to select, passed as `--agent <mode>`.
    pub agent_mode: Option<String>,
    /// A model to use.
    pub model: Option<String>,
    /// The bound on a prompt exchange and on a fallback run.
    pub timeout: TimeSpan,
    /// Arguments appended to the command line.
    pub extra_args: Vec<String>,
    /// The directory to run in, and to name to the agent.
    pub working_dir: Option<String>,
}

/// A copy of a list of strings.
pub(crate) fn copy_strings(v: &Vec<String>) -> (r: Vec<String>)
    ensures
        r@ == v@,
{
    let mut out: Vec<String> = Vec::new();
    let n = v.len();
    let mut i: usize = 0;
    while i < n
        invariant
            n == v@.len(),
            i <= n,
            out@ == v@.subrange(0, i as int),
        decreases n - i,
    {
        out.push(v[i].clone());
        proof {
            assert(out@ =~= v@.subrange(0, i + 1));
        }
        i = i + 1;
    }
    proof {
        assert(out@ =~= v@);
    }
    out
}

impl Clone for AgentConfig {
    fn clone(&self) -> (r: AgentConfig)
        ensures
            r.cli_path == self.cli_path,
            r.agent_mode == self.agent_mode,
            r.model == self.model,
            r.timeout == self.timeout,
            r.extra_args@ == self.extra_args@,
            r.working_dir == self.working_dir,
    {
        AgentConfig {
            cli_path: self.cli_path.clone(),
            agent_mode: crate::session::copy_opt(&self.agent_mode),
            model: crate::session::copy_opt(&self.model),
            timeout: self.timeout,
            extra_args: copy_strings(&self.extra_args),
            working_dir: crate::session::copy_opt(&self.working_dir),
        }
    }
}

impl Default for AgentConfig {
    fn default() -> (r: AgentConfig)
        ensures
            r.cli_path@ == "acp-agent"@,
            r.agent_mode is None,
            r.model is None,
            r.timeout.millis == 120_000,
            r.extra_args@.len() == 0,
            r.working_dir is None,
    {
        AgentConfig::new("acp-agent")
    }
}

impl AgentConfig {
    /// A configuration for `cli_path` with no mode, no model, no extra
    /// arguments, no working directory and a timeout of 120 seconds.
    pub fn new(cli_path: &str) -> (r: AgentConfig)
        ensures
            r.cli_path@ == cli_path@,
            r.agent_mode is None,
            r.model is None,
            r.timeout.millis == 120_000,
            r.extra_args@.len() == 0,
            r.working_dir is None,
    {
        AgentConfig {
            cli_path: cli_path.to_string(),
            agent_mode: None,
            model: None,
            timeout: TimeSpan::from_secs(120),
            extra_args: Vec::new(),
            working_dir: None,
        }
    }

    /// The same configuration with mode `mode`.
    pub fn with_mode(self, mode: &str) -> (r: AgentConfig)
        ensures
            r.agent_mode is Some && r.agent_mode->Some_0@ == mode@,
            r.cli_path == self.cli_path,
            r.model == self.model,
            r.timeout == self.timeout,
            r.extra_args == self.extra_args,
            r.working_dir == self.working_dir,
    {
        let mut c = self;
        c.agent_mode = Some(mode.to_string());
        c
    }

    /// The same configuration with model `model`.
    pub fn with_model(self, model: &str) -> (r: AgentConfig)
        ensures
            r.model is Some && r.model->Some_0@ == model@,
            r.cli_path == self.cli_path,
            r.agent_mode == self.agent_mode,
            r.timeout == self.timeout,
            r.extra_args == self.extra_args,
            r.working_dir == self.working_dir,
    {
        let mut c = self;
        c.model = Some(model.to_string());
        c
    }

    /// The same configuration with timeout `timeout`.
    pub fn with_timeout(self, timeout: TimeSpan) -> (r: AgentConfig)
        ensures
            r.timeout == timeout,
            r.cli_path == self.cli_path,
            r.agent_mode == self.agent_mode,
            r.model == self.model,
            r.extra_args == self.extra_args,
            r.working_dir == self.working_dir,
    {
        let mut c = self;
        c.timeout = timeout;
        c
    }

    /// The same configuration with extra arguments `args`.
    pub fn with_args(self, args: Vec<String>) -> (r: AgentConfig)
        ensures
            r.extra_args == args,
            r.cli_path == self.cli_path,
            r.agent_mode == self.agent_mode,
            r.model == self.model,
            r.timeout == self.timeout,
            r.working_dir == self.working_dir,
    {
        let mut c = self;
        c.extra_args = args;
        c
    }

    /// The same configuration with working directory `dir`.
    pub fn with_working_dir(self, dir: &str) -> (r: AgentConfig)
        ensures
            r.working_dir is Some && r.working_dir->Some_0@ == dir@,
            r.cli_path == self.cli_path,
            r.agent_mode == self.agent_mode,
            r.model == self.model,
            r.timeout == self.timeout,
            r.extra_args == self.extra_args,
    {
        let mut c = self;
        c.working_dir = Some(dir.to_string());
        c
    }
}

} // verus!
