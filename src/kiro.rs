//! The Kiro command-line agent, which speaks the protocol.

use vstd::prelude::*;
use crate::agent::{texts, text_pairs, Agent};
use crate::ansi::{ansi_stripped, strip_ansi_codes};
use crate::time::TimeSpan;

verus! {

/// The Kiro agent.
#[derive(Debug, Clone)]
pub struct KiroAgent {
    /// The executable.
    pub cli_path: String,
    /// A mode to select, passed as `--agent <mode>` in both modes.
    pub default_mode: Option<String>,
}

impl KiroAgent {
    /// The `--agent <mode>` arguments, where a mode is set.
    pub open spec fn mode_args(&self) -> Seq<Seq<char>> {
        match self.default_mode {
            Some(m) => seq!["--agent"@, m@],
            None => Seq::empty(),
        }
    }

    /// The agent run as `kiro-cli`, with no mode.
    pub fn new() -> (r: KiroAgent)
        ensures
            r.cli_path@ == "kiro-cli"@,
            r.default_mode is None,
    {
        KiroAgent { cli_path: "kiro-cli".to_string(), default_mode: None }
    }

    /// The agent with an executable and a mode where they are given, and the
    /// defaults of `new` where they are not.
    pub fn configured(cli_path: Option<String>, mode: Option<String>) -> (r: KiroAgent)
        ensures
            cli_path is Some ==> r.cli_path == cli_path->Some_0,
            cli_path is None ==> r.cli_path@ == "kiro-cli"@,
            r.default_mode == mode,
    {
        let cli_path = match cli_path {
            Some(p) => p,
            None => "kiro-cli".to_string(),
        };
        KiroAgent { cli_path, default_mode: mode }
    }

    /// The agent run as `cli_path`, with no mode.
    pub fn with_cli_path(cli_path: &str) -> (r: KiroAgent)
        ensures
            r.cli_path@ == cli_path@,
            r.default_mode is None,
    {
        KiroAgent { cli_path: cli_path.to_string(), default_mode: None }
    }

    /// The same agent with mode `mode`.
    pub fn with_mode(self, mode: &str) -> (r: KiroAgent)
        ensures
            r.cli_path == self.cli_path,
            r.default_mode is Some && r.default_mode->Some_0@ == mode@,
    {
        let mut a = self;
        a.default_mode = Some(mode.to_string());
        a
    }

    /// `first` followed by the mode arguments.
    fn args_with_mode(&self, first: Vec<String>) -> (r: Vec<String>)
        ensures
            texts(r@) == texts(first@) + self.mode_args(),
    {
        let mut args = first;
        let ghost start = texts(args@);
        match &self.default_mode {
            Some(mode) => {
                args.push("--agent".to_string());
                args.push(mode.clone());
                proof {
                    assert(texts(args@) =~= start + self.mode_args());
                }
            },
            None => {
                proof {
                    assert(texts(args@) =~= start + self.mode_args());
                }
            },
        }
        args
    }
}

impl Default for KiroAgent {
    fn default() -> (r: KiroAgent)
        ensures
            r.cli_path@ == "kiro-cli"@,
            r.default_mode is None,
    {
        KiroAgent::new()
    }
}

impl Agent for KiroAgent {
    open spec fn spec_name(&self) -> Seq<char> {
        "kiro"@
    }

    open spec fn spec_cli_path(&self) -> Seq<char> {
        self.cli_path@
    }

    open spec fn spec_acp_args(&self) -> Seq<Seq<char>> {
        seq!["acp"@] + self.mode_args()
    }

    open spec fn spec_chat_args(&self) -> Seq<Seq<char>> {
        seq!["chat"@, "--no-interactive"@] + self.mode_args()
    }

    open spec fn spec_requires_mcp_servers(&self) -> bool {
        true
    }

    open spec fn spec_session_init_delay(&self) -> TimeSpan {
        TimeSpan { millis: 2000 }
    }

    open spec fn spec_post_prompt_delay(&self) -> TimeSpan {
        TimeSpan { millis: 500 }
    }

    open spec fn spec_process(&self, text: Seq<char>) -> Seq<char> {
        ansi_stripped(text)
    }

    open spec fn spec_environment(&self) -> Seq<(Seq<char>, Seq<char>)> {
        Seq::empty()
    }

    fn name(&self) -> (r: &str) {
        "kiro"
    }

    fn cli_path(&self) -> (r: &str) {
        self.cli_path.as_str()
    }

    fn acp_args(&self) -> (r: Vec<String>) {
        let mut first: Vec<String> = Vec::new();
        first.push("acp".to_string());
        proof {
            assert(texts(first@) =~= seq!["acp"@]);
        }
        self.args_with_mode(first)
    }

    fn chat_args(&self) -> (r: Vec<String>) {
        let mut first: Vec<String> = Vec::new();
        first.push("chat".to_string());
        first.push("--no-interactive".to_string());
        proof {
            assert(texts(first@) =~= seq!["chat"@, "--no-interactive"@]);
        }
        self.args_with_mode(first)
    }

    fn requires_mcp_servers(&self) -> (r: bool) {
        true
    }

    fn session_init_delay(&self) -> (r: TimeSpan) {
        TimeSpan::from_secs(2)
    }

    fn post_prompt_delay(&self) -> (r: TimeSpan) {
        TimeSpan::from_millis(500)
    }

    fn process_response(&self, response: &str) -> (r: String) {
        strip_ansi_codes(response)
    }

    fn environment(&self) -> (r: Vec<(String, String)>) {
        let r: Vec<(String, String)> = Vec::new();
        proof {
            assert(text_pairs(r@) =~= Seq::<(Seq<char>, Seq<char>)>::empty());
        }
        r
    }
}

} // verus!
