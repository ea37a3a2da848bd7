//! The Codex command-line agent, driven in its quiet non-interactive mode.

use vstd::prelude::*;
use crate::agent::{texts, text_pairs, Agent};
use crate::ansi::{ansi_stripped, strip_ansi_codes};
use crate::time::TimeSpan;

verus! {

/// How much Codex may do without asking.
#[derive(Debug, Clone, Copy, PartialEq, Eq, Structural)]
pub enum CodexApprovalMode {
    /// Every action needs approval.
    Suggest,
    /// File edits are approved automatically.
    AutoEdit,
    /// Every action is approved automatically; the network is off.
    FullAuto,
}

impl Default for CodexApprovalMode {
    fn default() -> (r: CodexApprovalMode)
        ensures
            r == CodexApprovalMode::Suggest,
    {
        CodexApprovalMode::Suggest
    }
}

impl CodexApprovalMode {
    /// The mode's name on the command line.
    pub open spec fn spec_str(self) -> Seq<char> {
        match self {
            CodexApprovalMode::Suggest => "suggest"@,
            CodexApprovalMode::AutoEdit => "auto-edit"@,
            CodexApprovalMode::FullAuto => "full-auto"@,
        }
    }

    /// The mode's name on the command line.
    pub fn as_str(&self) -> (r: &'static str)
        ensures
            r@ == self.spec_str(),
    {
        match self {
            CodexApprovalMode::Suggest => "suggest",
            CodexApprovalMode::AutoEdit => "auto-edit",
            CodexApprovalMode::FullAuto => "full-auto",
        }
    }
}

/// The Codex agent. It does not speak the protocol, so both modes run it
/// quietly with the prompt on its input.
#[derive(Debug, Clone)]
pub struct CodexAgent {
    /// The executable.
    pub cli_path: String,
    /// A model to pass as `-m <model>`.
    pub model: Option<String>,
    /// The approval mode.
    pub approval_mode: CodexApprovalMode,
    /// Whether to ask for JSON output.
    pub json_output: bool,
}

impl CodexAgent {
    /// The agent run as `codex`, with no model, suggest mode and text output.
    pub fn new() -> (r: CodexAgent)
        ensures
            r.cli_path@ == "codex"@,
            r.model is None,
            r.approval_mode == CodexApprovalMode::Suggest,
            !r.json_output,
    {
        CodexAgent::with_cli_path("codex")
    }

    /// The agent with an executable and a model where they are given, and the
    /// defaults of `new` where they are not.
    pub fn configured(cli_path: Option<String>, model: Option<String>) -> (r: CodexAgent)
        ensures
            cli_path is Some ==> r.cli_path == cli_path->Some_0,
            cli_path is None ==> r.cli_path@ == "codex"@,
            r.model == model,
            r.approval_mode == CodexApprovalMode::Suggest,
            !r.json_output,
    {
        let cli_path = match cli_path {
            Some(p) => p,
            None => "codex".to_string(),
        };
        CodexAgent { cli_path, model, approval_mode: CodexApprovalMode::Suggest, json_output: false }
    }

    /// The agent run as `cli_path`, with no model, suggest mode and text output.
    pub fn with_cli_path(cli_path: &str) -> (r: CodexAgent)
        ensures
            r.cli_path@ == cli_path@,
            r.model is None,
            r.approval_mode == CodexApprovalMode::Suggest,
            !r.json_output,
    {
        CodexAgent {
            cli_path: cli_path.to_string(),
            model: None,
            approval_mode: CodexApprovalMode::Suggest,
            json_output: false,
        }
    }

    /// The same agent with model `model`.
    pub fn with_model(self, model: &str) -> (r: CodexAgent)
        ensures
            r.model is Some && r.model->Some_0@ == model@,
            r.cli_path == self.cli_path,
            r.approval_mode == self.approval_mode,
            r.json_output == self.json_output,
    {
        let mut a = self;
        a.model = Some(model.to_string());
        a
    }

    /// The same agent with approval mode `mode`.
    pub fn with_approval_mode(self, mode: CodexApprovalMode) -> (r: CodexAgent)
        ensures
            r.approval_mode == mode,
            r.cli_path == self.cli_path,
            r.model == self.model,
            r.json_output == self.json_output,
    {
        let mut a = self;
        a.approval_mode = mode;
        a
    }

    /// The same agent with JSON output on or off.
    pub fn with_json_output(self, enabled: bool) -> (r: CodexAgent)
        ensures
            r.json_output == enabled,
            r.cli_path == self.cli_path,
            r.model == self.model,
            r.approval_mode == self.approval_mode,
    {
        let mut a = self;
        a.json_output = enabled;
        a
    }

    /// `-q --approval-mode <mode>`, then `-m <model>` where a model is set,
    /// then `--json` where JSON output is on.
    pub open spec fn quiet_args(&self) -> Seq<Seq<char>> {
        seq!["-q"@, "--approval-mode"@, self.approval_mode.spec_str()] + match self.model {
            Some(m) => seq!["-m"@, m@],
            None => Seq::empty(),
        } + if self.json_output {
            seq!["--json"@]
        } else {
            Seq::empty()
        }
    }
}

impl Default for CodexAgent {
    fn default() -> (r: CodexAgent)
        ensures
            r.cli_path@ == "codex"@,
            r.model is None,
            r.approval_mode == CodexApprovalMode::Suggest,
            !r.json_output,
    {
        CodexAgent::new()
    }
}

impl Agent for CodexAgent {
    open spec fn spec_name(&self) -> Seq<char> {
        "codex"@
    }

    open spec fn spec_cli_path(&self) -> Seq<char> {
        self.cli_path@
    }

    open spec fn spec_acp_args(&self) -> Seq<Seq<char>> {
        self.quiet_args()
    }

    open spec fn spec_chat_args(&self) -> Seq<Seq<char>> {
        self.quiet_args()
    }

    open spec fn spec_requires_mcp_servers(&self) -> bool {
        false
    }

    open spec fn spec_session_init_delay(&self) -> TimeSpan {
        TimeSpan { millis: 0 }
    }

    open spec fn spec_post_prompt_delay(&self) -> TimeSpan {
        TimeSpan { millis: 100 }
    }

    open spec fn spec_process(&self, text: Seq<char>) -> Seq<char> {
        ansi_stripped(text)
    }

    open spec fn spec_environment(&self) -> Seq<(Seq<char>, Seq<char>)> {
        seq![("CODEX_QUIET_MODE"@, "1"@)]
    }

    fn name(&self) -> (r: &str) {
        "codex"
    }

    fn cli_path(&self) -> (r: &str) {
        self.cli_path.as_str()
    }

    fn acp_args(&self) -> (r: Vec<String>) {
        self.chat_args()
    }

    fn chat_args(&self) -> (r: Vec<String>) {
        let mut args: Vec<String> = Vec::new();
        args.push("-q".to_string());
        args.push("--approval-mode".to_string());
        args.push(self.approval_mode.as_str().to_string());
        let ghost head = texts(args@);
        proof {
            assert(head =~= seq!["-q"@, "--approval-mode"@, self.approval_mode.spec_str()]);
        }
        match &self.model {
            Some(model) => {
                args.push("-m".to_string());
                args.push(model.clone());
            },
            None => {},
        }
        let ghost mid = texts(args@);
        proof {
            assert(mid =~= head + match self.model {
                Some(m) => seq!["-m"@, m@],
                None => Seq::<Seq<char>>::empty(),
            });
        }
        if self.json_output {
            args.push("--json".to_string());
        }
        proof {
            assert(texts(args@) =~= mid + if self.json_output {
                seq!["--json"@]
            } else {
                Seq::<Seq<char>>::empty()
            });
        }
        args
    }

    fn requires_mcp_servers(&self) -> (r: bool) {
        false
    }

    fn session_init_delay(&self) -> (r: TimeSpan) {
        TimeSpan::zero()
    }

    fn post_prompt_delay(&self) -> (r: TimeSpan) {
        TimeSpan::from_millis(100)
    }

    fn process_response(&self, response: &str) -> (r: String) {
        strip_ansi_codes(response)
    }

    fn environment(&self) -> (r: Vec<(String, String)>) {
        let mut r: Vec<(String, String)> = Vec::new();
        r.push(("CODEX_QUIET_MODE".to_string(), "1".to_string()));
        proof {
            assert(text_pairs(r@) =~= seq![("CODEX_QUIET_MODE"@, "1"@)]);
        }
        r
    }
}

} // verus!
