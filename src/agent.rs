//! How to drive a particular command-line agent.

use vstd::prelude::*;
use crate::time::TimeSpan;

verus! {

/// The texts of a list of strings.
pub open spec fn texts(v: Seq<String>) -> Seq<Seq<char>> {
    v.map_values(|s: String| s@)
}

/// The texts of a list of name/value pairs.
pub open spec fn text_pairs(v: Seq<(String, String)>) -> Seq<(Seq<char>, Seq<char>)> {
    v.map_values(|p: (String, String)| (p.0@, p.1@))
}

/// What an agent reports about itself.
#[derive(Debug, Clone, Default)]
pub struct AgentInfo {
    /// Its name.
    pub name: String,
    /// Its version, if reported.
    pub version: Option<String>,
    /// A description, if reported.
    pub description: Option<String>,
}

/// What an agent says it can do.
#[derive(Debug, Clone, Default)]
pub struct AgentCapabilities {
    /// Whether it can load an existing session.
    pub load_session: bool,
    /// Whether prompts may hold images.
    pub image: bool,
    /// Whether prompts may hold audio.
    pub audio: bool,
    /// The models it offers.
    pub available_models: Vec<String>,
    /// The modes it offers.
    pub available_modes: Vec<String>,
}

/// A command-line agent: how to start it in protocol mode and in plain
/// non-interactive mode, its environment, its timing needs, and how to clean
/// up the text it writes.
pub trait Agent {
    /// The display name.
    spec fn spec_name(&self) -> Seq<char>;

    /// The executable.
    spec fn spec_cli_path(&self) -> Seq<char>;

    /// The arguments that start the protocol mode.
    spec fn spec_acp_args(&self) -> Seq<Seq<char>>;

    /// The arguments that start the non-interactive mode.
    spec fn spec_chat_args(&self) -> Seq<Seq<char>>;

    /// Whether the agent needs auxiliary servers declared with a new session.
    spec fn spec_requires_mcp_servers(&self) -> bool;

    /// The pause between creating a remote session and sending a prompt.
    spec fn spec_session_init_delay(&self) -> TimeSpan;

    /// The pause after a prompt completes, for trailing notifications.
    spec fn spec_post_prompt_delay(&self) -> TimeSpan;

    /// What `process_response` makes of a text.
    spec fn spec_process(&self, text: Seq<char>) -> Seq<char>;

    /// The variables to set in the agent's environment.
    spec fn spec_environment(&self) -> Seq<(Seq<char>, Seq<char>)>;

    /// The display name.
    fn name(&self) -> (r: &str)
        ensures
            r@ == self.spec_name(),
    ;

    /// The executable.
    fn cli_path(&self) -> (r: &str)
        ensures
            r@ == self.spec_cli_path(),
    ;

    /// The arguments that start the protocol mode.
    fn acp_args(&self) -> (r: Vec<String>)
        ensures
            texts(r@) == self.spec_acp_args(),
    ;

    /// The arguments that start the non-interactive mode.
    fn chat_args(&self) -> (r: Vec<String>)
        ensures
            texts(r@) == self.spec_chat_args(),
    ;

    /// Whether the agent needs auxiliary servers declared with a new session.
    fn requires_mcp_servers(&self) -> (r: bool)
        ensures
            r == self.spec_requires_mcp_servers(),
    ;

    /// The pause between creating a remote session and sending a prompt.
    fn session_init_delay(&self) -> (r: TimeSpan)
        ensures
            r == self.spec_session_init_delay(),
    ;

    /// The pause after a prompt completes, for trailing notifications.
    fn post_prompt_delay(&self) -> (r: TimeSpan)
        ensures
            r == self.spec_post_prompt_delay(),
    ;

    /// Cleans up text the agent wrote.
    fn process_response(&self, response: &str) -> (r: String)
        ensures
            r@ == self.spec_process(response@),
    ;

    /// The variables to set in the agent's environment.
    fn environment(&self) -> (r: Vec<(String, String)>)
        ensures
            text_pairs(r@) == self.spec_environment(),
    ;
}

} // verus!
