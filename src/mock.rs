//! A stand-in agent for tests.

use vstd::prelude::*;
use crate::agent::{texts, text_pairs, Agent};
use crate::time::TimeSpan;

verus! {

/// An agent that runs `echo`: its non-interactive mode writes the configured
/// response. It needs no pauses and leaves text as it is.
#[derive(Debug, Clone)]
pub struct MockAgent {
    /// The display name.
    pub name: String,
    /// The text its non-interactive mode writes.
    pub response: String,
}

impl MockAgent {
    /// The agent named `mock` that answers `Mock response`.
    pub fn new() -> (r: MockAgent)
        ensures
            r.name@ == "mock"@,
            r.response@ == "Mock response"@,
    {
        MockAgent { name: "mock".to_string(), response: "Mock response".to_string() }
    }

    /// The same agent answering `response`.
    pub fn with_response(self, response: &str) -> (r: MockAgent)
        ensures
            r.name == self.name,
            r.response@ == response@,
    {
        let mut a = self;
        a.response = response.to_string();
        a
    }

    /// The same agent named `name`.
    pub fn with_name(self, name: &str) -> (r: MockAgent)
        ensures
            r.name@ == name@,
            r.response == self.response,
    {
        let mut a = self;
        a.name = name.to_string();
        a
    }
}

impl Default for MockAgent {
    fn default() -> (r: MockAgent)
        ensures
            r.name@ == "mock"@,
            r.response@ == "Mock response"@,
    {
        MockAgent::new()
    }
}

impl Agent for MockAgent {
    open spec fn spec_name(&self) -> Seq<char> {
        self.name@
    }

    open spec fn spec_cli_path(&self) -> Seq<char> {
        "echo"@
    }

    open spec fn spec_acp_args(&self) -> Seq<Seq<char>> {
        seq!["mock-acp"@]
    }

    open spec fn spec_chat_args(&self) -> Seq<Seq<char>> {
        seq![self.response@]
    }

    open spec fn spec_requires_mcp_servers(&self) -> bool {
        false
    }

    open spec fn spec_session_init_delay(&self) -> TimeSpan {
        TimeSpan { millis: 0 }
    }

    open spec fn spec_post_prompt_delay(&self) -> TimeSpan {
        TimeSpan { millis: 0 }
    }

    open spec fn spec_process(&self, text: Seq<char>) -> Seq<char> {
        text
    }

    open spec fn spec_environment(&self) -> Seq<(Seq<char>, Seq<char>)> {
        Seq::empty()
    }

    fn name(&self) -> (r: &str) {
        self.name.as_str()
    }

    fn cli_path(&self) -> (r: &str) {
        "echo"
    }

    fn acp_args(&self) -> (r: Vec<String>) {
        let mut r: Vec<String> = Vec::new();
        r.push("mock-acp".to_string());
        proof {
            assert(texts(r@) =~= seq!["mock-acp"@]);
        }
        r
    }

    fn chat_args(&self) -> (r: Vec<String>) {
        let mut r: Vec<String> = Vec::new();
        r.push(self.response.clone());
        proof {
            assert(texts(r@) =~= seq![self.response@]);
        }
        r
    }

    fn requires_mcp_servers(&self) -> (r: bool) {
        false
    }

    fn session_init_delay(&self) -> (r: TimeSpan) {
        TimeSpan::zero()
    }

    fn post_prompt_delay(&self) -> (r: TimeSpan) {
        TimeSpan::zero()
    }

    fn process_response(&self, response: &str) -> (r: String) {
        response.to_string()
    }

    fn environment(&self) -> (r: Vec<(String, String)>) {
        let r: Vec<(String, String)> = Vec::new();
        proof {
            assert(text_pairs(r@) =~= Seq::<(Seq<char>, Seq<char>)>::empty());
        }
        r
    }
}

} // verus!
