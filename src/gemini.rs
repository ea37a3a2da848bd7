//! The Gemini command-line agent, driven in its non-interactive prompt mode.

use vstd::prelude::*;
use crate::agent::{texts, text_pairs, Agent};
use crate::ansi::{ansi_stripped, strip_ansi_codes};
use crate::time::TimeSpan;

verus! {

/// `parts` with `sep` between each two.
pub open spec fn joined(parts: Seq<Seq<char>>, sep: Seq<char>) -> Seq<char>
    decreases parts.len(),
{
    if parts.len() == 0 {
        Seq::empty()
    } else if parts.len() == 1 {
        parts[0]
    } else {
        joined(parts.drop_last(), sep) + sep + parts.last()
    }
}

/// `parts` with `sep` between each two.
pub fn join_with(parts: &Vec<String>, sep: &str) -> (r: String)
    ensures
        r@ == joined(texts(parts@), sep@),
{
    let mut out = String::new();
    let n = parts.len();
    let mut i: usize = 0;
    while i < n
        invariant
            n == parts@.len(),
            i <= n,
            out@ == joined(texts(parts@.subrange(0, i as int)), sep@),
        decreases n - i,
    {
        if i > 0 {
            out.append(sep);
        }
        out.append(parts[i].as_str());
        proof {
            let next = texts(parts@.subrange(0, i + 1));
            assert(next.drop_last() =~= texts(parts@.subrange(0, i as int)));
            assert(out@ =~= joined(next, sep@));
        }
        i = i + 1;
    }
    proof {
        assert(parts@.subrange(0, n as int) =~= parts@);
    }
    out
}

/// The format Gemini writes its answer in.
#[derive(Debug, Clone, Copy, PartialEq, Eq, Structural)]
pub enum GeminiOutputFormat {
    /// Plain text.
    Text,
    /// One JSON document.
    Json,
    /// Newline-delimited JSON events.
    StreamJson,
}

impl Default for GeminiOutputFormat {
    fn default() -> (r: GeminiOutputFormat)
        ensures
            r == GeminiOutputFormat::Text,
    {
        GeminiOutputFormat::Text
    }
}

impl GeminiOutputFormat {
    /// The format's name on the command line.
    pub open spec fn spec_str(self) -> Seq<char> {
        match self {
            GeminiOutputFormat::Text => "text"@,
            GeminiOutputFormat::Json => "json"@,
            GeminiOutputFormat::StreamJson => "stream-json"@,
        }
    }

    /// The format's name on the command line.
    pub fn as_str(&self) -> (r: &'static str)
        ensures
            r@ == self.spec_str(),
    {
        match self {
            GeminiOutputFormat::Text => "text",
            GeminiOutputFormat::Json => "json",
            GeminiOutputFormat::StreamJson => "stream-json",
        }
    }
}

/// The Gemini agent. It does not speak the protocol, so both modes run it in
/// prompt mode with the prompt on its input.
#[derive(Debug, Clone)]
pub struct GeminiAgent {
    /// The executable.
    pub cli_path: String,
    /// A model to pass as `-m <model>`.
    pub model: Option<String>,
    /// The output format.
    pub output_format: GeminiOutputFormat,
    /// Directories to include in the agent's context.
    pub include_directories: Vec<String>,
}

impl GeminiAgent {
    /// The agent run as `gemini`, with no model, text output and no directories.
    pub fn new() -> (r: GeminiAgent)
        ensures
            r.cli_path@ == "gemini"@,
            r.model is None,
            r.output_format == GeminiOutputFormat::Text,
            r.include_directories@.len() == 0,
    {
        GeminiAgent::with_cli_path("gemini")
    }

    /// The agent with an executable and a model where they are given, and the
    /// defaults of `new` where they are not.
    pub fn configured(cli_path: Option<String>, model: Option<String>) -> (r: GeminiAgent)
        ensures
            cli_path is Some ==> r.cli_path == cli_path->Some_0,
            cli_path is None ==> r.cli_path@ == "gemini"@,
            r.model == model,
            r.output_format == GeminiOutputFormat::Text,
            r.include_directories@.len() == 0,
    {
        let cli_path = match cli_path {
            Some(p) => p,
            None => "gemini".to_string(),
        };
        GeminiAgent { cli_path, model, output_format: GeminiOutputFormat::Text, include_directories: Vec::new() }
    }

    /// The agent run as `cli_path`, with no model, text output and no directories.
    pub fn with_cli_path(cli_path: &str) -> (r: GeminiAgent)
        ensures
            r.cli_path@ == cli_path@,
            r.model is None,
            r.output_format == GeminiOutputFormat::Text,
            r.include_directories@.len() == 0,
    {
        GeminiAgent {
            cli_path: cli_path.to_string(),
            model: None,
            output_format: GeminiOutputFormat::Text,
            include_directories: Vec::new(),
        }
    }

    /// The same agent with model `model`.
    pub fn with_model(self, model: &str) -> (r: GeminiAgent)
        ensures
            r.model is Some && r.model->Some_0@ == model@,
            r.cli_path == self.cli_path,
            r.output_format == self.output_format,
            r.include_directories == self.include_directories,
    {
        let mut a = self;
        a.model = Some(model.to_string());
        a
    }

    /// The same agent with output format `format`.
    pub fn with_output_format(self, format: GeminiOutputFormat) -> (r: GeminiAgent)
        ensures
            r.output_format == format,
            r.cli_path == self.cli_path,
            r.model == self.model,
            r.include_directories == self.include_directories,
    {
        let mut a = self;
        a.output_format = format;
        a
    }

    /// The same agent with exactly the directories `dirs`.
    pub fn with_include_directories(self, dirs: Vec<String>) -> (r: GeminiAgent)
        ensures
            r.include_directories == dirs,
            r.cli_path == self.cli_path,
            r.model == self.model,
            r.output_format == self.output_format,
    {
        let mut a = self;
        a.include_directories = dirs;
        a
    }

    /// The same agent with `dir` added after its directories.
    pub fn include_directory(self, dir: &str) -> (r: GeminiAgent)
        ensures
            texts(r.include_directories@) == texts(self.include_directories@).push(dir@),
            r.cli_path == self.cli_path,
            r.model == self.model,
            r.output_format == self.output_format,
    {
        let mut a = self;
        a.include_directories.push(dir.to_string());
        proof {
            assert(texts(a.include_directories@) =~= texts(self.include_directories@).push(dir@));
        }
        a
    }

    /// `-p`, then `-m <model>` where a model is set, then
    /// `--output-format <format>` unless the format is text, then
    /// `--include-directories <d1,d2,...>` where directories are set.
    pub open spec fn prompt_args(&self) -> Seq<Seq<char>> {
        seq!["-p"@] + match self.model {
            Some(m) => seq!["-m"@, m@],
            None => Seq::empty(),
        } + if self.output_format != GeminiOutputFormat::Text {
            seq!["--output-format"@, self.output_format.spec_str()]
        } else {
            Seq::empty()
        } + if self.include_directories@.len() > 0 {
            seq!["--include-directories"@, joined(texts(self.include_directories@), ","@)]
        } else {
            Seq::empty()
        }
    }
}

impl Default for GeminiAgent {
    fn default() -> (r: GeminiAgent)
        ensures
            r.cli_path@ == "gemini"@,
            r.model is None,
            r.output_format == GeminiOutputFormat::Text,
            r.include_directories@.len() == 0,
    {
        GeminiAgent::new()
    }
}

impl Agent for GeminiAgent {
    open spec fn spec_name(&self) -> Seq<char> {
        "gemini"@
    }

    open spec fn spec_cli_path(&self) -> Seq<char> {
        self.cli_path@
    }

    open spec fn spec_acp_args(&self) -> Seq<Seq<char>> {
        self.prompt_args()
    }

    open spec fn spec_chat_args(&self) -> Seq<Seq<char>> {
        self.prompt_args()
    }

    open spec fn spec_requires_mcp_servers(&self) -> bool {
        false
    }

    open spec fn spec_session_init_delay(&self) -> TimeSpan {
        TimeSpan { millis: 0 }
    }

    open spec fn spec_post_prompt_delay(&self) -> TimeSpan {
        TimeSpan { millis: 100 }
    }

    open spec fn spec_process(&self, text: Seq<char>) -> Seq<char> {
        ansi_stripped(text)
    }

    open spec fn spec_environment(&self) -> Seq<(Seq<char>, Seq<char>)> {
        Seq::empty()
    }

    fn name(&self) -> (r: &str) {
        "gemini"
    }

    fn cli_path(&self) -> (r: &str) {
        self.cli_path.as_str()
    }

    fn acp_args(&self) -> (r: Vec<String>) {
        self.chat_args()
    }

    fn chat_args(&self) -> (r: Vec<String>) {
        let mut args: Vec<String> = Vec::new();
        args.push("-p".to_string());
        let ghost a0 = texts(args@);
        proof {
            assert(a0 =~= seq!["-p"@]);
        }
        match &self.model {
            Some(model) => {
                args.push("-m".to_string());
                args.push(model.clone());
            },
            None => {},
        }
        let ghost a1 = texts(args@);
        proof {
            assert(a1 =~= a0 + match self.model {
                Some(m) => seq!["-m"@, m@],
                None => Seq::<Seq<char>>::empty(),
            });
        }
        let is_text = match self.output_format {
            GeminiOutputFormat::Text => true,
            _ => false,
        };
        if !is_text {
            args.push("--output-format".to_string());
            args.push(self.output_format.as_str().to_string());
        }
        let ghost a2 = texts(args@);
        proof {
            assert(a2 =~= a1 + if self.output_format != GeminiOutputFormat::Text {
                seq!["--output-format"@, self.output_format.spec_str()]
            } else {
                Seq::<Seq<char>>::empty()
            });
        }
        if self.include_directories.len() > 0 {
            args.push("--include-directories".to_string());
            args.push(join_with(&self.include_directories, ","));
        }
        proof {
            assert(texts(args@) =~= a2 + if self.include_directories@.len() > 0 {
                seq!["--include-directories"@, joined(texts(self.include_directories@), ","@)]
            } else {
                Seq::<Seq<char>>::empty()
            });
        }
        args
    }

    fn requires_mcp_servers(&self) -> (r: bool) {
        false
    }

    fn session_init_delay(&self) -> (r: TimeSpan) {
        TimeSpan::zero()
    }

    fn post_prompt_delay(&self) -> (r: TimeSpan) {
        TimeSpan::from_millis(100)
    }

    fn process_response(&self, response: &str) -> (r: String) {
        strip_ansi_codes(response)
    }

    fn environment(&self) -> (r: Vec<(String, String)>) {
        let r: Vec<(String, String)> = Vec::new();
        proof {
            assert(text_pairs(r@) =~= Seq::<(Seq<char>, Seq<char>)>::empty());
        }
        r
    }
}

} // verus!
