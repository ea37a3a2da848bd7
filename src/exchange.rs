//! One request's exchange with an agent, as a state machine: spawn the agent
//! in protocol mode, initialize, create a remote session, send the prompt
//! under a timeout, drain, collect the streamed text, and run the agent once
//! more in non-interactive mode when the text is empty.
//!
//! The machine only decides. Its caller performs each [`Action`] it hands
//! out (spawning, awaiting, sleeping) and reports the outcome as an
//! [`Event`], until the machine hands out [`Action::Finish`].

use vstd::prelude::*;
use crate::agent::{texts, text_pairs, Agent};
use crate::config::AgentConfig;
use crate::error::{Error, ErrorKind};
use crate::session::copy_opt;
use crate::time::TimeSpan;

verus! {

/// What `String::from_utf8_lossy` makes of a byte sequence.
pub uninterp spec fn lossy_text(b: Seq<u8>) -> Seq<char>;

/// Relies on String::from_utf8_lossy: the bytes as text, with each invalid
/// sequence replaced by U+FFFD; a function of the bytes alone.
#[verifier::external_body]
fn decode_lossy(b: &Vec<u8>) -> (r: String)
    ensures
        r@ == lossy_text(b@),
{
    String::from_utf8_lossy(b.as_slice()).into_owned()
}

/// What `str::trim` makes of a text.
pub uninterp spec fn trimmed(s: Seq<char>) -> Seq<char>;

/// Relies on str::trim: the text without leading and trailing white space; a
/// function of the characters alone.
#[verifier::external_body]
fn trim(s: &str) -> (r: &str)
    ensures
        r@ == trimmed(s@),
{
    s.trim()
}

/// A process to start: executable, arguments, environment variables to set,
/// and an optional directory to run in.
#[derive(Debug)]
pub struct CommandSpec {
    pub program: String,
    pub args: Vec<String>,
    pub env: Vec<(String, String)>,
    pub working_dir: Option<String>,
}

/// The `--agent <mode>` arguments of a configuration, where it sets a mode.
pub open spec fn config_mode_args(config: AgentConfig) -> Seq<Seq<char>> {
    match config.agent_mode {
        Some(m) => seq!["--agent"@, m@],
        None => Seq::empty(),
    }
}

/// `c` starts `agent` in protocol mode as `config` asks: the agent's
/// protocol arguments, then the configured mode, then the extra arguments,
/// with the agent's environment, in the configured directory.
pub open spec fn is_protocol_command<A: Agent>(c: CommandSpec, agent: A, config: AgentConfig) -> bool {
    &&& c.program@ == agent.spec_cli_path()
    &&& texts(c.args@) == agent.spec_acp_args() + config_mode_args(config) + texts(config.extra_args@)
    &&& text_pairs(c.env@) == agent.spec_environment()
    &&& c.working_dir == config.working_dir
}

/// `c` starts `agent` in non-interactive mode, with its environment.
pub open spec fn is_fallback_command<A: Agent>(c: CommandSpec, agent: A) -> bool {
    &&& c.program@ == agent.spec_cli_path()
    &&& texts(c.args@) == agent.spec_chat_args()
    &&& text_pairs(c.env@) == agent.spec_environment()
    &&& c.working_dir is None
}

/// Where an exchange stands.
#[derive(Debug, Clone, Copy, PartialEq, Eq, Structural)]
pub enum Stage {
    /// Waiting for the agent process to start.
    Spawning,
    /// Waiting for the protocol handshake.
    Initializing,
    /// Waiting for the remote session.
    CreatingSession,
    /// Pausing so the agent can warm up.
    WarmingUp,
    /// Waiting for the prompt to complete.
    Prompting,
    /// Pausing for trailing notifications.
    Draining,
    /// Waiting for the collected text.
    Collecting,
    /// Waiting for the non-interactive run.
    FallingBack,
    /// Finished.
    Done,
}

/// What happened when the caller performed the last action.
#[derive(Debug)]
pub enum Event {
    /// The protocol-mode process started and its pipes are bound.
    Spawned,
    /// The protocol-mode process could not be started; the message says why.
    SpawnFailed(String),
    /// A pipe of the protocol-mode process could not be bound.
    PipeFailed(String),
    /// The handshake succeeded.
    Initialized,
    /// The handshake failed.
    InitializeFailed(String),
    /// The remote session was created, with this id.
    SessionCreated(String),
    /// The remote session could not be created.
    SessionFailed(String),
    /// A pause ended.
    Slept,
    /// The prompt completed.
    PromptCompleted,
    /// The prompt failed.
    PromptFailed(String),
    /// The prompt did not complete within the timeout.
    PromptTimedOut,
    /// The text gathered from streamed notifications.
    Collected(String),
    /// The non-interactive run ended; this is what it wrote to its output.
    FallbackOutput(Vec<u8>),
    /// The non-interactive process could not be started.
    FallbackSpawnFailed(String),
    /// Writing to or reading from the non-interactive process failed.
    FallbackIoFailed(String),
    /// The non-interactive run did not end within the timeout.
    FallbackTimedOut,
}

/// What the caller is to do next.
#[derive(Debug)]
pub enum Action {
    /// Start this process with all three standard streams piped, killed when
    /// the exchange ends, and bind a protocol connection to its pipes.
    Spawn(CommandSpec),
    /// Perform the protocol handshake.
    Initialize,
    /// Create a remote session in this directory, or in the current one.
    CreateSession(Option<String>),
    /// Pause for this long.
    Sleep(TimeSpan),
    /// Send this prompt text in this remote session, bounded by this timeout.
    SendPrompt(String, String, TimeSpan),
    /// Read the text gathered from streamed notifications.
    Collect,
    /// Start this process, write this text to its input and close it, and
    /// capture its output, all bounded by this timeout.
    RunFallback(CommandSpec, String, TimeSpan),
    /// The exchange is over, with this outcome.
    Finish(crate::Result<String>),
}

/// One exchange in progress.
#[derive(Debug)]
pub struct Exchange {
    /// Where it stands.
    pub stage: Stage,
    /// The prompt text.
    pub prompt: String,
    /// The remote session, once created.
    pub remote_session: Option<String>,
}

impl Exchange {
    /// A remote session exists whenever the exchange is about to send, or is
    /// sending, the prompt.
    pub open spec fn wf(&self) -> bool {
        (self.stage == Stage::WarmingUp || self.stage == Stage::Prompting) ==> self.remote_session is Some
    }
}

/// `action` ends the exchange with an error of category `k` and message `m`.
pub open spec fn fails_with(after: Exchange, action: Action, k: ErrorKind, m: Seq<char>) -> bool {
    &&& after.stage == Stage::Done
    &&& action is Finish
    &&& action->Finish_0 is Err
    &&& action->Finish_0->Err_0.is(k, m)
}

/// `action` ends the exchange successfully with text `t`.
pub open spec fn succeeds_with(after: Exchange, action: Action, t: Seq<char>) -> bool {
    &&& after.stage == Stage::Done
    &&& action is Finish
    &&& action->Finish_0 is Ok
    &&& action->Finish_0->Ok_0@ == t
}

/// `action` sends the prompt in the remote session under the configured timeout.
pub open spec fn sends_prompt(after: Exchange, action: Action, config: AgentConfig) -> bool {
    &&& after.stage == Stage::Prompting
    &&& after.remote_session is Some
    &&& action is SendPrompt
    &&& action->SendPrompt_0 == after.remote_session->Some_0
    &&& action->SendPrompt_1@ == after.prompt@
    &&& action->SendPrompt_2 == config.timeout
}

/// The events that the exchange can take in each stage: the outcomes of the
/// action it handed out there.
pub open spec fn expects(stage: Stage, event: Event) -> bool {
    match stage {
        Stage::Spawning => event is Spawned || event is SpawnFailed || event is PipeFailed,
        Stage::Initializing => event is Initialized || event is InitializeFailed,
        Stage::CreatingSession => event is SessionCreated || event is SessionFailed,
        Stage::WarmingUp => event is Slept,
        Stage::Prompting => event is PromptCompleted || event is PromptFailed || event is PromptTimedOut,
        Stage::Draining => event is Slept,
        Stage::Collecting => event is Collected,
        Stage::FallingBack => event is FallbackOutput || event is FallbackSpawnFailed
            || event is FallbackIoFailed || event is FallbackTimedOut,
        Stage::Done => false,
    }
}

/// The step from `before` on `event` to `after`, handing out `action`.
pub open spec fn transition<A: Agent>(
    agent: A,
    config: AgentConfig,
    before: Exchange,
    event: Event,
    after: Exchange,
    action: Action,
) -> bool {
    &&& after.prompt@ == before.prompt@
    &&& match event {
        Event::Spawned => after.stage == Stage::Initializing && action is Initialize,
        Event::SpawnFailed(m) => fails_with(after, action, ErrorKind::Spawn, m@),
        Event::PipeFailed(m) => fails_with(after, action, ErrorKind::Connection, m@),
        Event::Initialized => {
            &&& after.stage == Stage::CreatingSession
            &&& action is CreateSession
            &&& action->CreateSession_0 == config.working_dir
        },
        Event::InitializeFailed(m) => fails_with(
            after,
            action,
            ErrorKind::Protocol,
            "Initialize failed: "@ + m@,
        ),
        Event::SessionCreated(id) => {
            &&& after.remote_session == Some(id)
            &&& if agent.spec_session_init_delay().millis > 0 {
                after.stage == Stage::WarmingUp && action == Action::Sleep(agent.spec_session_init_delay())
            } else {
                sends_prompt(after, action, config)
            }
        },
        Event::SessionFailed(m) => fails_with(
            after,
            action,
            ErrorKind::Session,
            "Session creation failed: "@ + m@,
        ),
        Event::Slept => if before.stage == Stage::WarmingUp {
            &&& after.remote_session == before.remote_session
            &&& sends_prompt(after, action, config)
        } else {
            after.stage == Stage::Collecting && action is Collect
        },
        Event::PromptCompleted => if agent.spec_post_prompt_delay().millis > 0 {
            after.stage == Stage::Draining && action == Action::Sleep(agent.spec_post_prompt_delay())
        } else {
            after.stage == Stage::Collecting && action is Collect
        },
        Event::PromptFailed(m) => fails_with(after, action, ErrorKind::Protocol, "Prompt failed: "@ + m@),
        Event::PromptTimedOut => fails_with(after, action, ErrorKind::Timeout, Seq::empty()),
        Event::Collected(t) => if t@.len() == 0 {
            &&& after.stage == Stage::FallingBack
            &&& action is RunFallback
            &&& is_fallback_command(action->RunFallback_0, agent)
            &&& action->RunFallback_1@ == before.prompt@
            &&& action->RunFallback_2 == config.timeout
        } else {
            succeeds_with(after, action, agent.spec_process(t@))
        },
        Event::FallbackOutput(b) => {
            let text = agent.spec_process(lossy_text(b@));
            if trimmed(text).len() == 0 {
                fails_with(after, action, ErrorKind::Protocol, "Empty response from agent"@)
            } else {
                succeeds_with(after, action, text)
            }
        },
        Event::FallbackSpawnFailed(m) => fails_with(after, action, ErrorKind::Spawn, m@),
        Event::FallbackIoFailed(m) => fails_with(after, action, ErrorKind::Connection, m@),
        Event::FallbackTimedOut => fails_with(after, action, ErrorKind::Timeout, Seq::empty()),
    }
}

/// The connection side of an exchange: how the agent is started in
/// protocol mode.
pub struct AcpConnection;

impl AcpConnection {
    /// The command that starts `agent` in protocol mode as `config` asks.
    pub fn command<A: Agent>(agent: &A, config: &AgentConfig) -> (r: CommandSpec)
        ensures
            is_protocol_command(r, *agent, *config),
    {
        let mut args = agent.acp_args();
        let ghost a0 = texts(args@);
        match &config.agent_mode {
            Some(mode) => {
                args.push("--agent".to_string());
                args.push(mode.clone());
            },
            None => {},
        }
        let ghost a1 = texts(args@);
        proof {
            assert(a1 =~= a0 + config_mode_args(*config));
        }
        let n = config.extra_args.len();
        let mut i: usize = 0;
        while i < n
            invariant
                n == config.extra_args@.len(),
                i <= n,
                texts(args@) == a1 + texts(config.extra_args@.subrange(0, i as int)),
            decreases n - i,
        {
            let ghost before = args@;
            args.push(config.extra_args[i].clone());
            proof {
                assert(config.extra_args@.subrange(0, i + 1) =~= config.extra_args@.subrange(0, i as int).push(
                    config.extra_args@[i as int],
                ));
                assert(texts(args@) =~= texts(before).push(config.extra_args@[i as int]@));
                assert(texts(args@) =~= a1 + texts(config.extra_args@.subrange(0, i + 1)));
            }
            i = i + 1;
        }
        proof {
            assert(config.extra_args@.subrange(0, n as int) =~= config.extra_args@);
        }
        CommandSpec {
            program: agent.cli_path().to_string(),
            args,
            env: agent.environment(),
            working_dir: copy_opt(&config.working_dir),
        }
    }
}

/// The command that starts `agent` in non-interactive mode.
pub fn fallback_command<A: Agent>(agent: &A) -> (r: CommandSpec)
    ensures
        is_fallback_command(r, *agent),
{
    CommandSpec {
        program: agent.cli_path().to_string(),
        args: agent.chat_args(),
        env: agent.environment(),
        working_dir: None,
    }
}

/// The outcome of a non-interactive run that wrote `output`: the agent's
/// cleaned-up text, or a protocol error where that text is blank.
pub fn fallback_outcome<A: Agent>(agent: &A, output: &Vec<u8>) -> (r: crate::Result<String>)
    ensures
        trimmed(agent.spec_process(lossy_text(output@))).len() == 0 <==> r is Err,
        r is Err ==> r->Err_0.is(ErrorKind::Protocol, "Empty response from agent"@),
        r is Ok ==> r->Ok_0@ == agent.spec_process(lossy_text(output@)),
{
    let raw = decode_lossy(output);
    let text = agent.process_response(raw.as_str());
    if trim(text.as_str()).unicode_len() == 0 {
        Err(Error::protocol("Empty response from agent"))
    } else {
        Ok(text)
    }
}

impl Exchange {
    /// A new exchange for `prompt`, and its first action: start the agent in
    /// protocol mode.
    pub fn start<A: Agent>(agent: &A, config: &AgentConfig, prompt: &str) -> (r: (Exchange, Action))
        ensures
            r.0.wf(),
            r.0.stage == Stage::Spawning,
            r.0.prompt@ == prompt@,
            r.0.remote_session is None,
            r.1 is Spawn,
            is_protocol_command(r.1->Spawn_0, *agent, *config),
    {
        let ex = Exchange { stage: Stage::Spawning, prompt: prompt.to_string(), remote_session: None };
        (ex, Action::Spawn(AcpConnection::command(agent, config)))
    }

    /// Whether the exchange can take `event` now.
    pub fn accepts(&self, event: &Event) -> (r: bool)
        ensures
            r == expects(self.stage, *event),
    {
        match self.stage {
            Stage::Spawning => match event {
                Event::Spawned | Event::SpawnFailed(_) | Event::PipeFailed(_) => true,
                _ => false,
            },
            Stage::Initializing => match event {
                Event::Initialized | Event::InitializeFailed(_) => true,
                _ => false,
            },
            Stage::CreatingSession => match event {
                Event::SessionCreated(_) | Event::SessionFailed(_) => true,
                _ => false,
            },
            Stage::WarmingUp | Stage::Draining => match event {
                Event::Slept => true,
                _ => false,
            },
            Stage::Prompting => match event {
                Event::PromptCompleted | Event::PromptFailed(_) | Event::PromptTimedOut => true,
                _ => false,
            },
            Stage::Collecting => match event {
                Event::Collected(_) => true,
                _ => false,
            },
            Stage::FallingBack => match event {
                Event::FallbackOutput(_) | Event::FallbackSpawnFailed(_) | Event::FallbackIoFailed(_)
                | Event::FallbackTimedOut => true,
                _ => false,
            },
            Stage::Done => false,
        }
    }

    /// The action that sends the prompt.
    fn send_prompt(&mut self, config: &AgentConfig) -> (r: Action)
        requires
            old(self).remote_session is Some,
        ensures
            final(self).prompt == old(self).prompt,
            final(self).remote_session == old(self).remote_session,
            sends_prompt(*final(self), r, *config),
    {
        self.stage = Stage::Prompting;
        let id = match &self.remote_session {
            Some(id) => id.clone(),
            None => String::new(),
        };
        Action::SendPrompt(id, self.prompt.clone(), config.timeout)
    }

    /// Ends the exchange with `e`.
    fn fail(&mut self, e: Error) -> (r: Action)
        ensures
            final(self).stage == Stage::Done,
            final(self).prompt == old(self).prompt,
            r == Action::Finish(Err(e)),
    {
        self.stage = Stage::Done;
        Action::Finish(Err(e))
    }

    /// Takes `event`, the outcome of the last action, and hands out the next one.
    pub fn step<A: Agent>(&mut self, agent: &A, config: &AgentConfig, event: Event) -> (r: Action)
        requires
            old(self).wf(),
            expects(old(self).stage, event),
        ensures
            final(self).wf(),
            transition(*agent, *config, *old(self), event, *final(self), r),
    {
        proof {
            reveal_strlit("Initialize failed: ");
            reveal_strlit("Session creation failed: ");
            reveal_strlit("Prompt failed: ");
        }
        match event {
            Event::Spawned => {
                self.stage = Stage::Initializing;
                Action::Initialize
            },
            Event::SpawnFailed(m) => self.fail(Error::Spawn(m)),
            Event::PipeFailed(m) => self.fail(Error::Connection(m)),
            Event::Initialized => {
                self.stage = Stage::CreatingSession;
                Action::CreateSession(copy_opt(&config.working_dir))
            },
            Event::InitializeFailed(m) => {
                let msg = "Initialize failed: ".to_string().concat(m.as_str());
                self.fail(Error::Protocol(msg))
            },
            Event::SessionCreated(id) => {
                self.remote_session = Some(id);
                let delay = agent.session_init_delay();
                if !delay.is_zero() {
                    self.stage = Stage::WarmingUp;
                    Action::Sleep(delay)
                } else {
                    self.send_prompt(config)
                }
            },
            Event::SessionFailed(m) => {
                let msg = "Session creation failed: ".to_string().concat(m.as_str());
                self.fail(Error::Session(msg))
            },
            Event::Slept => {
                if self.stage == Stage::WarmingUp {
                    self.send_prompt(config)
                } else {
                    self.stage = Stage::Collecting;
                    Action::Collect
                }
            },
            Event::PromptCompleted => {
                let delay = agent.post_prompt_delay();
                if !delay.is_zero() {
                    self.stage = Stage::Draining;
                    Action::Sleep(delay)
                } else {
                    self.stage = Stage::Collecting;
                    Action::Collect
                }
            },
            Event::PromptFailed(m) => {
                let msg = "Prompt failed: ".to_string().concat(m.as_str());
                self.fail(Error::Protocol(msg))
            },
            Event::PromptTimedOut => self.fail(Error::Timeout),
            Event::Collected(t) => {
                if t.as_str().unicode_len() == 0 {
                    self.stage = Stage::FallingBack;
                    Action::RunFallback(fallback_command(agent), self.prompt.clone(), config.timeout)
                } else {
                    self.stage = Stage::Done;
                    Action::Finish(Ok(agent.process_response(t.as_str())))
                }
            },
            Event::FallbackOutput(b) => {
                self.stage = Stage::Done;
                Action::Finish(fallback_outcome(agent, &b))
            },
            Event::FallbackSpawnFailed(m) => self.fail(Error::Spawn(m)),
            Event::FallbackIoFailed(m) => self.fail(Error::Connection(m)),
            Event::FallbackTimedOut => self.fail(Error::Timeout),
        }
    }
}

/// The non-interactive fallback runs exactly when the protocol path completed
/// and collected no text: an empty collection never finishes the exchange
/// directly, and a non-empty one never leads to the fallback.
pub proof fn fallback_exactly_on_empty_text<A: Agent>(
    agent: A,
    config: AgentConfig,
    before: Exchange,
    event: Event,
    after: Exchange,
    action: Action,
)
    requires
        expects(before.stage, event),
        transition(agent, config, before, event, after, action),
    ensures
        action is RunFallback <==> (event is Collected && event->Collected_0@.len() == 0),
        (event is Collected && event->Collected_0@.len() == 0) ==> !(action is Finish),
        (event is Collected && event->Collected_0@.len() > 0) ==> action is Finish && action->Finish_0 is Ok,
{
}

/// A prompt that outlives the timeout, and a fallback run that does, each end
/// the exchange with a timeout error.
pub proof fn timeouts_fail_with_timeout<A: Agent>(
    agent: A,
    config: AgentConfig,
    before: Exchange,
    event: Event,
    after: Exchange,
    action: Action,
)
    requires
        transition(agent, config, before, event, after, action),
        event is PromptTimedOut || event is FallbackTimedOut,
    ensures
        after.stage == Stage::Done,
        action is Finish,
        action->Finish_0 is Err,
        action->Finish_0->Err_0 == Error::Timeout,
{
}

} // verus!
