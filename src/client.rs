//! The client facade: sessions, prompts built from their history, and the
//! exchanges that answer them.

use vstd::prelude::*;
use crate::agent::Agent;
use crate::config::AgentConfig;
use crate::error::{Error, ErrorKind};
use crate::exchange::{expects, is_protocol_command, transition, Action, Event, Exchange, Stage};
use crate::message::{Message, Role};
use crate::session::{render_transcript, transcript, Session, SessionView};
use crate::store::{stored, SessionService};

verus! {

/// `new` is `old` with one more message from `role` with text `content`, at
/// a time no earlier than its last change.
pub open spec fn with_message_from(old: SessionView, new: SessionView, role: Role, content: Seq<char>) -> bool {
    &&& new.messages.len() == old.messages.len() + 1
    &&& new.messages.drop_last() == old.messages
    &&& new.messages.last().role == role
    &&& new.messages.last().content@ == content
    &&& new.updated_at >= old.updated_at
    &&& new == (SessionView { messages: new.messages, updated_at: new.updated_at, ..old })
}

/// A client for one agent: it keeps sessions and answers prompts through
/// exchanges with the agent.
pub struct AcpClient<A: Agent> {
    agent: A,
    config: AgentConfig,
    sessions: SessionService,
}

impl<A: Agent> AcpClient<A> {
    /// The agent.
    pub closed spec fn spec_agent(&self) -> A {
        self.agent
    }

    /// The configuration.
    pub closed spec fn spec_config(&self) -> AgentConfig {
        self.config
    }

    /// The session store.
    pub closed spec fn spec_sessions(&self) -> SessionService {
        self.sessions
    }

    /// The client's invariant: its store is well formed.
    pub open spec fn wf(&self) -> bool {
        self.spec_sessions().wf()
    }

    /// A client for `agent` with `config` and no sessions.
    pub fn new(agent: A, config: AgentConfig) -> (r: AcpClient<A>)
        ensures
            r.wf(),
            r.spec_agent() == agent,
            r.spec_config() == config,
            r.spec_sessions()@ == Map::<Seq<char>, SessionView>::empty(),
    {
        AcpClient { agent, config, sessions: SessionService::new() }
    }

    /// The agent.
    pub fn agent(&self) -> (r: &A)
        ensures
            *r == self.spec_agent(),
    {
        &self.agent
    }

    /// The configuration.
    pub fn config(&self) -> (r: &AgentConfig)
        ensures
            *r == self.spec_config(),
    {
        &self.config
    }

    /// The session store.
    pub fn sessions(&self) -> (r: &SessionService)
        ensures
            *r == self.spec_sessions(),
    {
        &self.sessions
    }

    /// The session store, for changing.
    pub fn sessions_mut(&mut self) -> (r: &mut SessionService)
        ensures
            *r == old(self).spec_sessions(),
            final(self).spec_sessions() == *final(r),
            final(self).spec_agent() == old(self).spec_agent(),
            final(self).spec_config() == old(self).spec_config(),
    {
        &mut self.sessions
    }

    /// Stores a new session, as `SessionService::create` does.
    pub fn create_session(&mut self, system_prompt: Option<String>) -> (r: Session)
        requires
            old(self).wf(),
        ensures
            final(self).wf(),
            final(self).spec_agent() == old(self).spec_agent(),
            final(self).spec_config() == old(self).spec_config(),
            r.id@.len() > 0,
            !old(self).spec_sessions().issued_ids().contains(r.id@),
            final(self).spec_sessions()@ == stored(old(self).spec_sessions()@, r@),
            final(self).spec_sessions().issued_ids() == old(self).spec_sessions().issued_ids().insert(r.id@),
            system_prompt is None ==> r.system_prompt is None && r.messages@.len() == 0,
            system_prompt is Some ==> {
                &&& r.system_prompt is Some
                &&& r.system_prompt->Some_0@ == system_prompt->Some_0@
                &&& r.messages@.len() == 1
                &&& r.messages@[0].role == Role::System
                &&& r.messages@[0].content@ == system_prompt->Some_0@
            },
    {
        self.sessions.create(system_prompt)
    }

    /// The first half of a chat turn: the stored session `session_id` with a
    /// user message `content` appended, and the prompt built from its whole
    /// history. The store is not changed.
    pub fn begin_chat(&self, session_id: &str, content: &str) -> (r: crate::Result<(Session, String)>)
        requires
            self.wf(),
        ensures
            r is Ok <==> self.spec_sessions()@.contains_key(session_id@),
            r is Ok ==> {
                let (s, prompt) = r->Ok_0;
                &&& with_message_from(self.spec_sessions()@[session_id@], s@, Role::User, content@)
                &&& prompt@ == transcript(s.messages@, true)
            },
            r is Err ==> r->Err_0.is(ErrorKind::SessionNotFound, session_id@),
    {
        let mut session = match self.sessions.get(session_id) {
            Ok(s) => s,
            Err(e) => return Err(e),
        };
        let ghost before = session@;
        session.add_user_message(content);
        proof {
            assert(session@ == (SessionView { messages: session@.messages, updated_at: session@.updated_at, ..before }));
        }
        let prompt = session.build_prompt();
        Ok((session, prompt))
    }

    /// The second half of a chat turn. On an answer, appends it to `session`
    /// as an assistant message, writes the session back and returns the
    /// answer. On a failure, stores nothing and returns the failure.
    pub fn finish_chat(&mut self, session: Session, outcome: crate::Result<String>) -> (r: crate::Result<String>)
        requires
            old(self).wf(),
        ensures
            final(self).wf(),
            final(self).spec_agent() == old(self).spec_agent(),
            final(self).spec_config() == old(self).spec_config(),
            final(self).spec_sessions().issued_ids() == old(self).spec_sessions().issued_ids(),
            outcome is Err ==> r == outcome && final(self).spec_sessions()@ == old(self).spec_sessions()@,
            outcome is Ok ==> {
                if old(self).spec_sessions()@.contains_key(session.id@) {
                    &&& r == outcome
                    &&& final(self).spec_sessions()@.contains_key(session.id@)
                    &&& with_message_from(session@, final(self).spec_sessions()@[session.id@], Role::Assistant, outcome->Ok_0@)
                    &&& final(self).spec_sessions()@ == stored(old(self).spec_sessions()@, final(self).spec_sessions()@[session.id@])
                } else {
                    &&& r is Err
                    &&& r->Err_0.is(ErrorKind::SessionNotFound, session.id@)
                    &&& final(self).spec_sessions()@ == old(self).spec_sessions()@
                }
            },
    {
        match outcome {
            Err(e) => Err(e),
            Ok(text) => {
                let mut session = session;
                let ghost before = session@;
                session.add_assistant_message(text.as_str());
                let ghost after = session@;
                proof {
                    assert(after == (SessionView { messages: after.messages, updated_at: after.updated_at, ..before }));
                }
                match self.sessions.update(session) {
                    Ok(()) => Ok(text),
                    Err(e) => Err(e),
                }
            },
        }
    }

    /// The prompt for a list of messages: each as `role: text`, with
    /// lowercase role names, separated by blank lines.
    pub fn completion_prompt(messages: &Vec<Message>) -> (r: String)
        ensures
            r@ == transcript(messages@, false),
    {
        render_transcript(messages, false)
    }

    /// A new exchange that answers `prompt`, and its first action.
    pub fn start_prompt(&self, prompt: &str) -> (r: (Exchange, Action))
        ensures
            r.0.wf(),
            r.0.stage == Stage::Spawning,
            r.0.prompt@ == prompt@,
            r.1 is Spawn,
            is_protocol_command(r.1->Spawn_0, self.spec_agent(), self.spec_config()),
    {
        Exchange::start(&self.agent, &self.config, prompt)
    }

    /// Takes the outcome of an exchange's last action and hands out its next one.
    pub fn advance(&self, exchange: &mut Exchange, event: Event) -> (r: Action)
        requires
            old(exchange).wf(),
            expects(old(exchange).stage, event),
        ensures
            final(exchange).wf(),
            transition(self.spec_agent(), self.spec_config(), *old(exchange), event, *final(exchange), r),
    {
        exchange.step(&self.agent, &self.config, event)
    }
}

} // verus!
