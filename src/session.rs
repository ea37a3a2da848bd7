//! Conversation sessions.

use vstd::prelude::*;
use vstd::slice::slice_subrange;
use crate::message::{Message, Role};
use crate::metadata::Metadata;
use crate::time::now_millis;

verus! {

/// Relies on uuid::Uuid::new_v4 and its `Display`, which writes the
/// hyphenated form: a random id of 36 characters.
#[verifier::external_body]
fn random_id() -> (r: String)
    ensures
        r@.len() == 36,
{
    uuid::Uuid::new_v4().to_string()
}

/// One line of a transcript: the role's name, a colon and the text.
pub open spec fn line_of(m: Message, capitalised: bool) -> Seq<char> {
    let name = if capitalised {
        m.role.spec_label()
    } else {
        m.role.spec_name()
    };
    name + ": "@ + m.content@
}

/// The lines of `msgs`, in order, separated by blank lines.
pub open spec fn transcript(msgs: Seq<Message>, capitalised: bool) -> Seq<char>
    decreases msgs.len(),
{
    if msgs.len() == 0 {
        Seq::empty()
    } else if msgs.len() == 1 {
        line_of(msgs[0], capitalised)
    } else {
        transcript(msgs.drop_last(), capitalised) + "\n\n"@ + line_of(msgs.last(), capitalised)
    }
}

/// The transcript of `msgs`: each message as `Name: text`, separated by blank
/// lines, with capitalised role names or lowercase ones.
pub fn render_transcript(msgs: &Vec<Message>, capitalised: bool) -> (r: String)
    ensures
        r@ == transcript(msgs@, capitalised),
{
    let mut out = String::new();
    let n = msgs.len();
    let mut i: usize = 0;
    while i < n
        invariant
            n == msgs@.len(),
            i <= n,
            out@ == transcript(msgs@.subrange(0, i as int), capitalised),
        decreases n - i,
    {
        let m = &msgs[i];
        if i > 0 {
            out.append("\n\n");
        }
        if capitalised {
            out.append(m.role.label());
        } else {
            out.append(m.role.as_str());
        }
        out.append(": ");
        out.append(m.content.as_str());
        proof {
            let next = msgs@.subrange(0, i + 1);
            assert(next.drop_last() =~= msgs@.subrange(0, i as int));
            assert(next.last() == msgs@[i as int]);
            if i == 0 {
                assert(out@ =~= transcript(next, capitalised));
            } else {
                assert(out@ =~= transcript(next, capitalised));
            }
        }
        i = i + 1;
    }
    proof {
        assert(msgs@.subrange(0, n as int) =~= msgs@);
    }
    out
}

/// A copy of `v`, message for message.
pub fn copy_messages(v: &Vec<Message>) -> (r: Vec<Message>)
    ensures
        r@ == v@,
{
    let mut out: Vec<Message> = Vec::new();
    let n = v.len();
    let mut i: usize = 0;
    while i < n
        invariant
            n == v@.len(),
            i <= n,
            out@ == v@.subrange(0, i as int),
        decreases n - i,
    {
        out.push(v[i].clone());
        proof {
            assert(out@ =~= v@.subrange(0, i + 1));
        }
        i = i + 1;
    }
    proof {
        assert(out@ =~= v@);
    }
    out
}

/// A copy of an optional string.
pub(crate) fn copy_opt(o: &Option<String>) -> (r: Option<String>)
    ensures
        r == *o,
{
    match o {
        Some(s) => Some(s.clone()),
        None => None,
    }
}

/// A conversation with an agent.
#[derive(Debug)]
pub struct Session {
    /// The id under which the session is stored.
    pub id: String,
    /// The id of the session on the agent's side, once one exists.
    pub acp_session_id: Option<String>,
    /// An optional title.
    pub title: Option<String>,
    /// The system prompt the session began with, if any.
    pub system_prompt: Option<String>,
    /// The messages, in conversation order.
    pub messages: Vec<Message>,
    /// When the session was made, in milliseconds since the Unix epoch.
    pub created_at: i64,
    /// When the session last changed, in milliseconds since the Unix epoch.
    pub updated_at: i64,
    /// Named values attached to the session.
    pub metadata: Metadata,
}

/// A session as plain values.
pub struct SessionView {
    pub id: Seq<char>,
    pub acp_session_id: Option<String>,
    pub title: Option<String>,
    pub system_prompt: Option<String>,
    pub messages: Seq<Message>,
    pub created_at: i64,
    pub updated_at: i64,
    pub metadata: Map<Seq<char>, serde_json::Value>,
}

impl View for Session {
    type V = SessionView;

    open spec fn view(&self) -> SessionView {
        SessionView {
            id: self.id@,
            acp_session_id: self.acp_session_id,
            title: self.title,
            system_prompt: self.system_prompt,
            messages: self.messages@,
            created_at: self.created_at,
            updated_at: self.updated_at,
            metadata: self.metadata@,
        }
    }
}

impl Clone for Session {
    fn clone(&self) -> (r: Session)
        ensures
            r@ == self@,
    {
        Session {
            id: self.id.clone(),
            acp_session_id: copy_opt(&self.acp_session_id),
            title: copy_opt(&self.title),
            system_prompt: copy_opt(&self.system_prompt),
            messages: copy_messages(&self.messages),
            created_at: self.created_at,
            updated_at: self.updated_at,
            metadata: self.metadata.clone(),
        }
    }
}

impl Default for Session {
    fn default() -> (r: Session)
        ensures
            r.wf(),
            r.id@.len() == 36,
            r.messages@.len() == 0,
    {
        Session::new()
    }
}

impl Session {
    /// The session's timestamps are in order.
    pub open spec fn wf(&self) -> bool {
        self.created_at <= self.updated_at
    }

    /// A session with a fresh random id, no messages and no metadata.
    pub fn new() -> (r: Session)
        ensures
            r.wf(),
            r.id@.len() == 36,
            r.acp_session_id is None,
            r.title is None,
            r.system_prompt is None,
            r.messages@.len() == 0,
            r.created_at == r.updated_at,
            r.metadata@ == Map::<Seq<char>, serde_json::Value>::empty(),
    {
        let now = now_millis();
        Session {
            id: random_id(),
            acp_session_id: None,
            title: None,
            system_prompt: None,
            messages: Vec::new(),
            created_at: now,
            updated_at: now,
            metadata: Metadata::new(),
        }
    }

    /// A new session that begins with a system message holding `system_prompt`.
    pub fn with_system_prompt(system_prompt: &str) -> (r: Session)
        ensures
            r.wf(),
            r.id@.len() == 36,
            r.acp_session_id is None,
            r.title is None,
            r.system_prompt is Some && r.system_prompt->Some_0@ == system_prompt@,
            r.messages@.len() == 1,
            r.messages@[0].role == Role::System,
            r.messages@[0].content@ == system_prompt@,
            r.created_at == r.updated_at,
            r.metadata@ == Map::<Seq<char>, serde_json::Value>::empty(),
    {
        let mut session = Session::new();
        session.system_prompt = Some(system_prompt.to_string());
        session.messages.push(Message::system(system_prompt));
        session
    }

    /// The same session with its title set.
    pub fn with_title(self, title: &str) -> (r: Session)
        ensures
            r@ == (SessionView { title: r.title, ..self@ }),
            r.title is Some && r.title->Some_0@ == title@,
    {
        let mut s = self;
        s.title = Some(title.to_string());
        s
    }

    /// Appends `message` and moves `updated_at` forward to the current time;
    /// a clock that went backwards leaves it where it was.
    pub fn add_message(&mut self, message: Message)
        ensures
            final(self).messages@ == old(self).messages@.push(message),
            final(self).updated_at >= old(self).updated_at,
            old(self).wf() ==> final(self).wf(),
            final(self).id == old(self).id,
            final(self).acp_session_id == old(self).acp_session_id,
            final(self).title == old(self).title,
            final(self).system_prompt == old(self).system_prompt,
            final(self).created_at == old(self).created_at,
            final(self).metadata@ == old(self).metadata@,
    {
        self.messages.push(message);
        let now = now_millis();
        if now > self.updated_at {
            self.updated_at = now;
        }
    }

    /// Appends a user message with text `content`.
    pub fn add_user_message(&mut self, content: &str)
        ensures
            final(self).messages@.len() == old(self).messages@.len() + 1,
            final(self).messages@.drop_last() == old(self).messages@,
            final(self).messages@.last().role == Role::User,
            final(self).messages@.last().content@ == content@,
            final(self).updated_at >= old(self).updated_at,
            old(self).wf() ==> final(self).wf(),
            final(self).id == old(self).id,
            final(self).acp_session_id == old(self).acp_session_id,
            final(self).title == old(self).title,
            final(self).system_prompt == old(self).system_prompt,
            final(self).created_at == old(self).created_at,
            final(self).metadata@ == old(self).metadata@,
    {
        let m = Message::user(content);
        self.add_message(m);
        proof {
            assert(final(self).messages@.drop_last() =~= old(self).messages@);
        }
    }

    /// Appends an assistant message with text `content`.
    pub fn add_assistant_message(&mut self, content: &str)
        ensures
            final(self).messages@.len() == old(self).messages@.len() + 1,
            final(self).messages@.drop_last() == old(self).messages@,
            final(self).messages@.last().role == Role::Assistant,
            final(self).messages@.last().content@ == content@,
            final(self).updated_at >= old(self).updated_at,
            old(self).wf() ==> final(self).wf(),
            final(self).id == old(self).id,
            final(self).acp_session_id == old(self).acp_session_id,
            final(self).title == old(self).title,
            final(self).system_prompt == old(self).system_prompt,
            final(self).created_at == old(self).created_at,
            final(self).metadata@ == old(self).metadata@,
    {
        let m = Message::assistant(content);
        self.add_message(m);
        proof {
            assert(final(self).messages@.drop_last() =~= old(self).messages@);
        }
    }

    /// The last `n` messages, or all of them where there are fewer.
    pub fn last_messages(&self, n: usize) -> (r: &[Message])
        ensures
            r@ == self.messages@.subrange(
                if n >= self.messages@.len() { 0 } else { self.messages@.len() - n },
                self.messages@.len() as int,
            ),
    {
        let len = self.messages.len();
        let start = if n >= len { 0 } else { len - n };
        slice_subrange(self.messages.as_slice(), start, len)
    }

    /// The number of messages.
    pub fn message_count(&self) -> (r: usize)
        ensures
            r == self.messages@.len(),
    {
        self.messages.len()
    }

    /// Whether the session has no messages.
    pub fn is_empty(&self) -> (r: bool)
        ensures
            r == (self.messages@.len() == 0),
    {
        self.messages.len() == 0
    }

    /// Sets metadata `key` to `value` and moves `updated_at` forward to the
    /// current time.
    pub fn set_metadata(&mut self, key: &str, value: serde_json::Value)
        ensures
            final(self).metadata@ == old(self).metadata@.insert(key@, value),
            final(self).messages@ == old(self).messages@,
            final(self).updated_at >= old(self).updated_at,
            old(self).wf() ==> final(self).wf(),
            final(self).id == old(self).id,
            final(self).created_at == old(self).created_at,
    {
        self.metadata.insert(key, value);
        let now = now_millis();
        if now > self.updated_at {
            self.updated_at = now;
        }
    }

    /// The metadata under `key`, if any.
    pub fn get_metadata(&self, key: &str) -> (r: Option<&serde_json::Value>)
        ensures
            r is Some <==> self.metadata@.contains_key(key@),
            r is Some ==> *r->Some_0 == self.metadata@[key@],
    {
        self.metadata.get(key)
    }

    /// The whole history as one prompt: each message as `Role: text`, with
    /// capitalised role names, separated by blank lines.
    pub fn build_prompt(&self) -> (r: String)
        ensures
            r@ == transcript(self.messages@, true),
    {
        render_transcript(&self.messages, true)
    }
}

} // verus!
