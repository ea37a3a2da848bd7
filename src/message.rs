//! Conversation messages.

use vstd::prelude::*;
use crate::time::now_millis;

verus! {

/// Who sent a message.
#[derive(Debug, Clone, Copy, PartialEq, Eq, Structural)]
pub enum Role {
    System,
    User,
    Assistant,
}

/// What `str::to_lowercase` makes of a string.
pub uninterp spec fn lower_of(s: Seq<char>) -> Seq<char>;

/// Relies on str::to_lowercase: the lowercase form, a function of the
/// characters alone.
#[verifier::external_body]
fn to_lowercase(s: &str) -> (r: String)
    ensures
        r@ == lower_of(s@),
{
    s.to_lowercase()
}

impl Role {
    /// The lowercase name of the role.
    pub open spec fn spec_name(self) -> Seq<char> {
        match self {
            Role::System => "system"@,
            Role::User => "user"@,
            Role::Assistant => "assistant"@,
        }
    }

    /// The capitalised name under which the role heads a line of a prompt.
    pub open spec fn spec_label(self) -> Seq<char> {
        match self {
            Role::System => "System"@,
            Role::User => "User"@,
            Role::Assistant => "Assistant"@,
        }
    }

    /// The lowercase name of the role.
    pub fn as_str(&self) -> (r: &'static str)
        ensures
            r@ == self.spec_name(),
    {
        match self {
            Role::System => "system",
            Role::User => "user",
            Role::Assistant => "assistant",
        }
    }

    /// The capitalised name under which the role heads a line of a prompt.
    pub fn label(&self) -> (r: &'static str)
        ensures
            r@ == self.spec_label(),
    {
        match self {
            Role::System => "System",
            Role::User => "User",
            Role::Assistant => "Assistant",
        }
    }

    /// Reads a role from its name, in any letter case.
    pub fn parse(s: &str) -> (r: std::result::Result<Role, String>)
        ensures
            r == Ok::<Role, String>(Role::System) <==> lower_of(s@) == "system"@,
            r == Ok::<Role, String>(Role::User) <==> lower_of(s@) == "user"@,
            r == Ok::<Role, String>(Role::Assistant) <==> lower_of(s@) == "assistant"@,
            r is Err ==> r->Err_0@ == "Unknown role: "@ + s@,
    {
        proof {
            reveal_strlit("system");
            reveal_strlit("user");
            reveal_strlit("assistant");
            assert("user"@.len() != "system"@.len());
            assert("assistant"@.len() != "system"@.len());
            assert("assistant"@.len() != "user"@.len());
        }
        let lowered = to_lowercase(s);
        if lowered == "system".to_string() {
            Ok(Role::System)
        } else if lowered == "user".to_string() {
            Ok(Role::User)
        } else if lowered == "assistant".to_string() {
            Ok(Role::Assistant)
        } else {
            let head = "Unknown role: ".to_string();
            Err(head.concat(s))
        }
    }
}

impl std::str::FromStr for Role {
    type Err = String;

    fn from_str(s: &str) -> std::result::Result<Role, String> {
        Role::parse(s)
    }
}

/// One message of a conversation.
#[derive(Debug)]
pub struct Message {
    /// Who sent it.
    pub role: Role,
    /// Its text.
    pub content: String,
    /// An optional name for the sender.
    pub name: Option<String>,
    /// When it was made, in milliseconds since the Unix epoch.
    pub timestamp: i64,
}

impl Clone for Message {
    fn clone(&self) -> (r: Message)
        ensures
            r == *self,
    {
        let name = match &self.name {
            Some(n) => Some(n.clone()),
            None => None,
        };
        Message { role: self.role, content: self.content.clone(), name, timestamp: self.timestamp }
    }
}

impl Message {
    /// A message from `role` with text `content`, stamped with the current time.
    pub fn new(role: Role, content: &str) -> (r: Message)
        ensures
            r.role == role,
            r.content@ == content@,
            r.name is None,
    {
        Message { role, content: content.to_string(), name: None, timestamp: now_millis() }
    }

    /// A system message.
    pub fn system(content: &str) -> (r: Message)
        ensures
            r.role == Role::System,
            r.content@ == content@,
            r.name is None,
    {
        Message::new(Role::System, content)
    }

    /// A user message.
    pub fn user(content: &str) -> (r: Message)
        ensures
            r.role == Role::User,
            r.content@ == content@,
            r.name is None,
    {
        Message::new(Role::User, content)
    }

    /// An assistant message.
    pub fn assistant(content: &str) -> (r: Message)
        ensures
            r.role == Role::Assistant,
            r.content@ == content@,
            r.name is None,
    {
        Message::new(Role::Assistant, content)
    }

    /// The same message with the sender's name set.
    pub fn with_name(self, name: &str) -> (r: Message)
        ensures
            r.role == self.role,
            r.content == self.content,
            r.timestamp == self.timestamp,
            r.name is Some && r.name->Some_0@ == name@,
    {
        let mut m = self;
        m.name = Some(name.to_string());
        m
    }
}

} // verus!
