//! A client library that drives command-line AI agents speaking the Agent
//! Client Protocol, keeps multi-turn conversation sessions, and falls back to
//! a plain non-interactive invocation when the protocol path yields no text.
//!
//! The library holds the decisions: which command to run, how an exchange
//! proceeds from one protocol step to the next, how sessions are stored and
//! updated, and how the persistent agent process is supervised. Spawning
//! processes, awaiting pipes and sleeping are left to the caller, which
//! performs the actions the library hands out and reports what happened.

pub mod agent;
pub mod ansi;
pub mod client;
pub mod codex;
pub mod collector;
pub mod config;
pub mod error;
pub mod exchange;
pub mod gemini;
pub mod kiro;
pub mod message;
pub mod metadata;
pub mod mock;
pub mod session;
pub mod store;
pub mod supervisor;
pub mod time;

pub use agent::{Agent, AgentCapabilities, AgentInfo};
pub use client::AcpClient;
pub use codex::{CodexAgent, CodexApprovalMode};
pub use collector::{ResponseCollector, Update};
pub use config::AgentConfig;
pub use error::{Error, ErrorKind};
pub use exchange::{AcpConnection, Action, CommandSpec, Event, Exchange, Stage};
pub use gemini::{GeminiAgent, GeminiOutputFormat};
pub use kiro::KiroAgent;
pub use message::{Message, Role};
pub use metadata::Metadata;
pub use mock::MockAgent;
pub use session::Session;
pub use store::SessionService;
pub use supervisor::ProcessSupervisor;
pub use time::TimeSpan;

use vstd::prelude::*;

verus! {

/// The result of the library's fallible operations.
pub type Result<T> = std::result::Result<T, Error>;

} // verus!
