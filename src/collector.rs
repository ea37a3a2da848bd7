//! The buffer that streamed agent text is gathered in during one exchange.

use vstd::prelude::*;

verus! {

/// One streamed notification from the agent, as far as collection cares.
#[derive(Debug, Clone)]
pub enum Update {
    /// A chunk of the agent's answer text.
    TextChunk(String),
    /// A chunk of the agent's reasoning; not collected.
    ThoughtChunk,
    /// Any other notification; not collected.
    Other,
}

/// Text gathered from streamed notifications, in arrival order. Text is
/// only ever appended; reading hands out a copy.
#[derive(Debug)]
pub struct ResponseCollector {
    text: String,
}

impl View for ResponseCollector {
    type V = Seq<char>;

    closed spec fn view(&self) -> Seq<char> {
        self.text@
    }
}

impl Default for ResponseCollector {
    fn default() -> (r: ResponseCollector)
        ensures
            r@.len() == 0,
    {
        ResponseCollector::new()
    }
}

impl ResponseCollector {
    /// An empty collector.
    pub fn new() -> (r: ResponseCollector)
        ensures
            r@.len() == 0,
    {
        ResponseCollector { text: String::new() }
    }

    /// Appends `s`.
    pub fn append(&mut self, s: &str)
        ensures
            final(self)@ == old(self)@ + s@,
    {
        self.text.append(s);
    }

    /// Appends the text of `update` if it is a text chunk; other updates are
    /// observed and dropped.
    pub fn observe(&mut self, update: &Update)
        ensures
            update is TextChunk ==> final(self)@ == old(self)@ + update->TextChunk_0@,
            !(update is TextChunk) ==> final(self)@ == old(self)@,
    {
        match update {
            Update::TextChunk(t) => self.append(t.as_str()),
            Update::ThoughtChunk => {},
            Update::Other => {},
        }
    }

    /// A copy of the text gathered so far.
    pub fn get(&self) -> (r: String)
        ensures
            r@ == self@,
    {
        self.text.clone()
    }

    /// Drops the text gathered so far.
    pub fn clear(&mut self)
        ensures
            final(self)@.len() == 0,
    {
        self.text = String::new();
    }

    /// Whether nothing was gathered.
    pub fn is_empty(&self) -> (r: bool)
        ensures
            r == (self@.len() == 0),
    {
        self.text.as_str().unicode_len() == 0
    }
}

} // verus!
