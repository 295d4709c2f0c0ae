//! The middleware that lets through only messages with a command prefix.
use vstd::prelude::*;

use crate::text::starts_with;

verus! {

/// Middleware that passes on a message-create event whose content starts
/// with a prefix, and stops every other event.
pub struct PrefixMiddleware {
    prefix: String,
}

impl PrefixMiddleware {
    pub closed spec fn prefix_text(&self) -> Seq<char> {
        self.prefix@
    }

    /// Middleware for the given prefix.
    pub fn new(prefix: &str) -> (m: PrefixMiddleware)
        ensures
            m.prefix_text() == prefix@,
    {
        PrefixMiddleware { prefix: prefix.to_owned() }
    }

    /// Whether an event goes on down the stack, given the content of the
    /// message that it creates, or `None` when it is not a message-create
    /// event: exactly when there is a content and it starts with the prefix.
    pub fn lets_through(&self, message_content: Option<&str>) -> (r: bool)
        ensures
            r == (message_content matches Some(c) && self.prefix_text().is_prefix_of(c@)),
    {
        match message_content {
            Some(content) => starts_with(content, self.prefix.as_str()),
            None => false,
        }
    }
}

/// A shorter prefix lets through every message that a longer one does:
/// when the prefix of `shorter` begins the prefix of `longer`, a message
/// whose content starts with the longer prefix starts with the shorter one.
pub proof fn lemma_shorter_prefix_lets_more_through(shorter: PrefixMiddleware, longer: PrefixMiddleware, content: Seq<char>)
    requires
        shorter.prefix_text().is_prefix_of(longer.prefix_text()),
        longer.prefix_text().is_prefix_of(content),
    ensures
        shorter.prefix_text().is_prefix_of(content),
{
    let p = shorter.prefix_text();
    let q = longer.prefix_text();
    assert forall|i: int| 0 <= i < p.len() implies #[trigger] content[i] == p[i] by {
        assert(q[i] == p[i]);
        assert(content[i] == q[i]);
    }
}

} // verus!
