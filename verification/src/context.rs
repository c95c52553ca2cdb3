//! Ordered conversation histories with optional capacity enforcement.
//!
//! A context is a sequence of role-tagged messages.  When a maximum length
//! is configured, every append checks it first and fails with a capacity
//! error instead of silently dropping messages.

use vstd::prelude::*;

use crate::DeepThoughtError;

verus! {

/// The role of one message in a conversation.
#[derive(Clone, Copy, Debug, PartialEq, Eq, Structural)]
pub enum Role {
    System,
    User,
    Assistant,
}

/// Relates a history to the same history with one message of the given
/// role and text appended at the end.
pub open spec fn appended(old_h: Seq<ChatMessage>, new_h: Seq<ChatMessage>, role: Role, text: Seq<char>) -> bool {
    &&& new_h.len() == old_h.len() + 1
    &&& new_h.subrange(0, old_h.len() as int) == old_h
    &&& new_h.last().role == role
    &&& new_h.last().text@ == text
}

/// One message of a conversation: a role and its text.
#[derive(Clone, Debug)]
pub struct ChatMessage {
    pub role: Role,
    pub text: String,
}

/// A named conversation history: an ordered message list and an optional
/// maximum number of messages.
#[derive(Clone, Debug)]
pub struct DeepThoughtContext {
    messages: Vec<ChatMessage>,
    max_msg: Option<usize>,
}

impl DeepThoughtContext {
    /// The messages of the context, in append order.
    pub closed spec fn spec_messages(&self) -> Seq<ChatMessage> {
        self.messages@
    }

    /// The configured maximum number of messages, if any.
    pub closed spec fn spec_max(&self) -> Option<usize> {
        self.max_msg
    }

    /// An append is admitted exactly when the history has not outgrown the
    /// configured maximum.
    pub open spec fn can_append(&self) -> bool {
        match self.spec_max() {
            Some(m) => self.spec_messages().len() <= m,
            None => true,
        }
    }

    /// An empty context with no capacity limit.
    pub fn new() -> (r: Result<Self, DeepThoughtError>)
        ensures
            r matches Ok(c) && c.spec_messages() == Seq::<ChatMessage>::empty() && c.spec_max()
                is None,
    {
        Ok(DeepThoughtContext { messages: Vec::new(), max_msg: None })
    }

    /// A context seeded with one system message.
    pub fn init(system_prompt: &str) -> (r: Result<Self, DeepThoughtError>)
        ensures
            r matches Ok(c) && c.spec_messages().len() == 1 && c.spec_messages()[0].role
                == Role::System && c.spec_messages()[0].text@ == system_prompt@ && c.spec_max()
                is None,
    {
        let mut dtc = DeepThoughtContext { messages: Vec::new(), max_msg: None };
        match dtc.system(system_prompt) {
            Ok(_) => Ok(dtc),
            Err(e) => Err(e),
        }
    }

    /// Configure the maximum number of messages; enforced on every
    /// subsequent append.
    pub fn maximum_messages(&mut self, max_msg: usize)
        ensures
            final(self).spec_messages() == old(self).spec_messages(),
            final(self).spec_max() == Some(max_msg),
    {
        self.max_msg = Some(max_msg);
    }

    /// Append a system message, unless the context is full.
    pub fn system(&mut self, system_prompt: &str) -> (r: Result<(), DeepThoughtError>)
        ensures
            old(self).can_append() ==> r is Ok,
            !old(self).can_append() ==> (r matches Err(e) && e is Capacity),
            r is Ok ==> appended(
                old(self).spec_messages(),
                final(self).spec_messages(),
                Role::System,
                system_prompt@,
            ),
            r is Err ==> final(self).spec_messages() == old(self).spec_messages(),
            final(self).spec_max() == old(self).spec_max(),
    {
        self.append(Role::System, system_prompt)
    }

    /// Append a user message, unless the context is full.
    pub fn user(&mut self, prompt: &str) -> (r: Result<(), DeepThoughtError>)
        ensures
            old(self).can_append() ==> r is Ok,
            !old(self).can_append() ==> (r matches Err(e) && e is Capacity),
            r is Ok ==> appended(
                old(self).spec_messages(),
                final(self).spec_messages(),
                Role::User,
                prompt@,
            ),
            r is Err ==> final(self).spec_messages() == old(self).spec_messages(),
            final(self).spec_max() == old(self).spec_max(),
    {
        self.append(Role::User, prompt)
    }

    /// Append an assistant message, unless the context is full.
    pub fn assistant(&mut self, prompt: &str) -> (r: Result<(), DeepThoughtError>)
        ensures
            old(self).can_append() ==> r is Ok,
            !old(self).can_append() ==> (r matches Err(e) && e is Capacity),
            r is Ok ==> appended(
                old(self).spec_messages(),
                final(self).spec_messages(),
                Role::Assistant,
                prompt@,
            ),
            r is Err ==> final(self).spec_messages() == old(self).spec_messages(),
            final(self).spec_max() == old(self).spec_max(),
    {
        self.append(Role::Assistant, prompt)
    }

    fn append(&mut self, role: Role, text: &str) -> (r: Result<(), DeepThoughtError>)
        ensures
            old(self).can_append() ==> r is Ok,
            !old(self).can_append() ==> (r matches Err(e) && e is Capacity),
            r is Ok ==> appended(
                old(self).spec_messages(),
                final(self).spec_messages(),
                role,
                text@,
            ),
            r is Err ==> final(self).spec_messages() == old(self).spec_messages(),
            final(self).spec_max() == old(self).spec_max(),
    {
        match self.max_msg {
            Some(max_msg) => {
                if self.messages.len() > max_msg {
                    return Err(DeepThoughtError::Capacity("Context is full".to_owned()));
                }
            },
            None => {},
        }
        self.messages.push(ChatMessage { role, text: text.to_owned() });
        proof {
            assert(self.messages@.subrange(0, old(self).spec_messages().len() as int)
                =~= old(self).spec_messages());
        }
        Ok(())
    }

    /// The configured maximum number of messages, if any.
    pub fn maximum(&self) -> (r: Option<usize>)
        ensures
            r == self.spec_max(),
    {
        self.max_msg
    }

    /// The messages of the context, in append order.
    pub fn messages(&self) -> (r: &Vec<ChatMessage>)
        ensures
            r@ == self.spec_messages(),
    {
        &self.messages
    }

    /// Drop the most recent message, if any.
    pub fn remove_last(&mut self)
        ensures
            old(self).spec_messages().len() == 0 ==> final(self).spec_messages() == old(
                self,
            ).spec_messages(),
            old(self).spec_messages().len() > 0 ==> final(self).spec_messages() == old(
                self,
            ).spec_messages().drop_last(),
            final(self).spec_max() == old(self).spec_max(),
    {
        let _ = self.messages.pop();
    }
}

/// Capacity enforcement: with a configured maximum of `m` messages, an
/// append is admitted exactly while the history holds at most `m` messages;
/// one that is not admitted fails with a capacity error and leaves the
/// history unchanged (see the contracts of `system`, `user`, `assistant`).
pub proof fn lemma_capacity_enforced(c: DeepThoughtContext, m: usize)
    requires
        c.spec_max() == Some(m),
    ensures
        c.can_append() <==> c.spec_messages().len() <= m,
{
}

} // verus!
