//! Session registration, lookup, and message appends on the router.
//!
//! Within one session, the message history reflects the strict call order of
//! the appends; every append enforces the session's configured maximum.

use vstd::prelude::*;

use crate::DeepThoughtError;
use crate::context::{DeepThoughtContext, Role, appended};
use crate::router::DeepThoughtRouter;

verus! {

/// The system prompt a session is opened with when none is supplied.
pub const DEFAULT_SYSTEM_PROMPT: &'static str = "You are a helpful assistant.";

impl DeepThoughtRouter {
    /// Open a session under `name` with the default system prompt,
    /// replacing any existing session with the same name.
    pub fn new_session(&mut self, name: &str) -> (r: Result<(), DeepThoughtError>)
        requires
            old(self).wf(),
        ensures
            r is Ok,
            final(self).wf(),
            final(self).sessions.spec_get(name@) matches Some(c) && c.spec_messages().len() == 1
                && c.spec_messages()[0].role == Role::System && c.spec_messages()[0].text@
                == DEFAULT_SYSTEM_PROMPT@ && c.spec_max() is None,
            forall|k: Seq<char>|
                k != name@ ==> final(self).sessions.spec_get(k) == old(self).sessions.spec_get(k),
            final(self).routes == old(self).routes,
    {
        self.new_session_with_prompt(name, DEFAULT_SYSTEM_PROMPT)
    }

    /// Open a session under `name` seeded with the given system prompt,
    /// replacing any existing session with the same name.
    pub fn new_session_with_prompt(&mut self, name: &str, prompt: &str) -> (r: Result<
        (),
        DeepThoughtError,
    >)
        requires
            old(self).wf(),
        ensures
            r is Ok,
            final(self).wf(),
            final(self).sessions.spec_get(name@) matches Some(c) && c.spec_messages().len() == 1
                && c.spec_messages()[0].role == Role::System && c.spec_messages()[0].text@
                == prompt@ && c.spec_max() is None,
            forall|k: Seq<char>|
                k != name@ ==> final(self).sessions.spec_get(k) == old(self).sessions.spec_get(k),
            final(self).routes == old(self).routes,
    {
        let new_context = match DeepThoughtContext::init(prompt) {
            Ok(context) => context,
            Err(e) => {
                return Err(e);
            },
        };
        self.sessions.insert(name, new_context);
        Ok(())
    }

    /// The session under `name`; an unknown name is not found.
    pub fn get_session(&self, name: &str) -> (r: Result<&DeepThoughtContext, DeepThoughtError>)
        requires
            self.wf(),
        ensures
            match r {
                Ok(c) => self.sessions.spec_get(name@) == Some(*c),
                Err(e) => e is NotFound && self.sessions.spec_get(name@) is None,
            },
    {
        match self.sessions.get(name) {
            Some(context) => Ok(context),
            None => Err(DeepThoughtError::NotFound("Session not found".to_owned())),
        }
    }

    /// Remove the session under `name`; an unknown name is not found.
    pub fn drop_session(&mut self, name: &str) -> (r: Result<(), DeepThoughtError>)
        requires
            old(self).wf(),
        ensures
            final(self).wf(),
            r is Ok <==> old(self).sessions.contains_key(name@),
            r matches Err(e) ==> e is NotFound && *final(self) == *old(self),
            final(self).sessions.spec_get(name@) is None,
            forall|k: Seq<char>|
                k != name@ ==> final(self).sessions.spec_get(k) == old(self).sessions.spec_get(k),
            final(self).routes == old(self).routes,
    {
        match self.sessions.take(name) {
            Some(_) => Ok(()),
            None => Err(DeepThoughtError::NotFound("Session not found".to_owned())),
        }
    }

    /// The names of the open sessions.
    pub fn list_sessions(&self) -> (r: Vec<String>)
        requires
            self.wf(),
        ensures
            r@.len() == self.sessions.spec_len(),
            forall|i: int|
                0 <= i < r@.len() ==> (#[trigger] r@[i])@ == self.sessions.spec_entries()[i].0@
                    && self.sessions.contains_key(r@[i]@),
            forall|i: int, j: int| 0 <= i < j < r@.len() ==> r@[i]@ != r@[j]@,
    {
        self.sessions.keys()
    }

    /// Configure the maximum number of messages of the session under
    /// `name`; enforced on every subsequent append.
    pub fn set_session_maximum(&mut self, name: &str, max_msg: usize) -> (r: Result<
        (),
        DeepThoughtError,
    >)
        requires
            old(self).wf(),
        ensures
            final(self).wf(),
            r is Ok <==> old(self).sessions.contains_key(name@),
            r matches Err(e) ==> e is NotFound && *final(self) == *old(self),
            old(self).sessions.spec_get(name@) matches Some(c) ==> (final(self).sessions.spec_get(name@) matches Some(d) && d.spec_messages() == c.spec_messages()
                && d.spec_max() == Some(max_msg)),
            forall|k: Seq<char>|
                k != name@ ==> final(self).sessions.spec_get(k) == old(self).sessions.spec_get(k),
            final(self).routes == old(self).routes,
    {
        match self.sessions.take(name) {
            Some(mut context) => {
                context.maximum_messages(max_msg);
                self.sessions.insert(name, context);
                Ok(())
            },
            None => Err(DeepThoughtError::NotFound("Session not found".to_owned())),
        }
    }

    /// Append a user message to the session under `name`.
    pub fn append_user(&mut self, name: &str, text: &str) -> (r: Result<(), DeepThoughtError>)
        requires
            old(self).wf(),
        ensures
            final(self).wf(),
            old(self).sessions.spec_get(name@) is None ==> (r matches Err(e) && e is NotFound
                && *final(self) == *old(self)),
            old(self).sessions.spec_get(name@) matches Some(c) ==> session_append_contract(
                c,
                final(self).sessions.spec_get(name@),
                Role::User,
                text@,
                r,
            ),
            forall|k: Seq<char>|
                k != name@ ==> final(self).sessions.spec_get(k) == old(self).sessions.spec_get(k),
            final(self).routes == old(self).routes,
    {
        self.append_to_session(name, Role::User, text)
    }

    /// Append an assistant message to the session under `name`.
    pub fn append_assistant(&mut self, name: &str, text: &str) -> (r: Result<(), DeepThoughtError>)
        requires
            old(self).wf(),
        ensures
            final(self).wf(),
            old(self).sessions.spec_get(name@) is None ==> (r matches Err(e) && e is NotFound
                && *final(self) == *old(self)),
            old(self).sessions.spec_get(name@) matches Some(c) ==> session_append_contract(
                c,
                final(self).sessions.spec_get(name@),
                Role::Assistant,
                text@,
                r,
            ),
            forall|k: Seq<char>|
                k != name@ ==> final(self).sessions.spec_get(k) == old(self).sessions.spec_get(k),
            final(self).routes == old(self).routes,
    {
        self.append_to_session(name, Role::Assistant, text)
    }

    /// Append a system message to the session under `name`.
    pub fn append_system(&mut self, name: &str, text: &str) -> (r: Result<(), DeepThoughtError>)
        requires
            old(self).wf(),
        ensures
            final(self).wf(),
            old(self).sessions.spec_get(name@) is None ==> (r matches Err(e) && e is NotFound
                && *final(self) == *old(self)),
            old(self).sessions.spec_get(name@) matches Some(c) ==> session_append_contract(
                c,
                final(self).sessions.spec_get(name@),
                Role::System,
                text@,
                r,
            ),
            forall|k: Seq<char>|
                k != name@ ==> final(self).sessions.spec_get(k) == old(self).sessions.spec_get(k),
            final(self).routes == old(self).routes,
    {
        self.append_to_session(name, Role::System, text)
    }

    fn append_to_session(&mut self, name: &str, role: Role, text: &str) -> (r: Result<
        (),
        DeepThoughtError,
    >)
        requires
            old(self).wf(),
        ensures
            final(self).wf(),
            old(self).sessions.spec_get(name@) is None ==> (r matches Err(e) && e is NotFound
                && *final(self) == *old(self)),
            old(self).sessions.spec_get(name@) matches Some(c) ==> session_append_contract(
                c,
                final(self).sessions.spec_get(name@),
                role,
                text@,
                r,
            ),
            forall|k: Seq<char>|
                k != name@ ==> final(self).sessions.spec_get(k) == old(self).sessions.spec_get(k),
            final(self).routes == old(self).routes,
    {
        match self.sessions.take(name) {
            Some(mut context) => {
                let result = match role {
                    Role::User => context.user(text),
                    Role::Assistant => context.assistant(text),
                    Role::System => context.system(text),
                };
                self.sessions.insert(name, context);
                result
            },
            None => Err(DeepThoughtError::NotFound("Session not found".to_owned())),
        }
    }
}

/// What appending to an existing session guarantees: success exactly while
/// the session is below its maximum, the message appended on success, the
/// history left unchanged on a capacity failure.
pub open spec fn session_append_contract(
    before: DeepThoughtContext,
    after: Option<DeepThoughtContext>,
    role: Role,
    text: Seq<char>,
    r: Result<(), DeepThoughtError>,
) -> bool {
    &&& before.can_append() <==> r is Ok
    &&& after matches Some(c)
    &&& (r is Ok ==> appended(before.spec_messages(), after->Some_0.spec_messages(), role, text))
    &&& (r matches Err(e) ==> e is Capacity && after->Some_0.spec_messages()
        == before.spec_messages())
    &&& after->Some_0.spec_max() == before.spec_max()
}

} // verus!
