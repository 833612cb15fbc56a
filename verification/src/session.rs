//! Per-chat session state: the conversation history (a System message
//! followed by the User/Assistant turns), the name of the active role, and
//! the dialogue state of the interactive role-creation flow.
//!
//! The session is the unit of concurrency control: a driver must hold a
//! session exclusively for the whole read-modify-write sequence of one
//! inbound event, so that the transitions specified here are the only
//! observable ones.

use vstd::prelude::*;

verus! {

use vstd::string::StringExecFns;

/// Who a conversation message is attributed to.
#[derive(Clone, Copy, PartialEq, Eq, Structural, Debug)]
pub enum MsgRole {
    System,
    User,
    Assistant,
}

/// One conversation message.
pub struct Message {
    pub role: MsgRole,
    pub content: String,
}

/// The mathematical value of a [`Message`].
pub ghost struct MessageView {
    pub role: MsgRole,
    pub content: Seq<char>,
}

/// Shorthand for building a [`MessageView`].
pub open spec fn msg_view(role: MsgRole, content: Seq<char>) -> MessageView {
    MessageView { role, content }
}

impl View for Message {
    type V = MessageView;

    open spec fn view(&self) -> MessageView {
        MessageView { role: self.role, content: self.content@ }
    }
}

impl Clone for Message {
    fn clone(&self) -> (r: Self)
        ensures
            r@ == self@,
    {
        Message { role: self.role, content: self.content.clone() }
    }
}

/// The values of a message sequence.
pub open spec fn msgs_view(s: Seq<Message>) -> Seq<MessageView> {
    s.map_values(|m: Message| m@)
}

/// Builds an owned message from a role and borrowed content.
pub fn mk_message(role: MsgRole, content: &str) -> (m: Message)
    ensures
        m@ == msg_view(role, content@),
{
    Message { role, content: String::from_str(content) }
}

/// The dialogue state of the interactive role-creation flow, scoped to one
/// chat.  `Idle` is both the start and the rest state.
pub enum State {
    Idle,
    AwaitingRoleName,
    AwaitingRoleSystemText { role_name: String },
}

/// The mathematical value of a [`State`].
pub ghost enum StateView {
    Idle,
    AwaitingRoleName,
    AwaitingRoleSystemText { role_name: Seq<char> },
}

impl View for State {
    type V = StateView;

    open spec fn view(&self) -> StateView {
        match self {
            State::Idle => StateView::Idle,
            State::AwaitingRoleName => StateView::AwaitingRoleName,
            State::AwaitingRoleSystemText { role_name } => StateView::AwaitingRoleSystemText {
                role_name: role_name@,
            },
        }
    }
}

impl Clone for State {
    fn clone(&self) -> (r: Self)
        ensures
            r@ == self@,
    {
        match self {
            State::Idle => State::Idle,
            State::AwaitingRoleName => State::AwaitingRoleName,
            State::AwaitingRoleSystemText { role_name } => State::AwaitingRoleSystemText {
                role_name: role_name.clone(),
            },
        }
    }
}

impl Default for State {
    fn default() -> (r: Self)
        ensures
            r@ == StateView::Idle,
    {
        State::Idle
    }
}

/// The per-chat session: conversation history, active-role label, and
/// dialogue state.
pub struct Session {
    history: Vec<Message>,
    active_role: String,
    dialogue: State,
}

/// The mathematical value of a [`Session`].
pub ghost struct SessionView {
    pub history: Seq<MessageView>,
    pub active_role: Seq<char>,
    pub dialogue: StateView,
}

/// A well-formed session history is never empty and starts with the System
/// message of the active persona.
pub open spec fn session_wf(s: SessionView) -> bool {
    &&& s.history.len() >= 1
    &&& s.history[0].role == MsgRole::System
}

impl View for Session {
    type V = SessionView;

    closed spec fn view(&self) -> SessionView {
        SessionView {
            history: msgs_view(self.history@),
            active_role: self.active_role@,
            dialogue: self.dialogue@,
        }
    }
}

impl Session {
    pub open spec fn wf(self) -> bool {
        session_wf(self@)
    }

    /// A fresh session: a single System message derived from `system_text`,
    /// with `active_role` as the active-role label, and an idle dialogue.
    pub fn new(active_role: String, system_text: &str) -> (s: Session)
        ensures
            s.wf(),
            s@.history == seq![msg_view(MsgRole::System, system_text@)],
            s@.active_role == active_role@,
            s@.dialogue == StateView::Idle,
    {
        let mut history: Vec<Message> = Vec::new();
        history.push(mk_message(MsgRole::System, system_text));
        let s = Session { history, active_role, dialogue: State::Idle };
        proof {
            assert(s@.history =~= seq![msg_view(MsgRole::System, system_text@)]);
        }
        s
    }

    pub fn history_len(&self) -> (n: usize)
        ensures
            n == self@.history.len(),
    {
        self.history.len()
    }

    /// The message at position `i` of the history.
    pub fn message_at(&self, i: usize) -> (m: &Message)
        requires
            i < self@.history.len(),
        ensures
            m@ == self@.history[i as int],
    {
        &self.history[i]
    }

    /// The label of the role whose System message seeded the history.
    pub fn active_role(&self) -> (r: &String)
        ensures
            r@ == self@.active_role,
    {
        &self.active_role
    }

    /// The dialogue state of the role-creation flow.
    pub fn dialogue(&self) -> (r: &State)
        ensures
            r@ == self@.dialogue,
    {
        &self.dialogue
    }

    pub fn set_dialogue(&mut self, st: State)
        ensures
            final(self)@.dialogue == st@,
            final(self)@.history == old(self)@.history,
            final(self)@.active_role == old(self)@.active_role,
    {
        self.dialogue = st;
    }

    /// Appends a User message to the history.
    pub fn append_user(&mut self, text: &str)
        ensures
            final(self)@.history == old(self)@.history.push(msg_view(MsgRole::User, text@)),
            final(self)@.active_role == old(self)@.active_role,
            final(self)@.dialogue == old(self)@.dialogue,
    {
        self.history.push(mk_message(MsgRole::User, text));
        proof {
            assert(final(self)@.history =~= old(self)@.history.push(
                msg_view(MsgRole::User, text@),
            ));
        }
    }

    /// Appends an Assistant message to the history.
    pub fn append_assistant(&mut self, text: &str)
        ensures
            final(self)@.history == old(self)@.history.push(msg_view(MsgRole::Assistant, text@)),
            final(self)@.active_role == old(self)@.active_role,
            final(self)@.dialogue == old(self)@.dialogue,
    {
        self.history.push(mk_message(MsgRole::Assistant, text));
        proof {
            assert(final(self)@.history =~= old(self)@.history.push(
                msg_view(MsgRole::Assistant, text@),
            ));
        }
    }

    /// Truncates the history back to exactly its first element, the System
    /// message that was active immediately before the call.
    pub fn clear_to_system(&mut self)
        requires
            old(self).wf(),
        ensures
            final(self).wf(),
            final(self)@.history == seq![old(self)@.history[0]],
            final(self)@.active_role == old(self)@.active_role,
            final(self)@.dialogue == old(self)@.dialogue,
    {
        self.history.truncate(1);
        proof {
            assert(final(self)@.history =~= seq![old(self)@.history[0]]);
        }
    }

    /// Replaces the System message with one derived from `persona_text`,
    /// clears the rest of the history, and records `name` as the active
    /// role.
    pub fn set_active_role(&mut self, name: String, persona_text: &str)
        ensures
            final(self).wf(),
            final(self)@.history == seq![msg_view(MsgRole::System, persona_text@)],
            final(self)@.active_role == name@,
            final(self)@.dialogue == old(self)@.dialogue,
    {
        self.history.clear();
        self.history.push(mk_message(MsgRole::System, persona_text));
        self.active_role = name;
        proof {
            assert(final(self)@.history =~= seq![msg_view(MsgRole::System, persona_text@)]);
        }
    }

    /// A consistent copy of the history, for use as a completion-request
    /// payload.
    pub fn snapshot(&self) -> (r: Vec<Message>)
        ensures
            msgs_view(r@) == self@.history,
    {
        let n = self.history.len();
        let mut r: Vec<Message> = Vec::new();
        let mut i: usize = 0;
        while i < n
            invariant
                n == self.history@.len(),
                i <= n,
                r@.len() == i,
                forall|j: int| 0 <= j < i ==> (#[trigger] r@[j])@ == self.history@[j]@,
            decreases n - i,
        {
            r.push(self.history[i].clone());
            i = i + 1;
        }
        proof {
            assert(msgs_view(r@) =~= msgs_view(self.history@));
        }
        r
    }
}

} // verus!
