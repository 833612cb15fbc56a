//! The per-chat state container: sessions keyed by chat identity, created
//! lazily on first contact.  A driver takes a chat's session out, handles
//! one event while holding it exclusively, and puts it back, which
//! serializes all handling within one chat.

use vstd::prelude::*;

verus! {

use crate::session::{Session, SessionView};

/// Sessions keyed by chat identity.
pub struct SessionMap {
    entries: Vec<(i64, Session)>,
}

impl View for SessionMap {
    type V = Seq<(i64, SessionView)>;

    closed spec fn view(&self) -> Self::V {
        self.entries@.map_values(|e: (i64, Session)| (e.0, e.1@))
    }
}

impl SessionMap {
    /// Chat keys are unique and every stored session is well formed.
    pub open spec fn wf(self) -> bool {
        &&& forall|i: int, j: int| 0 <= i < j < self@.len() ==> self@[i].0 != self@[j].0
        &&& forall|i: int|
            0 <= i < self@.len() ==> crate::session::session_wf((#[trigger] self@[i]).1)
    }

    /// Whether the chat already has a session.
    pub open spec fn contains_chat(self, chat_id: i64) -> bool {
        exists|i: int| 0 <= i < self@.len() && (#[trigger] self@[i]).0 == chat_id
    }

    /// The position of the chat's session (meaningful only when
    /// `contains_chat` holds; unique under `wf`).
    pub open spec fn chat_index(self, chat_id: i64) -> int {
        choose|i: int| 0 <= i < self@.len() && (#[trigger] self@[i]).0 == chat_id
    }

    /// The stored session of the chat.
    pub open spec fn spec_session(self, chat_id: i64) -> SessionView {
        self@[self.chat_index(chat_id)].1
    }

    /// An empty container.
    pub fn new() -> (m: SessionMap)
        ensures
            m@ == Seq::<(i64, SessionView)>::empty(),
            m.wf(),
    {
        let m = SessionMap { entries: Vec::new() };
        proof {
            assert(m@ =~= Seq::<(i64, SessionView)>::empty());
        }
        m
    }

    pub fn len(&self) -> (n: usize)
        ensures
            n == self@.len(),
    {
        self.entries.len()
    }

    fn find(&self, chat_id: i64) -> (r: Option<usize>)
        requires
            self.wf(),
        ensures
            r matches Some(i) ==> self.contains_chat(chat_id) && i < self@.len()
                && self@[i as int].0 == chat_id && i == self.chat_index(chat_id),
            r is None ==> !self.contains_chat(chat_id),
    {
        let n = self.entries.len();
        let mut i: usize = 0;
        while i < n
            invariant
                self.wf(),
                n == self@.len(),
                i <= n,
                forall|j: int| 0 <= j < i ==> (#[trigger] self@[j]).0 != chat_id,
            decreases n - i,
        {
            if self.entries[i].0 == chat_id {
                proof {
                    assert(self@[i as int].0 == chat_id);
                    let k = self.chat_index(chat_id);
                    assert(0 <= k < self@.len() && self@[k].0 == chat_id);
                    if k != i {
                        assert(self@[k].0 != self@[i as int].0);
                    }
                }
                return Some(i);
            }
            i = i + 1;
        }
        None
    }

    /// Whether the chat already has a session.
    pub fn contains(&self, chat_id: i64) -> (r: bool)
        requires
            self.wf(),
        ensures
            r == self.contains_chat(chat_id),
    {
        match self.find(chat_id) {
            Some(_) => true,
            None => false,
        }
    }

    /// Takes the chat's session out for exclusive handling, if it has one.
    pub fn take(&mut self, chat_id: i64) -> (r: Option<Session>)
        requires
            old(self).wf(),
        ensures
            final(self).wf(),
            r matches Some(s) ==> old(self).contains_chat(chat_id) && s@ == old(self).spec_session(
                chat_id,
            ) && s.wf() && final(self)@ == old(self)@.remove(old(self).chat_index(chat_id))
                && !final(self).contains_chat(chat_id),
            r is None ==> !old(self).contains_chat(chat_id) && final(self)@ == old(self)@,
    {
        match self.find(chat_id) {
            Some(i) => {
                let ghost k = old(self).chat_index(chat_id);
                let e = self.entries.remove(i);
                proof {
                    assert(final(self)@ =~= old(self)@.remove(k));
                    assert forall|p: int|
                        0 <= p < final(self)@.len() implies (#[trigger] final(self)@[p]).0
                        != chat_id by {
                        if p < k {
                            assert(final(self)@[p] == old(self)@[p]);
                            assert(old(self)@[p].0 != old(self)@[k].0);
                        } else {
                            assert(final(self)@[p] == old(self)@[p + 1]);
                            assert(old(self)@[p + 1].0 != old(self)@[k].0);
                        }
                    }
                }
                Some(e.1)
            },
            None => None,
        }
    }

    /// Stores the session of a chat that has none (a fresh chat, or one
    /// whose session was just taken).
    pub fn put(&mut self, chat_id: i64, session: Session)
        requires
            old(self).wf(),
            !old(self).contains_chat(chat_id),
            session.wf(),
        ensures
            final(self).wf(),
            final(self)@ == old(self)@.push((chat_id, session@)),
            final(self).contains_chat(chat_id),
    {
        let ghost sv = session@;
        self.entries.push((chat_id, session));
        proof {
            assert(final(self)@ =~= old(self)@.push((chat_id, sv)));
            assert(final(self)@[final(self)@.len() - 1].0 == chat_id);
        }
    }
}

} // verus!
