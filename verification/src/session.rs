//! The session store: an associative store from session identifier to
//! session state. Reads hand out snapshot copies, never live references,
//! and every mutation is a whole-value replacement, so a caller can apply
//! a read-modify-write transaction as one `create_or_replace`. The
//! serialization of concurrent writers (a read/write lock in the reference
//! deployment) wraps this store outside the verified core.

use vstd::hash_map::HashMapWithView;
use vstd::prelude::*;

use crate::models::Challenge;
use crate::models::ChallengeModel;
use crate::models::Message;
use crate::models::MessageModel;
use crate::models::SessionModel;
use crate::models::SessionState;
use crate::models::TeachingPhase;

verus! {

broadcast use vstd::std_specs::hash::group_hash_axioms;

/// The in-memory store of all sessions, keyed by session identifier.
pub struct SessionStore {
    m: HashMapWithView<u128, SessionState>,
}

impl View for SessionStore {
    type V = Map<u128, SessionState>;

    closed spec fn view(&self) -> Map<u128, SessionState> {
        self.m@
    }
}

/// `s` with one message appended to its conversation history.
pub open spec fn with_message(s: SessionModel, m: MessageModel) -> SessionModel {
    SessionModel { conversation_history: s.conversation_history.push(m), ..s }
}

/// `s` with one submitted code text appended to its code history.
pub open spec fn with_code(s: SessionModel, code: Seq<char>) -> SessionModel {
    SessionModel { code_history: s.code_history.push(code), ..s }
}

/// `s` with its teaching phase replaced.
pub open spec fn with_phase(s: SessionModel, p: TeachingPhase) -> SessionModel {
    SessionModel { teaching_phase: p, ..s }
}

/// `s` with its current challenge replaced.
pub open spec fn with_challenge(s: SessionModel, c: Option<ChallengeModel>) -> SessionModel {
    SessionModel { current_challenge: c, ..s }
}

/// The store changed at key `id` alone, whose new state models `s_new`;
/// every other entry is untouched.
pub open spec fn updated_at(
    old_m: Map<u128, SessionState>,
    new_m: Map<u128, SessionState>,
    id: u128,
    s_new: SessionModel,
) -> bool {
    &&& new_m.dom() == old_m.dom()
    &&& new_m.contains_key(id)
    &&& new_m[id]@ == s_new
    &&& forall|k: u128| new_m.contains_key(k) && k != id ==> new_m[k] == old_m[k]
}

impl SessionStore {
    /// An empty store.
    pub fn new() -> (r: SessionStore)
        ensures
            r@ == Map::<u128, SessionState>::empty(),
    {
        SessionStore { m: HashMapWithView::new() }
    }

    /// Creates the entry for `s.session_id`, replacing any previous one.
    pub fn create_or_replace(&mut self, s: SessionState)
        ensures
            final(self)@ == old(self)@.insert(s.session_id, s),
    {
        let id = s.session_id;
        self.m.insert(id, s);
    }

    /// A snapshot copy of the session with identifier `id`, if present.
    /// The copy is detached: later store mutations do not affect it.
    pub fn get(&self, id: u128) -> (r: Option<SessionState>)
        ensures
            match r {
                Some(s) => self@.contains_key(id) && s@ == self@[id]@,
                None => !self@.contains_key(id),
            },
    {
        match self.m.get(&id) {
            Some(s) => Some(s.dup()),
            None => None,
        }
    }

    /// Whether the store holds a session with identifier `id`.
    pub fn contains(&self, id: u128) -> (r: bool)
        ensures
            r == self@.contains_key(id),
    {
        self.m.contains_key(&id)
    }

    /// The number of sessions in the store.
    pub fn len(&self) -> (r: usize)
        ensures
            r == self@.len(),
    {
        self.m.len()
    }

    /// Appends one message to the conversation history of session `id`.
    /// A missing session leaves the store unchanged.
    pub fn append_message(&mut self, id: u128, msg: Message)
        ensures
            !old(self)@.contains_key(id) ==> final(self)@ == old(self)@,
            old(self)@.contains_key(id) ==> updated_at(
                old(self)@,
                final(self)@,
                id,
                with_message(old(self)@[id]@, msg@),
            ),
    {
        match self.m.get(&id) {
            Some(s) => {
                let mut s2 = s.dup();
                s2.conversation_history.push(msg);
                proof {
                    assert(crate::models::messages_view(s2.conversation_history@) =~= old(
                        self,
                    )@[id]@.conversation_history.push(msg@));
                }
                self.m.insert(id, s2);
                proof {
                    assert(self.m@.dom() =~= old(self)@.dom());
                }
            },
            None => {},
        }
    }

    /// Appends one submitted code text to the code history of session
    /// `id`. A missing session leaves the store unchanged.
    pub fn append_code(&mut self, id: u128, code: String)
        ensures
            !old(self)@.contains_key(id) ==> final(self)@ == old(self)@,
            old(self)@.contains_key(id) ==> updated_at(
                old(self)@,
                final(self)@,
                id,
                with_code(old(self)@[id]@, code@),
            ),
    {
        match self.m.get(&id) {
            Some(s) => {
                let mut s2 = s.dup();
                s2.code_history.push(code);
                proof {
                    assert(s2.code_history.deep_view() =~= old(
                        self,
                    )@[id]@.code_history.push(code@));
                }
                self.m.insert(id, s2);
                proof {
                    assert(self.m@.dom() =~= old(self)@.dom());
                }
            },
            None => {},
        }
    }

    /// Replaces the teaching phase of session `id`. A missing session
    /// leaves the store unchanged.
    pub fn replace_phase(&mut self, id: u128, phase: TeachingPhase)
        ensures
            !old(self)@.contains_key(id) ==> final(self)@ == old(self)@,
            old(self)@.contains_key(id) ==> updated_at(
                old(self)@,
                final(self)@,
                id,
                with_phase(old(self)@[id]@, phase),
            ),
    {
        match self.m.get(&id) {
            Some(s) => {
                let mut s2 = s.dup();
                s2.teaching_phase = phase;
                self.m.insert(id, s2);
                proof {
                    assert(self.m@.dom() =~= old(self)@.dom());
                }
            },
            None => {},
        }
    }

    /// Replaces the current challenge of session `id`. A missing session
    /// leaves the store unchanged.
    pub fn replace_challenge(&mut self, id: u128, challenge: Option<Challenge>)
        ensures
            !old(self)@.contains_key(id) ==> final(self)@ == old(self)@,
            old(self)@.contains_key(id) ==> updated_at(
                old(self)@,
                final(self)@,
                id,
                with_challenge(
                    old(self)@[id]@,
                    match challenge {
                        Some(c) => Some(c@),
                        None => None,
                    },
                ),
            ),
    {
        match self.m.get(&id) {
            Some(s) => {
                let mut s2 = s.dup();
                s2.current_challenge = challenge;
                self.m.insert(id, s2);
                proof {
                    assert(self.m@.dom() =~= old(self)@.dom());
                }
            },
            None => {},
        }
    }
}

} // verus!
