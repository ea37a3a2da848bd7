//! The in-memory registry of sessions.

use vstd::prelude::*;
use crate::error::{Error, ErrorKind};
use crate::message::Message;
use crate::session::{Session, SessionView};

verus! {

/// The store after `s` is written under its id.
pub open spec fn stored(m: Map<Seq<char>, SessionView>, s: SessionView) -> Map<Seq<char>, SessionView> {
    m.insert(s.id, s)
}

/// The session `old` after `msg` was appended at a time no earlier than its
/// last change.
pub open spec fn appended(old: SessionView, new: SessionView, msg: Message) -> bool {
    &&& new.messages == old.messages.push(msg)
    &&& new.updated_at >= old.updated_at
    &&& new == (SessionView { messages: new.messages, updated_at: new.updated_at, ..old })
}

/// Sessions keyed by id. A session's id is never issued twice, also after
/// the session was deleted.
pub struct SessionService {
    sessions: Vec<Session>,
    issued: Vec<String>,
    contents: Ghost<Map<Seq<char>, SessionView>>,
}

impl View for SessionService {
    type V = Map<Seq<char>, SessionView>;

    closed spec fn view(&self) -> Map<Seq<char>, SessionView> {
        self.contents@
    }
}

impl Default for SessionService {
    fn default() -> (r: SessionService)
        ensures
            r.wf(),
            r@ == Map::<Seq<char>, SessionView>::empty(),
    {
        SessionService::new()
    }
}

impl SessionService {
    /// Every id that this store has handed out.
    pub closed spec fn issued_ids(&self) -> Set<Seq<char>> {
        Set::new(|k: Seq<char>| exists|i: int| 0 <= i < self.issued@.len() && #[trigger] self.issued@[i]@ == k)
    }

    /// The store's invariant: the model matches the stored sessions, ids are
    /// unique, and every stored id was issued.
    pub closed spec fn wf(&self) -> bool {
        &&& forall|i: int|
            0 <= i < self.sessions@.len() ==> {
                &&& self.contents@.contains_key(#[trigger] self.sessions@[i].id@)
                &&& self.contents@[self.sessions@[i].id@] == self.sessions@[i]@
                &&& self.issued_ids().contains(self.sessions@[i].id@)
            }
        &&& forall|k: Seq<char>|
            #[trigger] self.contents@.contains_key(k) ==> exists|i: int|
                0 <= i < self.sessions@.len() && #[trigger] self.sessions@[i].id@ == k
        &&& forall|i: int, j: int|
            0 <= i < self.sessions@.len() && 0 <= j < self.sessions@.len() && i != j
                ==> #[trigger] self.sessions@[i].id@ != #[trigger] self.sessions@[j].id@
    }

    /// An empty store.
    pub fn new() -> (r: SessionService)
        ensures
            r.wf(),
            r@ == Map::<Seq<char>, SessionView>::empty(),
            r.issued_ids() == Set::<Seq<char>>::empty(),
    {
        let r = SessionService { sessions: Vec::new(), issued: Vec::new(), contents: Ghost(Map::empty()) };
        proof {
            assert(r.issued_ids() =~= Set::<Seq<char>>::empty());
        }
        r
    }

    /// The position of the stored session with id `id`, if any.
    fn position(&self, id: &str) -> (r: Option<usize>)
        requires
            self.wf(),
        ensures
            r is Some <==> self@.contains_key(id@),
            r is Some ==> r->Some_0 < self.sessions@.len() && self.sessions@[r->Some_0 as int].id@ == id@,
    {
        let k = id.to_string();
        let n = self.sessions.len();
        let mut i: usize = 0;
        while i < n
            invariant
                self.wf(),
                k@ == id@,
                n == self.sessions@.len(),
                i <= n,
                forall|j: int| 0 <= j < i ==> #[trigger] self.sessions@[j].id@ != id@,
            decreases n - i,
        {
            if self.sessions[i].id == k {
                return Some(i);
            }
            i = i + 1;
        }
        None
    }

    /// Whether `id` was ever issued by this store.
    fn was_issued(&self, id: &String) -> (r: bool)
        ensures
            r == self.issued_ids().contains(id@),
    {
        let n = self.issued.len();
        let mut i: usize = 0;
        while i < n
            invariant
                n == self.issued@.len(),
                i <= n,
                forall|j: int| 0 <= j < i ==> #[trigger] self.issued@[j]@ != id@,
            decreases n - i,
        {
            if self.issued[i] == *id {
                return true;
            }
            i = i + 1;
        }
        false
    }

    /// `candidate` where it is not empty and was never issued; otherwise
    /// `candidate` followed by enough `-` to be longer than every issued id.
    fn fresh_id(&self, candidate: String) -> (r: String)
        ensures
            !self.issued_ids().contains(r@),
            r@.len() > 0,
            (candidate@.len() > 0 && !self.issued_ids().contains(candidate@)) ==> r@ == candidate@,
    {
        if candidate.as_str().unicode_len() > 0 && !self.was_issued(&candidate) {
            return candidate;
        }
        let n = self.issued.len();
        let mut longest: usize = 0;
        let mut i: usize = 0;
        while i < n
            invariant
                n == self.issued@.len(),
                i <= n,
                forall|j: int| 0 <= j < i ==> #[trigger] self.issued@[j]@.len() <= longest,
            decreases n - i,
        {
            let l = self.issued[i].as_str().unicode_len();
            if l > longest {
                longest = l;
            }
            i = i + 1;
        }
        let mut id = candidate;
        proof {
            reveal_strlit("-");
        }
        while id.as_str().unicode_len() <= longest
            invariant
                forall|j: int| 0 <= j < n ==> #[trigger] self.issued@[j]@.len() <= longest,
                n == self.issued@.len(),
                "-"@.len() == 1,
            decreases longest + 1 - id@.len(),
        {
            id.append("-");
        }
        id
    }
    /// Stores a new session, with a leading system message where
    /// `system_prompt` is given, under an id that was never issued before.
    pub fn create(&mut self, system_prompt: Option<String>) -> (r: Session)
        requires
            old(self).wf(),
        ensures
            final(self).wf(),
            r.id@.len() > 0,
            !old(self).issued_ids().contains(r.id@),
            !old(self)@.contains_key(r.id@),
            final(self)@ == stored(old(self)@, r@),
            final(self).issued_ids() == old(self).issued_ids().insert(r.id@),
            r.wf(),
            r.created_at == r.updated_at,
            r.acp_session_id is None,
            r.title is None,
            r.metadata@ == Map::<Seq<char>, serde_json::Value>::empty(),
            system_prompt is None ==> r.system_prompt is None && r.messages@.len() == 0,
            system_prompt is Some ==> {
                &&& r.system_prompt is Some
                &&& r.system_prompt->Some_0@ == system_prompt->Some_0@
                &&& r.messages@.len() == 1
                &&& r.messages@[0].role == crate::message::Role::System
                &&& r.messages@[0].content@ == system_prompt->Some_0@
            },
    {
        let mut session = match system_prompt {
            Some(p) => Session::with_system_prompt(p.as_str()),
            None => Session::new(),
        };
        let candidate = session.id.clone();
        session.id = self.fresh_id(candidate);
        let copy = session.clone();
        let ghost old_issued = self.issued_ids();
        let ghost id = session.id@;
        self.issued.push(session.id.clone());
        proof {
            assert(self.issued@.last()@ == id);
            assert forall|k: Seq<char>| old_issued.insert(id).contains(k) implies self.issued_ids().contains(k) by {
                if k == id {
                    assert(self.issued@[self.issued@.len() - 1]@ == k);
                } else {
                    let i = choose|i: int| 0 <= i < old(self).issued@.len() && #[trigger] old(self).issued@[i]@ == k;
                    assert(self.issued@[i] == old(self).issued@[i]);
                }
            }
            assert forall|k: Seq<char>| self.issued_ids().contains(k) implies old_issued.insert(id).contains(k) by {
                let i = choose|i: int| 0 <= i < self.issued@.len() && #[trigger] self.issued@[i]@ == k;
                if i < old(self).issued@.len() {
                    assert(self.issued@[i] == old(self).issued@[i]);
                }
            }
            assert(self.issued_ids() =~= old_issued.insert(id));
        }
        self.sessions.push(session);
        self.contents = Ghost(self.contents@.insert(id, copy@));
        proof {
            let n = self.sessions@.len() - 1;
            assert forall|i: int| 0 <= i < n implies #[trigger] self.sessions@[i].id@ != id by {
                assert(self.sessions@[i] == old(self).sessions@[i]);
                assert(old_issued.contains(old(self).sessions@[i].id@));
            }
            assert forall|k: Seq<char>| #[trigger] self.contents@.contains_key(k) implies exists|i: int|
                0 <= i < self.sessions@.len() && #[trigger] self.sessions@[i].id@ == k by {
                if k == id {
                    assert(self.sessions@[n].id@ == k);
                } else {
                    let i = choose|i: int| 0 <= i < old(self).sessions@.len() && #[trigger] old(self).sessions@[i].id@ == k;
                    assert(self.sessions@[i] == old(self).sessions@[i]);
                }
            }
            assert forall|i: int| 0 <= i < self.sessions@.len() implies {
                &&& self.contents@.contains_key(#[trigger] self.sessions@[i].id@)
                &&& self.contents@[self.sessions@[i].id@] == self.sessions@[i]@
                &&& self.issued_ids().contains(self.sessions@[i].id@)
            } by {
                if i < n {
                    assert(self.sessions@[i] == old(self).sessions@[i]);
                }
            }
        }
        copy
    }

    /// Stores a new session as `create` does, then sets its title.
    pub fn create_with_title(&mut self, title: &str, system_prompt: Option<String>) -> (r: Session)
        requires
            old(self).wf(),
        ensures
            final(self).wf(),
            r.id@.len() > 0,
            !old(self).issued_ids().contains(r.id@),
            !old(self)@.contains_key(r.id@),
            final(self)@ == stored(old(self)@, r@),
            final(self).issued_ids() == old(self).issued_ids().insert(r.id@),
            r.title is Some && r.title->Some_0@ == title@,
            system_prompt is None ==> r.system_prompt is None && r.messages@.len() == 0,
            system_prompt is Some ==> r.system_prompt is Some && r.system_prompt->Some_0@
                == system_prompt->Some_0@,
    {
        let mut session = self.create(system_prompt);
        session.title = Some(title.to_string());
        let copy = session.clone();
        let _ = self.update(session);
        proof {
            assert(stored(stored(old(self)@, copy@), copy@) =~= stored(old(self)@, copy@));
        }
        copy
    }

    /// The session stored under `id`.
    pub fn get(&self, id: &str) -> (r: crate::Result<Session>)
        requires
            self.wf(),
        ensures
            r is Ok <==> self@.contains_key(id@),
            r is Ok ==> r->Ok_0@ == self@[id@],
            r is Err ==> r->Err_0.is(ErrorKind::SessionNotFound, id@),
    {
        match self.position(id) {
            Some(i) => Ok(self.sessions[i].clone()),
            None => Err(Error::session_not_found(id)),
        }
    }

    /// Replaces the session stored under `session`'s id; there must be one.
    pub fn update(&mut self, session: Session) -> (r: crate::Result<()>)
        requires
            old(self).wf(),
        ensures
            final(self).wf(),
            final(self).issued_ids() == old(self).issued_ids(),
            r is Ok <==> old(self)@.contains_key(session.id@),
            r is Ok ==> final(self)@ == stored(old(self)@, session@),
            r is Err ==> final(self)@ == old(self)@ && r->Err_0.is(ErrorKind::SessionNotFound, session.id@),
    {
        match self.position(session.id.as_str()) {
            Some(i) => {
                let ghost v = session@;
                self.sessions.set(i, session);
                self.contents = Ghost(self.contents@.insert(v.id, v));
                proof {
                    assert forall|j: int| 0 <= j < self.sessions@.len() && j != i implies
                        #[trigger] self.sessions@[j] == old(self).sessions@[j] by {}
                    assert forall|k: Seq<char>| #[trigger] self.contents@.contains_key(k) implies exists|j: int|
                        0 <= j < self.sessions@.len() && #[trigger] self.sessions@[j].id@ == k by {
                        if k != v.id {
                            let j = choose|j: int| 0 <= j < old(self).sessions@.len() && #[trigger] old(self).sessions@[j].id@ == k;
                            assert(self.sessions@[j] == old(self).sessions@[j]);
                        } else {
                            assert(self.sessions@[i as int].id@ == k);
                        }
                    }
                    assert forall|j: int| 0 <= j < self.sessions@.len() implies {
                        &&& self.contents@.contains_key(#[trigger] self.sessions@[j].id@)
                        &&& self.contents@[self.sessions@[j].id@] == self.sessions@[j]@
                        &&& self.issued_ids().contains(self.sessions@[j].id@)
                    } by {
                        if j != i {
                            assert(self.sessions@[j] == old(self).sessions@[j]);
                        }
                    }
                    assert(self.issued_ids() =~= old(self).issued_ids());
                }
                Ok(())
            },
            None => Err(Error::session_not_found(session.id.as_str())),
        }
    }

    /// Removes the session stored under `id` and hands it back.
    pub fn delete(&mut self, id: &str) -> (r: crate::Result<Session>)
        requires
            old(self).wf(),
        ensures
            final(self).wf(),
            final(self).issued_ids() == old(self).issued_ids(),
            r is Ok <==> old(self)@.contains_key(id@),
            r is Ok ==> r->Ok_0@ == old(self)@[id@] && final(self)@ == old(self)@.remove(id@),
            r is Err ==> final(self)@ == old(self)@ && r->Err_0.is(ErrorKind::SessionNotFound, id@),
    {
        match self.position(id) {
            Some(i) => {
                let s = self.sessions.remove(i);
                self.contents = Ghost(self.contents@.remove(id@));
                proof {
                    assert forall|j: int| 0 <= j < self.sessions@.len() implies
                        #[trigger] self.sessions@[j] == old(self).sessions@[if j < i { j } else { j + 1 }] by {}
                    assert forall|k: Seq<char>| #[trigger] self.contents@.contains_key(k) implies exists|j: int|
                        0 <= j < self.sessions@.len() && #[trigger] self.sessions@[j].id@ == k by {
                        let j = choose|j: int| 0 <= j < old(self).sessions@.len() && #[trigger] old(self).sessions@[j].id@ == k;
                        assert(j != i);
                        if j < i {
                            assert(self.sessions@[j] == old(self).sessions@[j]);
                        } else {
                            assert(self.sessions@[j - 1] == old(self).sessions@[j]);
                        }
                    }
                    assert forall|j: int| 0 <= j < self.sessions@.len() implies {
                        &&& self.contents@.contains_key(#[trigger] self.sessions@[j].id@)
                        &&& self.contents@[self.sessions@[j].id@] == self.sessions@[j]@
                        &&& self.issued_ids().contains(self.sessions@[j].id@)
                    } by {
                        let o = if j < i { j } else { j + 1 };
                        assert(self.sessions@[j] == old(self).sessions@[o]);
                        assert(o != i);
                    }
                    assert forall|a: int, b: int|
                        0 <= a < self.sessions@.len() && 0 <= b < self.sessions@.len() && a != b
                            implies #[trigger] self.sessions@[a].id@ != #[trigger] self.sessions@[b].id@ by {
                        let oa = if a < i { a } else { a + 1 };
                        let ob = if b < i { b } else { b + 1 };
                        assert(self.sessions@[a] == old(self).sessions@[oa]);
                        assert(self.sessions@[b] == old(self).sessions@[ob]);
                    }
                    assert(self.issued_ids() =~= old(self).issued_ids());
                }
                Ok(s)
            },
            None => Err(Error::session_not_found(id)),
        }
    }

    /// A copy of every stored session, each once.
    pub fn list(&self) -> (r: Vec<Session>)
        requires
            self.wf(),
        ensures
            r@.len() == self@.len(),
            forall|i: int| 0 <= i < r@.len() ==> self@.contains_key(#[trigger] r@[i].id@) && self@[r@[i].id@] == r@[i]@,
            forall|i: int, j: int| 0 <= i < r@.len() && 0 <= j < r@.len() && i != j ==> #[trigger] r@[i].id@ != #[trigger] r@[j].id@,
    {
        let mut out: Vec<Session> = Vec::new();
        let n = self.sessions.len();
        let mut i: usize = 0;
        while i < n
            invariant
                self.wf(),
                n == self.sessions@.len(),
                i <= n,
                out@.len() == i,
                forall|j: int| 0 <= j < i ==> #[trigger] out@[j]@ == self.sessions@[j]@,
            decreases n - i,
        {
            out.push(self.sessions[i].clone());
            i = i + 1;
        }
        proof {
            self.lemma_len();
            assert forall|a: int, b: int| 0 <= a < out@.len() && 0 <= b < out@.len() && a != b
                implies #[trigger] out@[a].id@ != #[trigger] out@[b].id@ by {
                assert(out@[a]@ == self.sessions@[a]@);
                assert(out@[b]@ == self.sessions@[b]@);
            }
            assert forall|j: int| 0 <= j < out@.len() implies self@.contains_key(#[trigger] out@[j].id@)
                && self@[out@[j].id@] == out@[j]@ by {
                assert(out@[j]@ == self.sessions@[j]@);
            }
        }
        out
    }

    /// The model has one key per stored session.
    proof fn lemma_len(&self)
        requires
            self.wf(),
        ensures
            self@.len() == self.sessions@.len(),
            self@.dom().finite(),
    {
        let ids = Seq::new(self.sessions@.len(), |i: int| self.sessions@[i].id@);
        assert forall|k: Seq<char>| self@.dom().contains(k) implies ids.to_set().contains(k) by {
            let i = choose|i: int| 0 <= i < self.sessions@.len() && #[trigger] self.sessions@[i].id@ == k;
            assert(ids[i] == k);
        }
        assert forall|k: Seq<char>| ids.to_set().contains(k) implies self@.dom().contains(k) by {
            let i = choose|i: int| 0 <= i < ids.len() && ids[i] == k;
            assert(self.sessions@[i].id@ == k);
        }
        assert(self@.dom() =~= ids.to_set());
        assert(ids.no_duplicates()) by {
            assert forall|a: int, b: int| 0 <= a < ids.len() && 0 <= b < ids.len() && a != b
                implies ids[a] != ids[b] by {
                assert(self.sessions@[a].id@ != self.sessions@[b].id@);
            }
        }
        ids.unique_seq_to_set();
    }

    /// Appends `message` to the session stored under `session_id` and moves
    /// its `updated_at` forward.
    pub fn add_message(&mut self, session_id: &str, message: Message) -> (r: crate::Result<()>)
        requires
            old(self).wf(),
        ensures
            final(self).wf(),
            final(self).issued_ids() == old(self).issued_ids(),
            r is Ok <==> old(self)@.contains_key(session_id@),
            r is Ok ==> final(self)@.dom() == old(self)@.dom() && final(self)@ == stored(old(self)@, final(self)@[session_id@])
                && appended(old(self)@[session_id@], final(self)@[session_id@], message),
            r is Err ==> final(self)@ == old(self)@ && r->Err_0.is(ErrorKind::SessionNotFound, session_id@),
    {
        match self.position(session_id) {
            Some(i) => {
                let mut s = self.sessions[i].clone();
                s.add_message(message);
                let ghost v = s@;
                let res = self.update(s);
                proof {
                    assert(final(self)@[session_id@] == v);
                    assert(final(self)@.dom() =~= old(self)@.dom());
                }
                res
            },
            None => Err(Error::session_not_found(session_id)),
        }
    }

    /// The session stored under `id`; where there is none, a new session
    /// under a new id, which need not be `id`.
    pub fn get_or_create(&mut self, id: &str) -> (r: Session)
        requires
            old(self).wf(),
        ensures
            final(self).wf(),
            old(self)@.contains_key(id@) ==> r@ == old(self)@[id@] && final(self)@ == old(self)@,
            !old(self)@.contains_key(id@) ==> {
                &&& !old(self).issued_ids().contains(r.id@)
                &&& final(self)@ == stored(old(self)@, r@)
                &&& r.messages@.len() == 0
            },
    {
        match self.get(id) {
            Ok(s) => s,
            Err(_) => self.create(None),
        }
    }

    /// Whether a session is stored under `id`.
    pub fn contains(&self, id: &str) -> (r: bool)
        requires
            self.wf(),
        ensures
            r == self@.contains_key(id@),
    {
        self.position(id).is_some()
    }

    /// The number of stored sessions.
    pub fn count(&self) -> (r: usize)
        requires
            self.wf(),
        ensures
            r == self@.len(),
    {
        proof {
            self.lemma_len();
        }
        self.sessions.len()
    }

    /// Removes every session. Their ids stay issued.
    pub fn clear(&mut self)
        requires
            old(self).wf(),
        ensures
            final(self).wf(),
            final(self)@ == Map::<Seq<char>, SessionView>::empty(),
            final(self).issued_ids() == old(self).issued_ids(),
    {
        self.sessions = Vec::new();
        self.contents = Ghost(Map::empty());
        proof {
            assert(self.issued_ids() =~= old(self).issued_ids());
        }
    }
}

/// Round trip on one id: after a session is created, an update under its id
/// succeeds, and a read of that id gives back exactly what the update wrote;
/// every other id keeps what it held.
pub proof fn create_update_get_round_trip(
    m: Map<Seq<char>, SessionView>,
    created: SessionView,
    written: SessionView,
)
    requires
        !m.contains_key(created.id),
        written.id == created.id,
    ensures
        ({
            let after_create = stored(m, created);
            let after_update = stored(after_create, written);
            &&& after_create.contains_key(written.id)
            &&& after_update.contains_key(written.id)
            &&& after_update[written.id] == written
            &&& forall|k: Seq<char>| k != written.id ==> (#[trigger] after_update.contains_key(k)
                <==> m.contains_key(k))
            &&& forall|k: Seq<char>| k != written.id && m.contains_key(k) ==> #[trigger] after_update[k] == m[k]
        }),
{
}

} // verus!
