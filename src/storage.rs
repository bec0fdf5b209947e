use std::collections::HashMap;
use vstd::std_specs::iter::IteratorSpec;
use crate::json::{decode_records, encode_records, json_of_records, records_of_json};
use vstd::prelude::*;

verus! {

broadcast use vstd::std_specs::hash::group_hash_axioms;

/// Why an operation on the session index was refused.
#[derive(Debug, Clone, Copy, PartialEq, Eq, Structural)]
pub enum SessionError {
    /// The user already has an open session, or the channel already serves one.
    AlreadyExists,
    /// The channel is not associated with any session.
    NotFound,
}

/// Why a snapshot could not be written.
#[derive(Debug, Clone, Copy, PartialEq, Eq, Structural)]
pub enum SnapshotError {
    /// The records could not be encoded as JSON.
    Encoding,
}

/// The abstract state of the index: the channel of each user with an open
/// session, and the user behind each such channel.
pub struct Sessions {
    pub channel_of: Map<u64, u64>,
    pub user_of: Map<u64, u64>,
}

impl Sessions {
    /// No sessions at all.
    pub open spec fn empty() -> Sessions {
        Sessions { channel_of: Map::empty(), user_of: Map::empty() }
    }

    /// The two directions are inverse to each other: a bijection between the
    /// users and the channels of open sessions.
    pub open spec fn wf(self) -> bool {
        &&& forall|u: u64| #[trigger]
            self.channel_of.contains_key(u) ==> self.user_of.contains_key(self.channel_of[u])
                && self.user_of[self.channel_of[u]] == u
        &&& forall|c: u64| #[trigger]
            self.user_of.contains_key(c) ==> self.channel_of.contains_key(self.user_of[c])
                && self.channel_of[self.user_of[c]] == c
    }

    /// The channel of `user`'s open session, if any.
    pub open spec fn lookup_channel(self, user: u64) -> Option<u64> {
        if self.channel_of.contains_key(user) {
            Some(self.channel_of[user])
        } else {
            None
        }
    }

    /// The user whose session `channel` holds, if any.
    pub open spec fn lookup_user(self, channel: u64) -> Option<u64> {
        if self.user_of.contains_key(channel) {
            Some(self.user_of[channel])
        } else {
            None
        }
    }

    /// Opens a session between `user` and `channel`, unless either of them
    /// already takes part in one.
    pub open spec fn create(self, user: u64, channel: u64) -> Result<Sessions, SessionError> {
        if self.channel_of.contains_key(user) || self.user_of.contains_key(channel) {
            Err(SessionError::AlreadyExists)
        } else {
            Ok(
                Sessions {
                    channel_of: self.channel_of.insert(user, channel),
                    user_of: self.user_of.insert(channel, user),
                },
            )
        }
    }

    /// The sessions that do not name `id`, neither as user nor as channel.
    pub open spec fn without_identity(self, id: u64) -> Sessions {
        let s = match self.lookup_channel(id) {
            Some(channel) => self.close(channel)->Ok_0.0,
            None => self,
        };
        match s.lookup_user(id) {
            Some(_) => s.close(id)->Ok_0.0,
            None => s,
        }
    }

    /// Closes the session held in `channel`, giving the state after it and
    /// the user that was freed.
    pub open spec fn close(self, channel: u64) -> Result<(Sessions, u64), SessionError> {
        if self.user_of.contains_key(channel) {
            let user = self.user_of[channel];
            Ok(
                (
                    Sessions {
                        channel_of: self.channel_of.remove(user),
                        user_of: self.user_of.remove(channel),
                    },
                    user,
                ),
            )
        } else {
            Err(SessionError::NotFound)
        }
    }
}

/// Snapshot records, one `(user, channel)` pair per session, with no user and
/// no channel named twice.
pub open spec fn distinct_records(p: Seq<(u64, u64)>) -> bool {
    forall|i: int, j: int|
        0 <= i < j < p.len() ==> (#[trigger] p[i]).0 != (#[trigger] p[j]).0 && p[i].1 != p[j].1
}

/// The sessions that a list of snapshot records describes.
pub open spec fn sessions_of(p: Seq<(u64, u64)>) -> Sessions
    decreases p.len(),
{
    if p.len() == 0 {
        Sessions::empty()
    } else {
        let rest = sessions_of(p.drop_last());
        Sessions {
            channel_of: rest.channel_of.insert(p.last().0, p.last().1),
            user_of: rest.user_of.insert(p.last().1, p.last().0),
        }
    }
}

/// What a snapshot loads as: the sessions it describes, or none at all when
/// its records name a user or a channel twice.
pub open spec fn loaded(p: Seq<(u64, u64)>) -> Sessions {
    if distinct_records(p) {
        sessions_of(p)
    } else {
        Sessions::empty()
    }
}

/// The users and channels that records describe are exactly those they name,
/// and, where no name repeats, each record is a session of the result.
proof fn lemma_sessions_of(p: Seq<(u64, u64)>)
    ensures
        forall|u: u64|
            sessions_of(p).channel_of.contains_key(u) <==> exists|j: int|
                0 <= j < p.len() && (#[trigger] p[j]).0 == u,
        forall|c: u64|
            sessions_of(p).user_of.contains_key(c) <==> exists|j: int|
                0 <= j < p.len() && (#[trigger] p[j]).1 == c,
        distinct_records(p) ==> forall|j: int|
            0 <= j < p.len() ==> sessions_of(p).channel_of[(#[trigger] p[j]).0] == p[j].1
                && sessions_of(p).user_of[p[j].1] == p[j].0,
        distinct_records(p) ==> sessions_of(p).wf(),
    decreases p.len(),
{
    if p.len() > 0 {
        let q = p.drop_last();
        lemma_sessions_of(q);
        assert forall|u: u64|
            sessions_of(p).channel_of.contains_key(u) <==> exists|j: int|
                0 <= j < p.len() && (#[trigger] p[j]).0 == u by {
            if sessions_of(q).channel_of.contains_key(u) {
                let j = choose|j: int| 0 <= j < q.len() && (#[trigger] q[j]).0 == u;
                assert(p[j] == q[j]);
            }
            if exists|j: int| 0 <= j < p.len() && (#[trigger] p[j]).0 == u {
                let j = choose|j: int| 0 <= j < p.len() && (#[trigger] p[j]).0 == u;
                if j < q.len() {
                    assert(p[j] == q[j]);
                }
            }
        }
        assert forall|c: u64|
            sessions_of(p).user_of.contains_key(c) <==> exists|j: int|
                0 <= j < p.len() && (#[trigger] p[j]).1 == c by {
            if sessions_of(q).user_of.contains_key(c) {
                let j = choose|j: int| 0 <= j < q.len() && (#[trigger] q[j]).1 == c;
                assert(p[j] == q[j]);
            }
            if exists|j: int| 0 <= j < p.len() && (#[trigger] p[j]).1 == c {
                let j = choose|j: int| 0 <= j < p.len() && (#[trigger] p[j]).1 == c;
                if j < q.len() {
                    assert(p[j] == q[j]);
                }
            }
        }
        if distinct_records(p) {
            assert(distinct_records(q)) by {
                assert forall|i: int, j: int| 0 <= i < j < q.len() implies (#[trigger] q[i]).0
                    != (#[trigger] q[j]).0 && q[i].1 != q[j].1 by {
                    assert(p[i] == q[i] && p[j] == q[j]);
                }
            }
            let last = p.last();
            assert(!sessions_of(q).channel_of.contains_key(last.0)) by {
                if sessions_of(q).channel_of.contains_key(last.0) {
                    let j = choose|j: int| 0 <= j < q.len() && (#[trigger] q[j]).0 == last.0;
                    assert(p[j] == q[j]);
                    assert(p[j].0 == p[p.len() - 1].0);
                }
            }
            assert(!sessions_of(q).user_of.contains_key(last.1)) by {
                if sessions_of(q).user_of.contains_key(last.1) {
                    let j = choose|j: int| 0 <= j < q.len() && (#[trigger] q[j]).1 == last.1;
                    assert(p[j] == q[j]);
                    assert(p[j].1 == p[p.len() - 1].1);
                }
            }
            assert forall|j: int| 0 <= j < p.len() implies sessions_of(p).channel_of[(
            #[trigger] p[j]).0] == p[j].1 && sessions_of(p).user_of[p[j].1] == p[j].0 by {
                if j < q.len() {
                    assert(p[j] == q[j]);
                    assert(p[j].0 != last.0 && p[j].1 != last.1);
                }
            }
        }
    }
}

/// The session index: user to channel and channel to user.
pub struct Storage {
    channel_for_user: HashMap<u64, u64>,
    user_for_channel: HashMap<u64, u64>,
}

impl View for Storage {
    type V = Sessions;

    closed spec fn view(&self) -> Sessions {
        Sessions { channel_of: self.channel_for_user@, user_of: self.user_for_channel@ }
    }
}

impl Storage {
    /// An index without sessions.
    pub fn new() -> (r: Storage)
        ensures
            r@ == Sessions::empty(),
            r@.wf(),
    {
        Storage { channel_for_user: HashMap::new(), user_for_channel: HashMap::new() }
    }

    /// The user whose session is held in `channel`.
    pub fn get_user(&self, channel: &u64) -> (r: Option<&u64>)
        ensures
            match r {
                Some(u) => self@.lookup_user(*channel) == Some(*u),
                None => self@.lookup_user(*channel) is None,
            },
    {
        self.user_for_channel.get(channel)
    }

    /// The channel that holds the session of `user`.
    pub fn get_channel(&self, user: &u64) -> (r: Option<&u64>)
        ensures
            match r {
                Some(c) => self@.lookup_channel(*user) == Some(*c),
                None => self@.lookup_channel(*user) is None,
            },
    {
        self.channel_for_user.get(user)
    }

    /// Opens a session between `user` and `channel`. Refused with
    /// `AlreadyExists`, and nothing changed, when the user already has a
    /// session or the channel already holds one.
    pub fn insert_user_channel(&mut self, user: u64, channel: u64) -> (r: Result<(), SessionError>)
        requires
            old(self)@.wf(),
        ensures
            final(self)@.wf(),
            match old(self)@.create(user, channel) {
                Ok(s) => r is Ok && final(self)@ == s,
                Err(e) => r == Err::<(), SessionError>(e) && final(self)@ == old(self)@,
            },
    {
        if self.channel_for_user.contains_key(&user) || self.user_for_channel.contains_key(
            &channel,
        ) {
            return Err(SessionError::AlreadyExists);
        }
        self.channel_for_user.insert(user, channel);
        self.user_for_channel.insert(channel, user);
        Ok(())
    }

    /// Closes the session held in `channel` and returns the user it served.
    /// Refused with `NotFound`, and nothing changed, when the channel holds no
    /// session.
    pub fn remove_user_channel(&mut self, channel: &u64) -> (r: Result<u64, SessionError>)
        requires
            old(self)@.wf(),
        ensures
            final(self)@.wf(),
            match old(self)@.close(*channel) {
                Ok((s, user)) => r == Ok::<u64, SessionError>(user) && final(self)@ == s,
                Err(e) => r == Err::<u64, SessionError>(e) && final(self)@ == old(self)@,
            },
    {
        let ghost before = self@;
        match self.user_for_channel.remove(channel) {
            Some(user) => {
                self.channel_for_user.remove(&user);
                Ok(user)
            },
            None => {
                assert(self.user_for_channel@ =~= before.user_of);
                Err(SessionError::NotFound)
            },
        }
    }

    /// Rebuilds the index from snapshot records. Records that name a user or
    /// a channel twice are malformed, and give an index without sessions.
    pub fn from_sessions(records: &Vec<(u64, u64)>) -> (r: Storage)
        ensures
            r@.wf(),
            r@ == loaded(records@),
    {
        let mut index = Storage::new();
        let n = records.len();
        for i in 0..n
            invariant
                n == records@.len(),
                index@ == sessions_of(records@.take(i as int)),
                distinct_records(records@.take(i as int)),
                index@.wf(),
        {
            let ghost done = records@.take(i as int);
            let (user, channel) = records[i];
            proof {
                lemma_sessions_of(done);
            }
            if index.channel_for_user.contains_key(&user) || index.user_for_channel.contains_key(
                &channel,
            ) {
                proof {
                    let j = if index@.channel_of.contains_key(user) {
                        choose|j: int| 0 <= j < done.len() && (#[trigger] done[j]).0 == user
                    } else {
                        choose|j: int| 0 <= j < done.len() && (#[trigger] done[j]).1 == channel
                    };
                    assert(done[j] == records@[j]);
                    assert(!distinct_records(records@));
                }
                return Storage::new();
            }
            let ghost next = records@.take(i + 1);
            assert(next.drop_last() == done);
            assert(distinct_records(next)) by {
                assert forall|a: int, b: int| 0 <= a < b < next.len() implies (
                #[trigger] next[a]).0 != (#[trigger] next[b]).0 && next[a].1 != next[b].1 by {
                    assert(next[a] == records@[a]);
                    assert(next[b] == records@[b]);
                    if b < i {
                        assert(done[a] == next[a] && done[b] == next[b]);
                    } else {
                        assert(done[a] == next[a]);
                    }
                }
            }
            index.channel_for_user.insert(user, channel);
            index.user_for_channel.insert(channel, user);
            proof {
                lemma_sessions_of(next);
            }
        }
        assert(records@.take(n as int) == records@);
        index
    }

    /// The snapshot of the index: one `(user, channel)` record per session,
    /// in an unspecified order.
    pub fn sessions(&self) -> (r: Vec<(u64, u64)>)
        requires
            self@.wf(),
        ensures
            distinct_records(r@),
            sessions_of(r@) == self@,
    {
        let mut records: Vec<(u64, u64)> = Vec::new();
        for (user, channel) in it: self.channel_for_user.iter()
            invariant
                records@.len() == it.index(),
                forall|j: int|
                    0 <= j < it.index() ==> #[trigger] records@[j] == (*it.seq()[j].0, *it.seq()[j].1),
                it.seq() == self.channel_for_user.iter().remaining(),
        {
            records.push((*user, *channel));
        }
        proof {
            let m = self@;
            let r = records@;
            let v = self.channel_for_user.iter().remaining();
            assert(v.no_duplicates());
            assert(r.len() == v.len());
            assert forall|j: int| 0 <= j < r.len() implies m.channel_of.contains_key(
                (#[trigger] r[j]).0,
            ) && m.channel_of[r[j].0] == r[j].1 by {
                assert(r[j] == (*v[j].0, *v[j].1));
            }
            assert(distinct_records(r)) by {
                assert forall|i: int, j: int| 0 <= i < j < r.len() implies (#[trigger] r[i]).0
                    != (#[trigger] r[j]).0 && r[i].1 != r[j].1 by {
                    assert(r[i] == (*v[i].0, *v[i].1));
                    assert(r[j] == (*v[j].0, *v[j].1));
                    assert(v[i] != v[j]);
                    assert(m.channel_of.contains_key(r[i].0) && m.channel_of.contains_key(r[j].0));
                }
            }
            lemma_sessions_of(r);
            let t = sessions_of(r);
            assert forall|u: u64| m.channel_of.contains_key(u) implies t.channel_of.contains_key(
                u,
            ) by {
                assert(v.contains((&u, &m.channel_of[u])));
                let j = choose|j: int| 0 <= j < v.len() && v[j] == (&u, &m.channel_of[u]);
                assert(r[j].0 == u);
            }
            assert forall|c: u64| m.user_of.contains_key(c) implies t.user_of.contains_key(c) by {
                let u = m.user_of[c];
                assert(v.contains((&u, &m.channel_of[u])));
                let j = choose|j: int| 0 <= j < v.len() && v[j] == (&u, &m.channel_of[u]);
                assert(r[j].1 == c);
            }
            assert forall|u: u64| t.channel_of.contains_key(u) implies m.channel_of.contains_key(
                u,
            ) && t.channel_of[u] == m.channel_of[u] by {
                let j = choose|j: int| 0 <= j < r.len() && (#[trigger] r[j]).0 == u;
            }
            assert forall|c: u64| t.user_of.contains_key(c) implies m.user_of.contains_key(c)
                && t.user_of[c] == m.user_of[c] by {
                let j = choose|j: int| 0 <= j < r.len() && (#[trigger] r[j]).1 == c;
            }
            assert(t.channel_of =~= m.channel_of);
            assert(t.user_of =~= m.user_of);
        }
        records
    }

    /// The JSON text of a snapshot of the index; it is always written.
    pub fn to_json(&self) -> (r: Result<String, SnapshotError>)
        requires
            self@.wf(),
        ensures
            r is Ok,
            r matches Ok(text) ==> exists|records: Seq<(u64, u64)>|
                distinct_records(records) && sessions_of(records) == self@ && text@
                    == json_of_records(records),
    {
        let records = self.sessions();
        match encode_records(&records) {
            Ok(text) => Ok(text),
            Err(_) => Err(SnapshotError::Encoding),
        }
    }

    /// The index that a JSON snapshot holds; an index without sessions where
    /// the text is not a snapshot or its records are malformed.
    pub fn from_json(text: &str) -> (r: Storage)
        ensures
            r@.wf(),
            r@ == match records_of_json(text@) {
                Some(records) => loaded(records),
                None => Sessions::empty(),
            },
    {
        match decode_records(text) {
            Ok(records) => Storage::from_sessions(&records),
            Err(_) => Storage::new(),
        }
    }
}

} // verus!
