//! Laws of the session index, stated over its abstract state.
use crate::router::{next_sessions, reactions, Action, Config, Event};
use crate::storage::{distinct_records, loaded, sessions_of, SessionError, Sessions};
use vstd::prelude::*;

verus! {

/// A session created for a user without one, in a free channel, is found in
/// both directions, and the index stays a bijection.
pub proof fn lemma_create_then_lookup(s: Sessions, user: u64, channel: u64)
    requires
        s.wf(),
        s.lookup_channel(user) is None,
        s.lookup_user(channel) is None,
    ensures
        s.create(user, channel) is Ok,
        s.create(user, channel)->Ok_0.wf(),
        s.create(user, channel)->Ok_0.lookup_channel(user) == Some(channel),
        s.create(user, channel)->Ok_0.lookup_user(channel) == Some(user),
{
}

/// A second create for the same user, with no close in between, fails with
/// `AlreadyExists`, and the user keeps the first channel.
pub proof fn lemma_create_twice(s: Sessions, user: u64, first: u64, second: u64)
    requires
        s.wf(),
        s.create(user, first) is Ok,
    ensures
        s.create(user, first)->Ok_0.create(user, second) == Err::<Sessions, SessionError>(
            SessionError::AlreadyExists,
        ),
        s.create(user, first)->Ok_0.lookup_channel(user) == Some(first),
{
}

/// Closing a channel that holds no session fails with `NotFound`.
pub proof fn lemma_close_without_session(s: Sessions, channel: u64)
    requires
        s.lookup_user(channel) is None,
    ensures
        s.close(channel) == Err::<(Sessions, u64), SessionError>(SessionError::NotFound),
{
}

/// After a close succeeds, neither direction remembers the session, the
/// index stays a bijection, and closing the same channel again fails with
/// `NotFound`.
pub proof fn lemma_close_twice(s: Sessions, channel: u64)
    requires
        s.wf(),
        s.close(channel) is Ok,
    ensures
        ({
            let (t, user) = s.close(channel)->Ok_0;
            &&& t.wf()
            &&& t.lookup_user(channel) is None
            &&& t.lookup_channel(user) is None
            &&& t.close(channel) == Err::<(Sessions, u64), SessionError>(SessionError::NotFound)
        }),
{
    let (t, user) = s.close(channel)->Ok_0;
    assert forall|u: u64| #[trigger] t.channel_of.contains_key(u) implies t.user_of.contains_key(
        t.channel_of[u],
    ) && t.user_of[t.channel_of[u]] == u by {
        assert(s.channel_of[u] != channel);
    }
}

/// Loading the records that a snapshot of an index gave reproduces the
/// index: every user finds the same channel and every channel the same user.
pub proof fn lemma_snapshot_round_trip(s: Sessions, records: Seq<(u64, u64)>)
    requires
        s.wf(),
        distinct_records(records),
        sessions_of(records) == s,
    ensures
        loaded(records) == s,
        forall|u: u64| #[trigger] loaded(records).lookup_channel(u) == s.lookup_channel(u),
        forall|c: u64| #[trigger] loaded(records).lookup_user(c) == s.lookup_user(c),
{
}

/// A direct message from the bot's own identity is ignored: no action, and
/// the index is left as it was.
pub proof fn lemma_self_message_ignored(cfg: Config, s: Sessions)
    ensures
        reactions(cfg, s, Event::DirectMessage { author: cfg.self_id }) == Seq::<Action>::empty(),
        next_sessions(cfg, s, Event::DirectMessage { author: cfg.self_id }) == s,
{
}

/// A direct message from a user with an open session is forwarded into that
/// session's channel, and no channel is created.
pub proof fn lemma_known_user_forwarded(cfg: Config, s: Sessions, user: u64, channel: u64)
    requires
        user != cfg.self_id,
        s.lookup_channel(user) == Some(channel),
    ensures
        reactions(cfg, s, Event::DirectMessage { author: user }) == seq![
            Action::ForwardToChannel { channel },
        ],
        next_sessions(cfg, s, Event::DirectMessage { author: user }) == s,
{
}

/// Closing a session frees both directions, then notifies the user and
/// requests the channel's deletion once.
pub proof fn lemma_close_command(cfg: Config, s: Sessions, channel: u64, user: u64)
    requires
        s.wf(),
        s.lookup_user(channel) == Some(user),
    ensures
        next_sessions(cfg, s, Event::CloseCommand { channel }).lookup_user(channel) is None,
        next_sessions(cfg, s, Event::CloseCommand { channel }).lookup_channel(user) is None,
        reactions(cfg, s, Event::CloseCommand { channel }) == seq![
            Action::Persist,
            Action::NotifyClosed { user },
            Action::DeleteChannel { channel },
        ],
{
}

} // verus!
