//! The decisions of the relay: each inbound event becomes zero or more
//! updates of the session index and a list of outbound actions, which the
//! platform adapter performs in order.
use crate::storage::{Sessions, Storage};
use vstd::prelude::*;

verus! {

/// What the router needs to know of its deployment.
#[derive(Debug, Clone, Copy, PartialEq, Eq, Structural)]
pub struct Config {
    /// The bot's own identity; it never takes part in a session.
    pub self_id: u64,
    /// The grouping that new session channels are created under.
    pub category: u64,
    /// The staff role that is notified when a session opens.
    pub mod_role: u64,
}

/// Who asked for a new session channel.
#[derive(Debug, Clone, Copy, PartialEq, Eq, Structural)]
pub enum Opener {
    /// The user, by a direct message that is forwarded once the channel exists.
    User,
    /// Staff, by the open command.
    Staff,
}

/// An inbound event, as the platform adapter classifies it.
#[derive(Debug, Clone, Copy, PartialEq, Eq, Structural)]
pub enum Event {
    /// A direct message to the bot from `author`.
    DirectMessage { author: u64 },
    /// Staff ask for a session with `user`.
    OpenCommand { user: u64 },
    /// Staff reply inside `channel`.
    ReplyCommand { channel: u64 },
    /// Staff close the session held in `channel`.
    CloseCommand { channel: u64 },
    /// The platform created `channel` for a session with `user`.
    ChannelCreated { user: u64, channel: u64, opener: Opener },
    /// The platform could not create a channel for `user`.
    ChannelCreationFailed { user: u64, opener: Opener },
    /// A forwarded message was delivered, or not.
    Delivered { ok: bool },
}

/// A refusal shown to the staff member who issued a command.
#[derive(Debug, Clone, Copy, PartialEq, Eq, Structural)]
pub enum RouteError {
    /// The user already has an open session.
    SessionAlreadyOpen,
    /// The channel is not associated with any user.
    NoActiveSession,
    /// The bot cannot hold a session with itself.
    BotIdentity,
}

/// An outbound step for the platform adapter.
#[derive(Debug, Clone, Copy, PartialEq, Eq, Structural)]
pub enum Action {
    /// Create a session channel for `user` under `category`, and report the
    /// outcome back as `ChannelCreated` or `ChannelCreationFailed`.
    CreateChannel { user: u64, category: u64, opener: Opener },
    /// Write a snapshot of the index to its durable location.
    Persist,
    /// Tell `role`, inside `channel`, that `user` started a session.
    Announce { channel: u64, user: u64, role: u64 },
    /// Send the inbound direct message into `channel`.
    ForwardToChannel { channel: u64 },
    /// Send the staff reply to `user` as a direct message.
    ForwardToUser { user: u64 },
    /// Tell `user` that the session was closed.
    NotifyClosed { user: u64 },
    /// Delete `channel` on the platform.
    DeleteChannel { channel: u64 },
    /// Mark the inbound message as handled (`true`) or failed.
    Acknowledge { ok: bool },
    /// Tell the invoking staff member why the command was refused.
    Refuse { error: RouteError },
}

/// The sessions after `e`: an open or a close commits here; every other
/// event leaves the index as it was.
pub open spec fn next_sessions(cfg: Config, s: Sessions, e: Event) -> Sessions {
    match e {
        Event::CloseCommand { channel } => match s.close(channel) {
            Ok((t, _)) => t,
            Err(_) => s,
        },
        Event::ChannelCreated { user, channel, opener } => {
            if user == cfg.self_id || channel == cfg.self_id {
                s
            } else {
                match s.create(user, channel) {
                    Ok(t) => t,
                    Err(_) => s,
                }
            }
        },
        _ => s,
    }
}

/// The actions that answer `e`, in the order they are to be performed.
pub open spec fn reactions(cfg: Config, s: Sessions, e: Event) -> Seq<Action> {
    match e {
        Event::DirectMessage { author } => {
            if author == cfg.self_id {
                Seq::empty()
            } else {
                match s.lookup_channel(author) {
                    Some(channel) => seq![Action::ForwardToChannel { channel }],
                    None => seq![
                        Action::CreateChannel {
                            user: author,
                            category: cfg.category,
                            opener: Opener::User,
                        },
                    ],
                }
            }
        },
        Event::OpenCommand { user } => {
            if user == cfg.self_id {
                seq![Action::Refuse { error: RouteError::BotIdentity }]
            } else if s.lookup_channel(user) is Some {
                seq![Action::Refuse { error: RouteError::SessionAlreadyOpen }]
            } else {
                seq![Action::CreateChannel { user, category: cfg.category, opener: Opener::Staff }]
            }
        },
        Event::ReplyCommand { channel } => match s.lookup_user(channel) {
            Some(user) => seq![Action::ForwardToUser { user }],
            None => seq![Action::Refuse { error: RouteError::NoActiveSession }],
        },
        Event::CloseCommand { channel } => match s.lookup_user(channel) {
            Some(user) => seq![
                Action::Persist,
                Action::NotifyClosed { user },
                Action::DeleteChannel { channel },
            ],
            None => seq![Action::Refuse { error: RouteError::NoActiveSession }],
        },
        Event::ChannelCreated { user, channel, opener } => {
            if user == cfg.self_id || channel == cfg.self_id {
                seq![Action::DeleteChannel { channel }, Action::Acknowledge { ok: false }]
            } else if s.create(user, channel) is Ok {
                let opened = seq![
                    Action::Persist,
                    Action::Announce { channel, user, role: cfg.mod_role },
                ];
                if opener == Opener::User {
                    opened.push(Action::ForwardToChannel { channel })
                } else {
                    opened
                }
            } else {
                match s.lookup_channel(user) {
                    Some(existing) => seq![
                        Action::DeleteChannel { channel },
                        if opener == Opener::User {
                            Action::ForwardToChannel { channel: existing }
                        } else {
                            Action::Refuse { error: RouteError::SessionAlreadyOpen }
                        },
                    ],
                    None => seq![Action::DeleteChannel { channel }, Action::Acknowledge { ok: false }],
                }
            }
        },
        Event::ChannelCreationFailed { .. } => seq![Action::Acknowledge { ok: false }],
        Event::Delivered { ok } => seq![Action::Acknowledge { ok }],
    }
}

/// The router: the deployment's settings and the session index it owns.
pub struct Router {
    config: Config,
    storage: Storage,
}

impl Router {
    /// The settings the router was made with.
    pub closed spec fn settings(&self) -> Config {
        self.config
    }

    /// The open sessions.
    pub closed spec fn sessions(&self) -> Sessions {
        self.storage@
    }

    /// The index the router owns is a bijection, and no session names the
    /// bot's own identity.
    pub open spec fn wf(&self) -> bool {
        &&& self.sessions().wf()
        &&& self.sessions().lookup_channel(self.settings().self_id) is None
        &&& self.sessions().lookup_user(self.settings().self_id) is None
    }

    /// A router over `storage`, for the deployment that `config` describes.
    /// Sessions that name the bot's own identity are left out.
    pub fn new(config: Config, storage: Storage) -> (r: Router)
        requires
            storage@.wf(),
        ensures
            r.settings() == config,
            r.sessions() == storage@.without_identity(config.self_id),
            r.wf(),
    {
        let mut storage = storage;
        let id = config.self_id;
        let own_channel = match storage.get_channel(&id) {
            Some(channel) => Some(*channel),
            None => None,
        };
        if let Some(channel) = own_channel {
            let _ = storage.remove_user_channel(&channel);
        }
        if storage.get_user(&id).is_some() {
            let _ = storage.remove_user_channel(&id);
        }
        Router { config, storage }
    }

    /// The deployment's settings.
    pub fn config(&self) -> (r: &Config)
        ensures
            *r == self.settings(),
    {
        &self.config
    }

    /// The session index, for lookups and snapshots.
    pub fn storage(&self) -> (r: &Storage)
        ensures
            r@ == self.sessions(),
    {
        &self.storage
    }

    /// Applies `event` to the index and returns the actions that answer it.
    /// An open or a close is committed before any action is returned.
    pub fn handle(&mut self, event: Event) -> (r: Vec<Action>)
        requires
            old(self).wf(),
        ensures
            final(self).wf(),
            final(self).settings() == old(self).settings(),
            final(self).sessions() == next_sessions(old(self).settings(), old(self).sessions(), event),
            r@ == reactions(old(self).settings(), old(self).sessions(), event),
    {
        let cfg = self.config;
        match event {
            Event::DirectMessage { author } => {
                if author == cfg.self_id {
                    Vec::new()
                } else {
                    match self.storage.get_channel(&author) {
                        Some(channel) => vec![Action::ForwardToChannel { channel: *channel }],
                        None => vec![
                            Action::CreateChannel {
                                user: author,
                                category: cfg.category,
                                opener: Opener::User,
                            },
                        ],
                    }
                }
            },
            Event::OpenCommand { user } => {
                if user == cfg.self_id {
                    vec![Action::Refuse { error: RouteError::BotIdentity }]
                } else if self.storage.get_channel(&user).is_some() {
                    vec![Action::Refuse { error: RouteError::SessionAlreadyOpen }]
                } else {
                    vec![
                        Action::CreateChannel {
                            user,
                            category: cfg.category,
                            opener: Opener::Staff,
                        },
                    ]
                }
            },
            Event::ReplyCommand { channel } => match self.storage.get_user(&channel) {
                Some(user) => vec![Action::ForwardToUser { user: *user }],
                None => vec![Action::Refuse { error: RouteError::NoActiveSession }],
            },
            Event::CloseCommand { channel } => match self.storage.remove_user_channel(&channel) {
                Ok(user) => vec![
                    Action::Persist,
                    Action::NotifyClosed { user },
                    Action::DeleteChannel { channel },
                ],
                Err(_) => vec![Action::Refuse { error: RouteError::NoActiveSession }],
            },
            Event::ChannelCreated { user, channel, opener } => {
                if user == cfg.self_id || channel == cfg.self_id {
                    return vec![Action::DeleteChannel { channel }, Action::Acknowledge { ok: false }];
                }
                match self.storage.insert_user_channel(user, channel) {
                    Ok(()) => {
                        let mut opened = vec![
                            Action::Persist,
                            Action::Announce { channel, user, role: cfg.mod_role },
                        ];
                        if opener == Opener::User {
                            opened.push(Action::ForwardToChannel { channel });
                        }
                        opened
                    },
                    Err(_) => match self.storage.get_channel(&user) {
                        Some(existing) => {
                            let follow = if opener == Opener::User {
                                Action::ForwardToChannel { channel: *existing }
                            } else {
                                Action::Refuse { error: RouteError::SessionAlreadyOpen }
                            };
                            vec![Action::DeleteChannel { channel }, follow]
                        },
                        None => vec![
                            Action::DeleteChannel { channel },
                            Action::Acknowledge { ok: false },
                        ],
                    },
                }
            },
            Event::ChannelCreationFailed { .. } => vec![Action::Acknowledge { ok: false }],
            Event::Delivered { ok } => vec![Action::Acknowledge { ok }],
        }
    }
}

} // verus!
