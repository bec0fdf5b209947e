use modmail::router::{Action, Config, Event, Opener, RouteError, Router};
use modmail::storage::Storage;

const BOT: u64 = 1;

fn config() -> Config {
    Config { self_id: BOT, category: 900, mod_role: 77 }
}

fn router_with(sessions: &[(u64, u64)]) -> Router {
    let mut s = Storage::new();
    for (u, c) in sessions {
        s.insert_user_channel(*u, *c).unwrap();
    }
    Router::new(config(), s)
}

#[test]
fn known_user_message_is_forwarded() {
    let mut r = router_with(&[(7, 200)]);
    let actions = r.handle(Event::DirectMessage { author: 7 });
    assert_eq!(actions, vec![Action::ForwardToChannel { channel: 200 }]);
    assert_eq!(r.storage().get_channel(&7), Some(&200));
}

#[test]
fn staff_close_frees_session_and_deletes_channel_once() {
    let mut r = router_with(&[(7, 200)]);
    let actions = r.handle(Event::CloseCommand { channel: 200 });
    assert_eq!(
        actions,
        vec![Action::Persist, Action::NotifyClosed { user: 7 }, Action::DeleteChannel { channel: 200 }]
    );
    assert_eq!(
        actions.iter().filter(|a| **a == Action::DeleteChannel { channel: 200 }).count(),
        1
    );
    assert_eq!(r.storage().get_user(&200), None);
    assert_eq!(r.storage().get_channel(&7), None);
}

#[test]
fn own_message_is_ignored() {
    let mut r = router_with(&[(7, 200)]);
    assert!(r.handle(Event::DirectMessage { author: BOT }).is_empty());
    assert_eq!(r.storage().get_channel(&7), Some(&200));
    assert_eq!(r.storage().get_channel(&BOT), None);
}

#[test]
fn new_user_message_asks_for_channel_then_forwards() {
    let mut r = router_with(&[]);
    let actions = r.handle(Event::DirectMessage { author: 42 });
    assert_eq!(
        actions,
        vec![Action::CreateChannel { user: 42, category: 900, opener: Opener::User }]
    );
    assert_eq!(r.storage().get_channel(&42), None);
    let actions = r.handle(Event::ChannelCreated { user: 42, channel: 100, opener: Opener::User });
    assert_eq!(
        actions,
        vec![
            Action::Persist,
            Action::Announce { channel: 100, user: 42, role: 77 },
            Action::ForwardToChannel { channel: 100 },
        ]
    );
    assert_eq!(r.storage().get_channel(&42), Some(&100));
    assert_eq!(r.storage().get_user(&100), Some(&42));
}

#[test]
fn channel_creation_failure_records_nothing() {
    let mut r = router_with(&[]);
    let actions = r.handle(Event::ChannelCreationFailed { user: 42, opener: Opener::User });
    assert_eq!(actions, vec![Action::Acknowledge { ok: false }]);
    assert_eq!(r.storage().get_channel(&42), None);
}

#[test]
fn staff_open_for_new_user() {
    let mut r = router_with(&[]);
    let actions = r.handle(Event::OpenCommand { user: 42 });
    assert_eq!(
        actions,
        vec![Action::CreateChannel { user: 42, category: 900, opener: Opener::Staff }]
    );
    let actions = r.handle(Event::ChannelCreated { user: 42, channel: 100, opener: Opener::Staff });
    assert_eq!(
        actions,
        vec![Action::Persist, Action::Announce { channel: 100, user: 42, role: 77 }]
    );
    assert_eq!(r.storage().get_user(&100), Some(&42));
}

#[test]
fn staff_open_for_user_with_session_is_refused() {
    let mut r = router_with(&[(7, 200)]);
    let actions = r.handle(Event::OpenCommand { user: 7 });
    assert_eq!(actions, vec![Action::Refuse { error: RouteError::SessionAlreadyOpen }]);
    assert_eq!(r.storage().get_channel(&7), Some(&200));
}

#[test]
fn staff_open_for_bot_is_refused() {
    let mut r = router_with(&[]);
    let actions = r.handle(Event::OpenCommand { user: BOT });
    assert_eq!(actions, vec![Action::Refuse { error: RouteError::BotIdentity }]);
}

#[test]
fn reply_goes_to_mapped_user() {
    let mut r = router_with(&[(7, 200)]);
    let actions = r.handle(Event::ReplyCommand { channel: 200 });
    assert_eq!(actions, vec![Action::ForwardToUser { user: 7 }]);
}

#[test]
fn reply_and_close_in_unmapped_channel_are_refused() {
    let mut r = router_with(&[(7, 200)]);
    let refused = vec![Action::Refuse { error: RouteError::NoActiveSession }];
    assert_eq!(r.handle(Event::ReplyCommand { channel: 201 }), refused);
    assert_eq!(r.handle(Event::CloseCommand { channel: 201 }), refused);
    assert_eq!(r.storage().get_channel(&7), Some(&200));
}

#[test]
fn second_close_is_refused() {
    let mut r = router_with(&[(7, 200)]);
    r.handle(Event::CloseCommand { channel: 200 });
    assert_eq!(
        r.handle(Event::CloseCommand { channel: 200 }),
        vec![Action::Refuse { error: RouteError::NoActiveSession }]
    );
}

#[test]
fn racing_channel_for_user_with_session_is_deleted() {
    let mut r = router_with(&[(7, 200)]);
    let actions = r.handle(Event::ChannelCreated { user: 7, channel: 300, opener: Opener::User });
    assert_eq!(
        actions,
        vec![Action::DeleteChannel { channel: 300 }, Action::ForwardToChannel { channel: 200 }]
    );
    let actions = r.handle(Event::ChannelCreated { user: 7, channel: 301, opener: Opener::Staff });
    assert_eq!(
        actions,
        vec![
            Action::DeleteChannel { channel: 301 },
            Action::Refuse { error: RouteError::SessionAlreadyOpen },
        ]
    );
    assert_eq!(r.storage().get_channel(&7), Some(&200));
    assert_eq!(r.storage().get_user(&300), None);
}

#[test]
fn created_channel_serving_other_user_is_not_recorded() {
    let mut r = router_with(&[(7, 200)]);
    let actions = r.handle(Event::ChannelCreated { user: 8, channel: 200, opener: Opener::User });
    assert_eq!(
        actions,
        vec![Action::DeleteChannel { channel: 200 }, Action::Acknowledge { ok: false }]
    );
    assert_eq!(r.storage().get_channel(&8), None);
    assert_eq!(r.storage().get_user(&200), Some(&7));
}

#[test]
fn created_channel_naming_bot_is_not_recorded() {
    let mut r = router_with(&[]);
    let actions = r.handle(Event::ChannelCreated { user: BOT, channel: 100, opener: Opener::Staff });
    assert_eq!(
        actions,
        vec![Action::DeleteChannel { channel: 100 }, Action::Acknowledge { ok: false }]
    );
    assert_eq!(r.storage().get_channel(&BOT), None);
}

#[test]
fn delivery_outcome_is_acknowledged_without_change() {
    let mut r = router_with(&[(7, 200)]);
    assert_eq!(r.handle(Event::Delivered { ok: true }), vec![Action::Acknowledge { ok: true }]);
    assert_eq!(r.handle(Event::Delivered { ok: false }), vec![Action::Acknowledge { ok: false }]);
    assert_eq!(r.storage().get_channel(&7), Some(&200));
}

#[test]
fn config_is_kept() {
    let r = router_with(&[]);
    assert_eq!(*r.config(), config());
}

#[test]
fn loaded_sessions_naming_bot_are_left_out() {
    let s = Storage::from_json("[[1,50],[7,200],[60,1]]");
    assert_eq!(s.get_channel(&BOT), Some(&50));
    assert_eq!(s.get_user(&BOT), Some(&60));
    let mut r = Router::new(config(), s);
    assert_eq!(r.storage().get_channel(&BOT), None);
    assert_eq!(r.storage().get_user(&50), None);
    assert_eq!(r.storage().get_user(&BOT), None);
    assert_eq!(r.storage().get_channel(&60), None);
    assert_eq!(r.storage().get_channel(&7), Some(&200));
    assert_eq!(
        r.handle(Event::DirectMessage { author: 60 }),
        vec![Action::CreateChannel { user: 60, category: 900, opener: Opener::User }]
    );
}
