use iceicebabyv2::client::{Action, App, GatewayFeed, Screen};
use iceicebabyv2::message::{GuildInfo, Message};

type TestApp = App<&'static str, &'static str>;
type TestMessage = Message<&'static str, &'static str>;

fn guild(id: u64, name: Option<&str>) -> GuildInfo {
    GuildInfo { id, name: name.map(|n| n.to_string()) }
}

fn logged_in() -> TestApp {
    let mut app = TestApp::new();
    let action = app.update(Message::LoginSuccess("instance", "user", 7, Some(vec![guild(1, Some("one"))])));
    assert!(matches!(action, Action::Idle));
    app
}

#[test]
fn new_starts_on_login_screen_with_empty_form() {
    let app = TestApp::new();
    assert_eq!(app.current_view, Screen::Login);
    assert_eq!(app.username, "");
    assert_eq!(app.password, "");
    assert_eq!(app.instance_url, "https://spacebar.greysilly7.xyz");
    assert!(app.instance.is_none() && app.user.is_none() && app.user_id.is_none());
    assert!(app.current_guild.is_none() && app.current_channel.is_none());
    assert_eq!(app.message_input, "");
    assert!(app.guilds.is_none() && app.messages.is_none());
}

#[test]
fn screen_switches() {
    let mut app = TestApp::new();
    assert!(matches!(app.update(Message::Register), Action::Idle));
    assert_eq!(app.current_view, Screen::Register);
    app.update(Message::MainView);
    assert_eq!(app.current_view, Screen::MainView);
    app.update(Message::Login);
    assert_eq!(app.current_view, Screen::Login);
}

#[test]
fn form_updates_store_text() {
    let mut app = TestApp::new();
    app.update(Message::UsernameUpdate("me@example.org".to_string()));
    app.update(Message::PasswordUpdate("hunter2".to_string()));
    app.update(Message::InstanceUrlUpdate("https://chat.example.org".to_string()));
    assert_eq!(app.username, "me@example.org");
    assert_eq!(app.password, "hunter2");
    assert_eq!(app.instance_url, "https://chat.example.org");
    assert_eq!(app.current_view, Screen::Login);
}

#[test]
fn submit_login_asks_for_login_with_form_values() {
    let mut app = TestApp::new();
    app.update(Message::UsernameUpdate("a".to_string()));
    app.update(Message::PasswordUpdate("b".to_string()));
    match app.update(Message::SubmitLogin) {
        Action::Login { instance_url, username, password } => {
            assert_eq!(instance_url, "https://spacebar.greysilly7.xyz");
            assert_eq!(username, "a");
            assert_eq!(password, "b");
        }
        _ => panic!("expected a login"),
    }
    assert_eq!(app.current_view, Screen::Login);
    assert!(app.user.is_none());
}

#[test]
fn login_success_opens_main_screen() {
    let app = logged_in();
    assert_eq!(app.current_view, Screen::MainView);
    assert_eq!(app.instance, Some("instance"));
    assert_eq!(app.user, Some("user"));
    assert_eq!(app.user_id, Some(7));
    assert_eq!(app.guilds.as_ref().map(|g| g.len()), Some(1));
}

#[test]
fn login_success_without_guilds() {
    let mut app = TestApp::new();
    app.update(Message::LoginSuccess("i", "u", 3, None));
    assert!(app.guilds.is_none());
    assert_eq!(app.current_view, Screen::MainView);
}

#[test]
fn logout_keeps_guilds_and_selection() {
    let mut app = logged_in();
    app.update(Message::SwitchGuild(1));
    app.update(Message::SwitchChannel(2));
    app.update(Message::Logout);
    assert_eq!(app.current_view, Screen::Login);
    assert!(app.instance.is_none() && app.user.is_none() && app.user_id.is_none());
    assert!(app.guilds.is_some());
    assert_eq!(app.current_guild, Some(1));
    assert_eq!(app.current_channel, Some(2));
}

#[test]
fn logout_cleanup_forgets_guilds() {
    let mut app = logged_in();
    app.update(Message::LogoutCleanup);
    assert_eq!(app.current_view, Screen::Login);
    assert!(app.user.is_none() && app.guilds.is_none());
}

#[test]
fn switching_guild_and_channel() {
    let mut app = TestApp::new();
    app.update(Message::SwitchGuild(10));
    app.update(Message::SwitchChannel(20));
    assert_eq!(app.current_guild, Some(10));
    assert_eq!(app.current_channel, Some(20));
    app.update(Message::SwitchGuild(11));
    assert_eq!(app.current_guild, Some(11));
    assert_eq!(app.current_channel, Some(20));
}

#[test]
fn send_message_targets_current_channel_when_logged_in() {
    let mut app = logged_in();
    app.update(Message::SwitchChannel(5));
    app.update(Message::MessageInputUpdate("hello".to_string()));
    match app.update(Message::SendMessage) {
        Action::SendMessage { channel, content } => {
            assert_eq!(channel, Some(5));
            assert_eq!(content, "hello");
        }
        _ => panic!("expected a send"),
    }
    assert_eq!(app.message_input, "hello");
    app.update(Message::MessageSent);
    assert_eq!(app.message_input, "");
}

#[test]
fn send_message_without_session_has_no_target() {
    let mut app = TestApp::new();
    app.update(Message::SwitchChannel(5));
    app.update(Message::MessageInputUpdate("hi".to_string()));
    match app.update(Message::SendMessage) {
        Action::SendMessage { channel, content } => {
            assert_eq!(channel, None);
            assert_eq!(content, "hi");
        }
        _ => panic!("expected a send"),
    }
}

#[test]
fn send_message_without_channel_has_no_target() {
    let mut app = logged_in();
    match app.update(Message::SendMessage) {
        Action::SendMessage { channel, content } => {
            assert_eq!(channel, None);
            assert_eq!(content, "");
        }
        _ => panic!("expected a send"),
    }
}

#[test]
fn updates_store_lists() {
    let mut app = TestApp::new();
    app.update(Message::UpdateGuilds(vec![guild(3, None), guild(4, Some("four"))]));
    assert_eq!(app.guilds.as_ref().unwrap().len(), 2);
    assert_eq!(app.guilds.as_ref().unwrap()[1].id, 4);
    app.update(Message::UpdateMessages(vec!["a".to_string(), "b".to_string()]));
    assert_eq!(app.messages, Some(vec!["a".to_string(), "b".to_string()]));
}

#[test]
fn reports_change_nothing() {
    let mut app = logged_in();
    app.update(Message::SwitchChannel(9));
    assert!(matches!(app.update(Message::UpdateChannels(vec![1, 2])), Action::Idle));
    assert!(matches!(app.update(Message::ReadyRecieved), Action::Idle));
    assert_eq!(app.current_channel, Some(9));
    assert_eq!(app.current_view, Screen::MainView);
    assert_eq!(app.user_id, Some(7));
}

fn ready_for_gateway_messages() -> TestApp {
    let mut app = logged_in();
    app.update(Message::SwitchGuild(1));
    app.update(Message::SwitchChannel(42));
    app
}

#[test]
fn message_from_someone_else_refetches_channel() {
    let mut app = ready_for_gateway_messages();
    match app.update(Message::MessageCreateReceived(Some(8))) {
        Action::FetchMessages { channel } => assert_eq!(channel, 42),
        _ => panic!("expected a fetch"),
    }
}

#[test]
fn own_message_is_ignored() {
    let mut app = ready_for_gateway_messages();
    assert!(matches!(app.update(Message::MessageCreateReceived(Some(7))), Action::Idle));
}

#[test]
fn message_without_author_is_ignored() {
    let mut app = ready_for_gateway_messages();
    assert!(matches!(app.update(Message::MessageCreateReceived(None)), Action::Idle));
}

#[test]
fn message_without_session_is_ignored() {
    let mut app = TestApp::new();
    app.update(Message::SwitchGuild(1));
    app.update(Message::SwitchChannel(42));
    assert!(matches!(app.update(Message::MessageCreateReceived(Some(8))), Action::Idle));
}

#[test]
fn message_without_selection_is_ignored() {
    let mut app = logged_in();
    app.update(Message::SwitchChannel(42));
    assert!(matches!(app.update(Message::MessageCreateReceived(Some(8))), Action::Idle));
    let mut app = logged_in();
    app.update(Message::SwitchGuild(1));
    assert!(matches!(app.update(Message::MessageCreateReceived(Some(8))), Action::Idle));
}

#[test]
fn gateway_subscriptions_follow_session() {
    let app = TestApp::new();
    assert!(app.gateway_subscriptions().is_empty());
    let mut app = logged_in();
    assert_eq!(app.gateway_subscriptions(), vec![GatewayFeed::Ready, GatewayFeed::MessageCreate]);
    app.update(Message::Logout);
    assert!(app.gateway_subscriptions().is_empty());
}

#[test]
fn session_handles_stay_together() {
    let mut app = TestApp::new();
    let script: Vec<TestMessage> = vec![
        Message::LoginSuccess("i", "u", 1, None),
        Message::Logout,
        Message::LoginSuccess("i2", "u2", 2, Some(vec![])),
        Message::LogoutCleanup,
    ];
    for m in script {
        app.update(m);
        assert_eq!(app.instance.is_some(), app.user.is_some());
        assert_eq!(app.user.is_some(), app.user_id.is_some());
    }
}

#[test]
fn register_screen_only_on_request() {
    let mut app = TestApp::new();
    app.update(Message::UsernameUpdate("x".to_string()));
    app.update(Message::SwitchChannel(1));
    assert_ne!(app.current_view, Screen::Register);
    app.update(Message::Register);
    assert_eq!(app.current_view, Screen::Register);
    app.update(Message::PasswordUpdate("y".to_string()));
    assert_eq!(app.current_view, Screen::Register);
    app.update(Message::LoginSuccess("i", "u", 2, None));
    assert_eq!(app.current_view, Screen::MainView);
}

#[test]
fn logged_in_exactly_after_unrevoked_login() {
    let mut app = TestApp::new();
    let script: Vec<(TestMessage, bool)> = vec![
        (Message::Logout, false),
        (Message::LoginSuccess("i", "u", 1, None), true),
        (Message::SwitchGuild(3), true),
        (Message::MessageSent, true),
        (Message::LogoutCleanup, false),
        (Message::SubmitLogin, false),
        (Message::LoginSuccess("i", "u", 2, None), true),
        (Message::LoginSuccess("j", "v", 3, None), true),
        (Message::Logout, false),
        (Message::Login, false),
    ];
    for (m, expected) in script {
        app.update(m);
        assert_eq!(app.user.is_some(), expected);
        assert_eq!(app.instance.is_some(), expected);
        assert_eq!(app.user_id.is_some(), expected);
    }
}
