use vstd::prelude::*;
use crate::message::{GuildInfo, Message};

verus! {

/// The screen the client shows.
#[derive(Debug, Clone, Copy, PartialEq, Eq, Structural)]
pub enum Screen {
    Login,
    Register,
    MainView,
}

/// The outside work that an event asks for. The driver performs it and
/// feeds the outcome back as a [`Message`].
#[derive(Debug, Clone)]
pub enum Action {
    /// Nothing to do.
    Idle,
    /// Connect to the instance at `instance_url`, log in with `username` and
    /// `password`, list the user's guilds, and answer with
    /// `Message::LoginSuccess`.
    Login { instance_url: String, username: String, password: String },
    /// Send `content` to `channel` when there is one, then answer with
    /// `Message::MessageSent` in either case.
    SendMessage { channel: Option<u64>, content: String },
    /// Fetch the messages of `channel` and answer with
    /// `Message::UpdateMessages`.
    FetchMessages { channel: u64 },
}

/// A gateway event stream the client listens to.
#[derive(Debug, Clone, Copy, PartialEq, Eq, Structural)]
pub enum GatewayFeed {
    Ready,
    MessageCreate,
}

/// The whole state of the client.
///
/// `instance` and `user` are the handles of the live session, `user_id`
/// the identifier of the logged-in user; the three are set and dropped
/// together (see [`App::session_consistent`]).
#[derive(Debug, Clone)]
pub struct App<I, U> {
    pub current_view: Screen,
    pub username: String,
    pub password: String,
    pub instance_url: String,
    pub instance: Option<I>,
    pub user: Option<U>,
    pub user_id: Option<u64>,
    pub current_guild: Option<u64>,
    pub current_channel: Option<u64>,
    pub message_input: String,
    pub guilds: Option<Vec<GuildInfo>>,
    pub messages: Option<Vec<String>>,
}

/// The instance a fresh client offers to log in to.
pub open spec fn default_instance_url() -> Seq<char> {
    "https://spacebar.greysilly7.xyz"@
}

impl<I, U> App<I, U> {
    /// The session handles are either all present (logged in) or all absent.
    pub open spec fn session_consistent(self) -> bool {
        &&& self.instance.is_some() == self.user.is_some()
        &&& self.user.is_some() == self.user_id.is_some()
    }

    /// The state of a fresh client: the login screen, an empty form that
    /// offers the default instance, no session and nothing selected.
    pub open spec fn is_fresh(self) -> bool {
        &&& self.current_view == Screen::Login
        &&& self.username@ == Seq::<char>::empty()
        &&& self.password@ == Seq::<char>::empty()
        &&& self.instance_url@ == default_instance_url()
        &&& self.instance.is_none()
        &&& self.user.is_none()
        &&& self.user_id.is_none()
        &&& self.current_guild.is_none()
        &&& self.current_channel.is_none()
        &&& self.message_input@ == Seq::<char>::empty()
        &&& self.guilds.is_none()
        &&& self.messages.is_none()
    }

    /// A user is logged in.
    pub open spec fn logged_in(self) -> bool {
        self.user.is_some()
    }

    /// The state a gateway message with this author leads to a refetch of
    /// the current channel in: logged in, a guild and a channel selected, the
    /// author known and not the logged-in user.
    pub open spec fn refetch_channel(self, author: Option<u64>) -> Option<u64> {
        if self.user.is_some() && self.current_guild.is_some()
            && self.current_channel.is_some() && author.is_some()
            && self.user_id != author {
            self.current_channel
        } else {
            None
        }
    }

    /// What an event does to the client: `next` is the state it leads to and
    /// `action` the outside work it asks for.
    pub open spec fn step(self, message: Message<I, U>, next: Self, action: Action) -> bool {
        match message {
            Message::Login => next == (App { current_view: Screen::Login, ..self }) && action == Action::Idle,
            Message::Register => next == (App { current_view: Screen::Register, ..self }) && action == Action::Idle,
            Message::MainView => next == (App { current_view: Screen::MainView, ..self }) && action == Action::Idle,
            Message::UsernameUpdate(s) => next == (App { username: s, ..self }) && action == Action::Idle,
            Message::PasswordUpdate(s) => next == (App { password: s, ..self }) && action == Action::Idle,
            Message::InstanceUrlUpdate(s) => next == (App { instance_url: s, ..self }) && action == Action::Idle,
            Message::SubmitLogin => next == self && action == (Action::Login {
                instance_url: self.instance_url,
                username: self.username,
                password: self.password,
            }),
            Message::LoginSuccess(instance, user, id, guilds) => next == (App {
                instance: Some(instance),
                user: Some(user),
                user_id: Some(id),
                guilds: guilds,
                current_view: Screen::MainView,
                ..self
            }) && action == Action::Idle,
            Message::Logout => next == (App {
                instance: None,
                user: None,
                user_id: None,
                current_view: Screen::Login,
                ..self
            }) && action == Action::Idle,
            Message::LogoutCleanup => next == (App {
                instance: None,
                user: None,
                user_id: None,
                guilds: None,
                current_view: Screen::Login,
                ..self
            }) && action == Action::Idle,
            Message::SwitchGuild(id) => next == (App { current_guild: Some(id), ..self }) && action == Action::Idle,
            Message::SwitchChannel(id) => next == (App { current_channel: Some(id), ..self }) && action == Action::Idle,
            Message::SendMessage => next == self && action == (Action::SendMessage {
                channel: if self.user.is_some() { self.current_channel } else { None },
                content: self.message_input,
            }),
            Message::MessageInputUpdate(s) => next == (App { message_input: s, ..self }) && action == Action::Idle,
            Message::MessageSent => {
                &&& next == (App { message_input: next.message_input, ..self })
                &&& next.message_input@ == Seq::<char>::empty()
                &&& action == Action::Idle
            },
            Message::UpdateGuilds(guilds) => next == (App { guilds: Some(guilds), ..self }) && action == Action::Idle,
            Message::UpdateChannels(_) => next == self && action == Action::Idle,
            Message::UpdateMessages(messages) => next == (App { messages: Some(messages), ..self }) && action == Action::Idle,
            Message::ReadyRecieved => next == self && action == Action::Idle,
            Message::MessageCreateReceived(author) => next == self && action == (match self.refetch_channel(author) {
                Some(channel) => Action::FetchMessages { channel },
                None => Action::Idle,
            }),
        }
    }

    /// A fresh client: the login screen, an empty form that offers the
    /// default instance, no session and nothing selected. The user name and
    /// password start empty on purpose: no credentials are built in.
    pub fn new() -> (app: Self)
        ensures
            app.is_fresh(),
    {
        App {
            current_view: Screen::Login,
            username: String::new(),
            password: String::new(),
            instance_url: String::from_str("https://spacebar.greysilly7.xyz"),
            instance: None,
            user: None,
            user_id: None,
            current_guild: None,
            current_channel: None,
            message_input: String::new(),
            guilds: None,
            messages: None,
        }
    }

    /// Reacts to an event: moves to the state that [`App::step`] gives and
    /// returns the outside work it asks for.
    pub fn update(&mut self, message: Message<I, U>) -> (action: Action)
        ensures
            old(self).step(message, *final(self), action),
            old(self).session_consistent() ==> final(self).session_consistent(),
    {
        match message {
            Message::Login => {
                self.current_view = Screen::Login;
                Action::Idle
            },
            Message::Register => {
                self.current_view = Screen::Register;
                Action::Idle
            },
            Message::MainView => {
                self.current_view = Screen::MainView;
                Action::Idle
            },
            Message::UsernameUpdate(s) => {
                self.username = s;
                Action::Idle
            },
            Message::PasswordUpdate(s) => {
                self.password = s;
                Action::Idle
            },
            Message::InstanceUrlUpdate(s) => {
                self.instance_url = s;
                Action::Idle
            },
            Message::SubmitLogin => Action::Login {
                instance_url: self.instance_url.clone(),
                username: self.username.clone(),
                password: self.password.clone(),
            },
            Message::LoginSuccess(instance, user, id, guilds) => {
                self.instance = Some(instance);
                self.user = Some(user);
                self.user_id = Some(id);
                self.guilds = guilds;
                self.current_view = Screen::MainView;
                Action::Idle
            },
            Message::Logout => {
                self.instance = None;
                self.user = None;
                self.user_id = None;
                self.current_view = Screen::Login;
                Action::Idle
            },
            Message::LogoutCleanup => {
                self.instance = None;
                self.user = None;
                self.user_id = None;
                self.guilds = None;
                self.current_view = Screen::Login;
                Action::Idle
            },
            Message::SwitchGuild(id) => {
                self.current_guild = Some(id);
                Action::Idle
            },
            Message::SwitchChannel(id) => {
                self.current_channel = Some(id);
                Action::Idle
            },
            Message::SendMessage => {
                let channel = if self.user.is_some() { self.current_channel } else { None };
                Action::SendMessage { channel, content: self.message_input.clone() }
            },
            Message::MessageInputUpdate(s) => {
                self.message_input = s;
                Action::Idle
            },
            Message::MessageSent => {
                self.message_input = String::new();
                Action::Idle
            },
            Message::UpdateGuilds(guilds) => {
                self.guilds = Some(guilds);
                Action::Idle
            },
            Message::UpdateChannels(_) => Action::Idle,
            Message::UpdateMessages(messages) => {
                self.messages = Some(messages);
                Action::Idle
            },
            Message::ReadyRecieved => Action::Idle,
            Message::MessageCreateReceived(author) => {
                if self.user.is_none() {
                    return Action::Idle;
                }
                if self.current_guild.is_none() {
                    return Action::Idle;
                }
                let channel = match self.current_channel {
                    Some(c) => c,
                    None => return Action::Idle,
                };
                let author_id = match author {
                    Some(id) => id,
                    None => return Action::Idle,
                };
                if self.user_id == Some(author_id) {
                    return Action::Idle;
                }
                Action::FetchMessages { channel }
            },
        }
    }

    /// The gateway streams the client listens to: both while a user is
    /// logged in, none otherwise.
    pub fn gateway_subscriptions(&self) -> (feeds: Vec<GatewayFeed>)
        ensures
            self.logged_in() ==> feeds@ == seq![GatewayFeed::Ready, GatewayFeed::MessageCreate],
            !self.logged_in() ==> feeds@ == Seq::<GatewayFeed>::empty(),
    {
        let mut feeds = Vec::new();
        if self.user.is_some() {
            feeds.push(GatewayFeed::Ready);
            feeds.push(GatewayFeed::MessageCreate);
        }
        feeds
    }
}

} // verus!
