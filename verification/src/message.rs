use vstd::prelude::*;

verus! {

/// What the client knows of a guild: the identifier it is switched to by,
/// and its display name, if the server sent one.
#[derive(Debug, Clone)]
pub struct GuildInfo {
    pub id: u64,
    pub name: Option<String>,
}

/// What the client knows of a channel of a guild.
#[derive(Debug, Clone)]
pub struct ChannelInfo {
    pub id: u64,
    pub name: Option<String>,
}

/// The author of a chat message, as far as the chat area shows it.
#[derive(Debug, Clone)]
pub struct ChatAuthor {
    pub username: Option<String>,
}

/// A message of a channel, as far as the chat area reads it.
///
/// The moment it was sent is kept as whole seconds since the epoch and the
/// nanoseconds within that second; messages are ordered by this pair.
#[derive(Debug, Clone)]
pub struct ChatMessage {
    pub sent_secs: i64,
    pub sent_nanos: u32,
    pub author: Option<ChatAuthor>,
    pub content: Option<String>,
}

/// An event the client reacts to: a user action on a screen, or the outcome
/// of work the client asked for (a login, a sent message, a fetch, a gateway
/// event).
///
/// `I` and `U` are the handles of a live session (the connection to an
/// instance, and the logged-in user); the state machine stores and drops
/// them but never looks inside.
#[derive(Debug, Clone)]
pub enum Message<I, U> {
    Login,
    Register,
    MainView,
    UsernameUpdate(String),
    PasswordUpdate(String),
    InstanceUrlUpdate(String),
    SubmitLogin,
    /// A login went through: the instance, the user, the user's identifier,
    /// and the user's guilds if they could be listed.
    LoginSuccess(I, U, u64, Option<Vec<GuildInfo>>),
    LogoutCleanup,
    Logout,
    SwitchGuild(u64),
    SwitchChannel(u64),
    MessageInputUpdate(String),
    SendMessage,
    MessageSent,
    UpdateGuilds(Vec<GuildInfo>),
    UpdateChannels(Vec<u64>),
    UpdateMessages(Vec<String>),
    /// The gateway reported that the session is ready.
    ReadyRecieved,
    /// The gateway reported a new message; it carries the identifier of the
    /// member who wrote it, when the event names one.
    MessageCreateReceived(Option<u64>),
}

} // verus!
