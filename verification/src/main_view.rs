use vstd::prelude::*;
use crate::chat::{chat_lines, is_chat_order, lines_in_order};
use crate::client::{App, Screen};
use crate::login::{is_login_form_for, login_view, LoginForm};
use crate::message::{ChannelInfo, ChatMessage, GuildInfo, Message};

verus! {

/// Whether a side-column button switches the guild or the channel.
#[derive(Debug, Clone, Copy, PartialEq, Eq, Structural)]
pub enum NavKind {
    Guild,
    Channel,
}

/// A button of a side column: its label, the guild or channel that pressing
/// it switches to, and which of the two it is.
#[derive(Debug, Clone)]
pub struct NavEntry {
    pub label: String,
    pub target: u64,
    pub kind: NavKind,
}

impl NavEntry {
    /// The event that pressing this button sends.
    pub open spec fn press_message<I, U>(self) -> Message<I, U> {
        match self.kind {
            NavKind::Guild => Message::<I, U>::SwitchGuild(self.target),
            NavKind::Channel => Message::<I, U>::SwitchChannel(self.target),
        }
    }

    /// The event that pressing this button sends.
    pub fn on_press<I, U>(&self) -> (m: Message<I, U>)
        ensures
            m == self.press_message::<I, U>(),
    {
        match self.kind {
            NavKind::Guild => Message::SwitchGuild(self.target),
            NavKind::Channel => Message::SwitchChannel(self.target),
        }
    }
}

/// The guild column.
#[derive(Debug, Clone)]
pub enum GuildColumn {
    /// The guilds are not known: the heading and a note that says so.
    NoGuilds { heading: String, text: String },
    /// The heading and one button per guild, in the order the guilds were
    /// listed.
    Guilds { heading: String, entries: Vec<NavEntry> },
}

/// The channel column.
#[derive(Debug, Clone)]
pub enum ChannelColumn {
    /// No guild is selected, or the selected one is not among the known
    /// guilds: a note that says so.
    NoGuildSelected { text: String },
    /// One button per channel of the selected guild.
    Channels(Vec<NavEntry>),
}

/// The chat area.
#[derive(Debug, Clone)]
pub enum ChatArea {
    /// No channel is selected: a note that says so.
    NothingSelected { text: String },
    /// The channel's messages, oldest first, the message input (its
    /// placeholder and the text being typed) and the send button's label.
    Conversation { lines: Vec<String>, input: String, placeholder: String, send_label: String },
}

impl ChatArea {
    /// The event that typing `text` into the message input sends.
    pub fn on_input<I, U>(text: String) -> (m: Message<I, U>)
        ensures
            m == Message::<I, U>::MessageInputUpdate(text),
    {
        Message::MessageInputUpdate(text)
    }

    /// The event that pressing the send button sends.
    pub fn on_send<I, U>() -> (m: Message<I, U>)
        ensures
            m == Message::<I, U>::SendMessage,
    {
        Message::SendMessage
    }
}

/// The main screen: the two side columns and the chat area.
#[derive(Debug, Clone)]
pub struct MainView {
    pub guilds: GuildColumn,
    pub channels: ChannelColumn,
    pub chat: ChatArea,
}

/// What the client shows.
#[derive(Debug, Clone)]
pub enum ScreenView {
    Login(LoginForm),
    Main(MainView),
}

/// The label of a button: the name, or `fallback` when there is none.
pub open spec fn label_text(name: Option<String>, fallback: Seq<char>) -> Seq<char> {
    match name {
        Some(n) => n@,
        None => fallback,
    }
}

/// `entries` has one button per guild of `guilds`, in the same order.
pub open spec fn guild_entries(entries: Seq<NavEntry>, guilds: Seq<GuildInfo>) -> bool {
    &&& entries.len() == guilds.len()
    &&& forall|i: int| 0 <= i < entries.len() ==> {
        &&& (#[trigger] entries[i]).target == guilds[i].id
        &&& entries[i].kind == NavKind::Guild
        &&& entries[i].label@ == label_text(guilds[i].name, "Unnamed Guild"@)
    }
}

/// `entries` has one button per channel of `channels`, in the same order.
pub open spec fn channel_entries(entries: Seq<NavEntry>, channels: Seq<ChannelInfo>) -> bool {
    &&& entries.len() == channels.len()
    &&& forall|i: int| 0 <= i < entries.len() ==> {
        &&& (#[trigger] entries[i]).target == channels[i].id
        &&& entries[i].kind == NavKind::Channel
        &&& entries[i].label@ == label_text(channels[i].name, "Unnamed Channel"@)
    }
}

/// The guild whose channels the main screen lists: the selected guild, when
/// it is among the known guilds.
pub open spec fn guild_to_load<I, U>(app: App<I, U>) -> Option<u64> {
    if app.current_guild is Some && app.guilds is Some && exists|i: int|
        0 <= i < app.guilds->0@.len() && (#[trigger] app.guilds->0@[i]).id == app.current_guild->0 {
        app.current_guild
    } else {
        None
    }
}

/// `column` is the guild column for `app`.
pub open spec fn is_guild_column_for<I, U>(app: App<I, U>, column: GuildColumn) -> bool {
    match app.guilds {
        Some(gs) => column matches GuildColumn::Guilds { heading, entries }
            && heading@ == "Guilds"@ && guild_entries(entries@, gs@),
        None => column matches GuildColumn::NoGuilds { heading, text }
            && heading@ == "Guilds"@ && text@ == "No guilds available"@,
    }
}

/// `column` is the channel column for `app`, where `channels` are the
/// channels fetched for [`guild_to_load`].
pub open spec fn is_channel_column_for<I, U>(
    app: App<I, U>,
    channels: Seq<ChannelInfo>,
    column: ChannelColumn,
) -> bool {
    match guild_to_load(app) {
        Some(_) => column matches ChannelColumn::Channels(es) && channel_entries(es@, channels),
        None => column matches ChannelColumn::NoGuildSelected { text } && text@ == "No guild selected"@,
    }
}

/// `area` is the chat area for `app`, where `msgs` are the messages fetched
/// for the selected channel.
pub open spec fn is_chat_area_for<I, U>(app: App<I, U>, msgs: Seq<ChatMessage>, area: ChatArea) -> bool {
    match app.current_channel {
        Some(_) => area matches ChatArea::Conversation { lines, input, placeholder, send_label } && {
            &&& input@ == app.message_input@
            &&& placeholder@ == "Type a message..."@
            &&& send_label@ == "Send"@
            &&& exists|order: Seq<usize>| is_chat_order(msgs, order) && lines_in_order(msgs, order, lines@)
        },
        None => area matches ChatArea::NothingSelected { text } && text@ == "No guild or channel selected!"@,
    }
}

fn label_or(name: &Option<String>, fallback: &str) -> (label: String)
    ensures
        label@ == label_text(*name, fallback@),
{
    match name {
        Some(n) => n.clone(),
        None => String::from_str(fallback),
    }
}

/// The guild column for `app`.
pub fn build_guilds_column<I, U>(app: &App<I, U>) -> (column: GuildColumn)
    ensures
        is_guild_column_for(*app, column),
{
    match &app.guilds {
        None => GuildColumn::NoGuilds {
            heading: String::from_str("Guilds"),
            text: String::from_str("No guilds available"),
        },
        Some(guilds) => {
            let mut entries: Vec<NavEntry> = Vec::new();
            let mut i: usize = 0;
            while i < guilds.len()
                invariant
                    i <= guilds.len(),
                    entries.len() == i,
                    forall|j: int| 0 <= j < i ==> {
                        &&& (#[trigger] entries[j]).target == guilds[j].id
                        &&& entries[j].kind == NavKind::Guild
                        &&& entries[j].label@ == label_text(guilds[j].name, "Unnamed Guild"@)
                    },
                decreases guilds.len() - i,
            {
                let label = label_or(&guilds[i].name, "Unnamed Guild");
                entries.push(NavEntry { label, target: guilds[i].id, kind: NavKind::Guild });
                i = i + 1;
            }
            GuildColumn::Guilds { heading: String::from_str("Guilds"), entries }
        },
    }
}

/// The guild whose channels the main screen lists, if any (see
/// [`guild_to_load`]); the driver fetches that guild's channels before it
/// asks for the main screen.
pub fn channels_to_load<I, U>(app: &App<I, U>) -> (guild: Option<u64>)
    ensures
        guild == guild_to_load(*app),
{
    let g = match app.current_guild {
        Some(g) => g,
        None => return None,
    };
    let guilds = match &app.guilds {
        Some(gs) => gs,
        None => return None,
    };
    let mut i: usize = 0;
    while i < guilds.len()
        invariant
            i <= guilds.len(),
            app.guilds == Some(*guilds),
            app.current_guild == Some(g),
            forall|j: int| 0 <= j < i ==> (#[trigger] guilds@[j]).id != g,
        decreases guilds.len() - i,
    {
        if guilds[i].id == g {
            assert(app.guilds->0@[i as int].id == app.current_guild->0);
            return Some(g);
        }
        i = i + 1;
    }
    None
}

/// The channel column for `app`, where `channels` are the channels fetched
/// for [`channels_to_load`] (left unread when there is no such guild).
/// Fetching them takes the logged-in user, so when there is such a guild a
/// user must be logged in.
pub fn build_channels_column<I, U>(app: &App<I, U>, channels: &Vec<ChannelInfo>) -> (column: ChannelColumn)
    requires
        guild_to_load(*app) is Some ==> app.user is Some,
    ensures
        is_channel_column_for(*app, channels@, column),
{
    if channels_to_load(app).is_none() {
        return ChannelColumn::NoGuildSelected { text: String::from_str("No guild selected") };
    }
    let mut entries: Vec<NavEntry> = Vec::new();
    let mut i: usize = 0;
    while i < channels.len()
        invariant
            i <= channels.len(),
            entries.len() == i,
            forall|j: int| 0 <= j < i ==> {
                &&& (#[trigger] entries[j]).target == channels[j].id
                &&& entries[j].kind == NavKind::Channel
                &&& entries[j].label@ == label_text(channels[j].name, "Unnamed Channel"@)
            },
        decreases channels.len() - i,
    {
        let label = label_or(&channels[i].name, "Unnamed Channel");
        entries.push(NavEntry { label, target: channels[i].id, kind: NavKind::Channel });
        i = i + 1;
    }
    ChannelColumn::Channels(entries)
}

/// The chat area for `app`, where `messages` are the messages fetched for
/// the selected channel (left unread when no channel is selected).
/// Fetching them takes the logged-in user, so when a channel is selected a
/// user must be logged in.
pub fn build_chat_area<I, U>(app: &App<I, U>, messages: &Vec<ChatMessage>) -> (area: ChatArea)
    requires
        app.current_channel is Some ==> app.user is Some,
    ensures
        is_chat_area_for(*app, messages@, area),
{
    match app.current_channel {
        Some(_) => ChatArea::Conversation {
            lines: chat_lines(messages),
            input: app.message_input.clone(),
            placeholder: String::from_str("Type a message..."),
            send_label: String::from_str("Send"),
        },
        None => ChatArea::NothingSelected { text: String::from_str("No guild or channel selected!") },
    }
}

/// The main screen for `app`, from the channels and messages fetched for it.
pub fn main_view<I, U>(app: &App<I, U>, channels: &Vec<ChannelInfo>, messages: &Vec<ChatMessage>) -> (view: MainView)
    requires
        guild_to_load(*app) is Some ==> app.user is Some,
        app.current_channel is Some ==> app.user is Some,
    ensures
        is_guild_column_for(*app, view.guilds),
        is_channel_column_for(*app, channels@, view.channels),
        is_chat_area_for(*app, messages@, view.chat),
{
    MainView {
        guilds: build_guilds_column(app),
        channels: build_channels_column(app, channels),
        chat: build_chat_area(app, messages),
    }
}

/// What the client shows for `app`. The register screen has no content,
/// so the state must not be on it; on the main screen, the fetches for a
/// found selected guild or a selected channel take the logged-in user.
pub fn screen_view<I, U>(app: &App<I, U>, channels: &Vec<ChannelInfo>, messages: &Vec<ChatMessage>) -> (view: ScreenView)
    requires
        app.current_view != Screen::Register,
        app.current_view == Screen::MainView ==> (guild_to_load(*app) is Some ==> app.user is Some),
        app.current_view == Screen::MainView ==> (app.current_channel is Some ==> app.user is Some),
    ensures
        app.current_view == Screen::Login ==> (view matches ScreenView::Login(form) && is_login_form_for(*app, form)),
        app.current_view == Screen::MainView ==> (view matches ScreenView::Main(main) && {
            &&& is_guild_column_for(*app, main.guilds)
            &&& is_channel_column_for(*app, channels@, main.channels)
            &&& is_chat_area_for(*app, messages@, main.chat)
        }),
{
    match app.current_view {
        Screen::MainView => ScreenView::Main(main_view(app, channels, messages)),
        _ => ScreenView::Login(login_view(app)),
    }
}

} // verus!
