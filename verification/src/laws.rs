use vstd::prelude::*;
use crate::client::{Action, App, Screen};
use crate::login::FormInput;
use crate::main_view::guild_to_load;
use crate::message::{GuildInfo, Message};

verus! {

/// Every event keeps the session handles together: a client that has all
/// of them or none of them still has all or none after the event.
pub proof fn law_session_stays_consistent<I, U>(s: App<I, U>, m: Message<I, U>, next: App<I, U>, action: Action)
    requires
        s.session_consistent(),
        s.step(m, next, action),
    ensures
        next.session_consistent(),
{
}

/// Typing into an input of the login form stores exactly the typed text in
/// the value that input edits, asks for nothing, and keeps the screen.
pub proof fn law_typed_text_is_kept<I, U>(
    s: App<I, U>,
    input: FormInput,
    text: String,
    next: App<I, U>,
    action: Action,
)
    requires
        s.step(input.input_message::<I, U>(text), next, action),
    ensures
        input.value_in(next) == text,
        forall|other: FormInput| other != input ==> #[trigger] other.value_in(next) == other.value_in(s),
        next.current_view == s.current_view,
        next.user == s.user,
        next.message_input == s.message_input,
        action == Action::Idle,
{
}

/// Submitting the login form leaves the state as it is and asks for a
/// login with exactly the values the form holds.
pub proof fn law_submit_uses_form<I, U>(s: App<I, U>, next: App<I, U>, action: Action)
    requires
        s.step(Message::SubmitLogin, next, action),
    ensures
        next == s,
        action == (Action::Login {
            instance_url: s.instance_url,
            username: s.username,
            password: s.password,
        }),
{
}

/// A successful login opens the main screen with the new session and the
/// guilds that came with it.
pub proof fn law_login_opens_main_screen<I, U>(
    s: App<I, U>,
    instance: I,
    user: U,
    id: u64,
    guilds: Option<Vec<GuildInfo>>,
    next: App<I, U>,
    action: Action,
)
    requires
        s.step(Message::LoginSuccess(instance, user, id, guilds), next, action),
    ensures
        next.logged_in(),
        next.session_consistent(),
        next.user_id == Some(id),
        next.guilds == guilds,
        next.current_view == Screen::MainView,
        action == Action::Idle,
{
}

/// Logging out ends the session and returns to the login screen; it keeps
/// the guild list and the selection. The cleanup event also forgets the
/// guild list.
pub proof fn law_logout_ends_session<I, U>(
    s: App<I, U>,
    cleanup: bool,
    next: App<I, U>,
    action: Action,
)
    requires
        s.step(if cleanup { Message::LogoutCleanup } else { Message::Logout }, next, action),
    ensures
        !next.logged_in(),
        next.session_consistent(),
        next.current_view == Screen::Login,
        next.current_guild == s.current_guild,
        next.current_channel == s.current_channel,
        cleanup ==> next.guilds is None,
        !cleanup ==> next.guilds == s.guilds,
        action == Action::Idle,
{
}

/// Sending a message hands over the text being typed, to the selected
/// channel only while a user is logged in; once the send is reported the
/// input is empty and nothing else has changed.
pub proof fn law_send_then_clear<I, U>(
    s: App<I, U>,
    mid: App<I, U>,
    sent: Action,
    last: App<I, U>,
    idle: Action,
)
    requires
        s.step(Message::SendMessage, mid, sent),
        mid.step(Message::MessageSent, last, idle),
    ensures
        sent == (Action::SendMessage {
            channel: if s.logged_in() { s.current_channel } else { None },
            content: s.message_input,
        }),
        last.message_input@ == Seq::<char>::empty(),
        last == (App { message_input: last.message_input, ..s }),
        idle == Action::Idle,
{
}

/// A message written by the logged-in user is ignored: nothing changes and
/// nothing is fetched.
pub proof fn law_own_messages_ignored<I, U>(s: App<I, U>, author: u64, next: App<I, U>, action: Action)
    requires
        s.user_id == Some(author),
        s.step(Message::MessageCreateReceived(Some(author)), next, action),
    ensures
        next == s,
        action == Action::Idle,
{
}

/// A gateway message leads to a refetch only of the selected channel, only
/// while a user is logged in and a guild is selected, and only when it was
/// written by someone else; it never changes the state.
pub proof fn law_refetch_only_current_channel<I, U>(
    s: App<I, U>,
    author: Option<u64>,
    next: App<I, U>,
    action: Action,
)
    requires
        s.step(Message::MessageCreateReceived(author), next, action),
    ensures
        next == s,
        action matches Action::FetchMessages { channel } ==> {
            &&& s.logged_in()
            &&& s.current_guild is Some
            &&& s.current_channel == Some(channel)
            &&& author is Some
            &&& s.user_id != author
        },
        (s.logged_in() && s.current_guild is Some && s.current_channel is Some && author is Some
            && s.user_id != author) ==> action == (Action::FetchMessages { channel: s.current_channel->0 }),
        !(action is FetchMessages) ==> action == Action::Idle,
{
}

/// Reports that carry nothing for the screen leave the state as it is and
/// ask for nothing.
pub proof fn law_reports_change_nothing<I, U>(
    s: App<I, U>,
    channels: Vec<u64>,
    ready: bool,
    next: App<I, U>,
    action: Action,
)
    requires
        s.step(if ready { Message::ReadyRecieved } else { Message::UpdateChannels(channels) }, next, action),
    ensures
        next == s,
        action == Action::Idle,
{
}

/// Only the register event leads to the register screen (which has no
/// content); every other event leads away from it or keeps the screen.
pub proof fn law_register_screen_only_on_request<I, U>(
    s: App<I, U>,
    m: Message<I, U>,
    next: App<I, U>,
    action: Action,
)
    requires
        s.step(m, next, action),
        next.current_view == Screen::Register,
    ensures
        m is Register || s.current_view == Screen::Register,
{
}

/// The event ends the session.
pub open spec fn is_logout<I, U>(m: Message<I, U>) -> bool {
    m is Logout || m is LogoutCleanup
}

/// Among the events `msgs`, some login succeeded and no logout came after
/// the last successful login.
pub open spec fn login_outlasts_logouts<I, U>(msgs: Seq<Message<I, U>>) -> bool {
    exists|i: int|
        0 <= i < msgs.len() && (#[trigger] msgs[i]) is LoginSuccess
            && forall|j: int| i < j < msgs.len() ==> !is_logout(#[trigger] msgs[j])
}

/// `states` and `actions` are what the client goes through on the events
/// `msgs`: each event takes `states[k]` to `states[k + 1]` and asks for
/// `actions[k]`.
pub open spec fn is_run<I, U>(states: Seq<App<I, U>>, msgs: Seq<Message<I, U>>, actions: Seq<Action>) -> bool {
    &&& states.len() == msgs.len() + 1
    &&& actions.len() == msgs.len()
    &&& forall|k: int| 0 <= k < msgs.len() ==> #[trigger] states[k].step(msgs[k], states[k + 1], actions[k])
}

/// From a fresh client, after any events, the session handles are all set
/// or all absent, and a user is logged in exactly when some login succeeded
/// and no logout (plain or with cleanup) came after the last one.
pub proof fn law_session_follows_last_login<I, U>(
    states: Seq<App<I, U>>,
    msgs: Seq<Message<I, U>>,
    actions: Seq<Action>,
)
    requires
        is_run(states, msgs, actions),
        states[0].is_fresh(),
    ensures
        states.last().session_consistent(),
        states.last().logged_in() == login_outlasts_logouts(msgs),
    decreases msgs.len(),
{
    if msgs.len() > 0 {
        let n = msgs.len() - 1;
        let pre_states = states.drop_last();
        let pre_msgs = msgs.drop_last();
        let pre_actions = actions.drop_last();
        assert forall|k: int| 0 <= k < pre_msgs.len() implies #[trigger] pre_states[k].step(
            pre_msgs[k],
            pre_states[k + 1],
            pre_actions[k],
        ) by {
            assert(states[k].step(msgs[k], states[k + 1], actions[k]));
        }
        law_session_follows_last_login(pre_states, pre_msgs, pre_actions);
        let s = states[n];
        let m = msgs[n];
        assert(s == pre_states.last());
        assert(s.step(m, states[n + 1], actions[n]));
        if m is LoginSuccess {
            assert(login_outlasts_logouts(msgs));
        } else if is_logout(m) {
            assert(!login_outlasts_logouts(msgs)) by {
                if login_outlasts_logouts(msgs) {
                    let i = choose|i: int|
                        0 <= i < msgs.len() && (#[trigger] msgs[i]) is LoginSuccess
                            && forall|j: int| i < j < msgs.len() ==> !is_logout(#[trigger] msgs[j]);
                    assert(i < n);
                    assert(!is_logout(msgs[n]));
                }
            }
        } else {
            assert(states[n + 1].user == s.user);
            assert(login_outlasts_logouts(msgs) == login_outlasts_logouts(pre_msgs)) by {
                if login_outlasts_logouts(pre_msgs) {
                    let i = choose|i: int|
                        0 <= i < pre_msgs.len() && (#[trigger] pre_msgs[i]) is LoginSuccess
                            && forall|j: int| i < j < pre_msgs.len() ==> !is_logout(#[trigger] pre_msgs[j]);
                    assert(msgs[i] == pre_msgs[i]);
                    assert forall|j: int| i < j < msgs.len() implies !is_logout(#[trigger] msgs[j]) by {
                        if j < n {
                            assert(msgs[j] == pre_msgs[j]);
                        }
                    }
                }
                if login_outlasts_logouts(msgs) {
                    let i = choose|i: int|
                        0 <= i < msgs.len() && (#[trigger] msgs[i]) is LoginSuccess
                            && forall|j: int| i < j < msgs.len() ==> !is_logout(#[trigger] msgs[j]);
                    assert(i < n);
                    assert(pre_msgs[i] == msgs[i]);
                    assert forall|j: int| i < j < pre_msgs.len() implies !is_logout(#[trigger] pre_msgs[j]) by {
                        assert(msgs[j] == pre_msgs[j]);
                    }
                }
            }
        }
    }
}

/// Typing into the login form and then submitting it asks for a login with
/// the text just typed in that input and, in the other two, the values they
/// held before: the user name, password and instance URL are independent.
pub proof fn law_submit_after_typing<I, U>(
    s: App<I, U>,
    input: FormInput,
    text: String,
    typed: App<I, U>,
    idle: Action,
    submitted: App<I, U>,
    login: Action,
)
    requires
        s.step(input.input_message::<I, U>(text), typed, idle),
        typed.step(Message::SubmitLogin, submitted, login),
    ensures
        login matches Action::Login { instance_url, username, password } && {
            &&& username == (if input == FormInput::Username { text } else { s.username })
            &&& password == (if input == FormInput::Password { text } else { s.password })
            &&& instance_url == (if input == FormInput::InstanceUrl { text } else { s.instance_url })
        },
{
}

/// Selecting a guild makes it the selected guild, whatever was selected
/// before; the selected channel, the session, the lists and the screen stay.
pub proof fn law_switch_guild<I, U>(s: App<I, U>, id: u64, next: App<I, U>, action: Action)
    requires
        s.step(Message::SwitchGuild(id), next, action),
    ensures
        next.current_guild == Some(id),
        next.current_channel == s.current_channel,
        next.user == s.user,
        next.user_id == s.user_id,
        next.guilds == s.guilds,
        next.messages == s.messages,
        next.current_view == s.current_view,
        action == Action::Idle,
{
}

/// Selecting a channel makes it the selected channel, whatever was
/// selected before; the selected guild, the session, the lists and the
/// screen stay.
pub proof fn law_switch_channel<I, U>(s: App<I, U>, id: u64, next: App<I, U>, action: Action)
    requires
        s.step(Message::SwitchChannel(id), next, action),
    ensures
        next.current_channel == Some(id),
        next.current_guild == s.current_guild,
        next.user == s.user,
        next.user_id == s.user_id,
        next.guilds == s.guilds,
        next.messages == s.messages,
        next.current_view == s.current_view,
        action == Action::Idle,
{
}

/// Two selections in a row leave the second one selected.
pub proof fn law_last_channel_switch_wins<I, U>(
    s: App<I, U>,
    first: u64,
    second: u64,
    mid: App<I, U>,
    a1: Action,
    last: App<I, U>,
    a2: Action,
)
    requires
        s.step(Message::SwitchChannel(first), mid, a1),
        mid.step(Message::SwitchChannel(second), last, a2),
    ensures
        last.current_channel == Some(second),
{
}

/// Fetched messages replace whatever was stored before: the stored list is
/// exactly the fetched one, and nothing else changes.
pub proof fn law_fetched_messages_replace<I, U>(
    s: App<I, U>,
    fetched: Vec<String>,
    next: App<I, U>,
    action: Action,
)
    requires
        s.step(Message::UpdateMessages(fetched), next, action),
    ensures
        next.messages == Some(fetched),
        next.messages->0@ == fetched@,
        next.guilds == s.guilds,
        next.current_channel == s.current_channel,
        next.user == s.user,
        next.current_view == s.current_view,
        action == Action::Idle,
{
}

/// A fetched guild list replaces whatever was stored before.
pub proof fn law_fetched_guilds_replace<I, U>(
    s: App<I, U>,
    fetched: Vec<GuildInfo>,
    next: App<I, U>,
    action: Action,
)
    requires
        s.step(Message::UpdateGuilds(fetched), next, action),
    ensures
        next.guilds == Some(fetched),
        next.guilds->0@ == fetched@,
        next.messages == s.messages,
        next.current_guild == s.current_guild,
        next.user == s.user,
        action == Action::Idle,
{
}

/// The main screen lists the channels of the selected guild whenever some
/// guild of the known list, at any position, has the selected id.
pub proof fn law_selected_guild_found_anywhere<I, U>(app: App<I, U>, g: u64, gs: Vec<GuildInfo>, i: int)
    requires
        app.current_guild == Some(g),
        app.guilds == Some(gs),
        0 <= i < gs@.len(),
        gs@[i].id == g,
    ensures
        guild_to_load(app) == Some(g),
{
    assert(app.guilds->0@[i].id == app.current_guild->0);
}

/// The main screen lists channels only for the selected guild, and only
/// when some known guild has its id.
pub proof fn law_channels_only_for_known_selected_guild<I, U>(app: App<I, U>, g: u64)
    requires
        guild_to_load(app) == Some(g),
    ensures
        app.current_guild == Some(g),
        app.guilds is Some,
        exists|i: int| 0 <= i < app.guilds->0@.len() && (#[trigger] app.guilds->0@[i]).id == g,
{
}

} // verus!
