use vstd::prelude::*;
use crate::client::App;
use crate::message::Message;

verus! {

/// Which form value a text input edits.
#[derive(Debug, Clone, Copy, PartialEq, Eq, Structural)]
pub enum FormInput {
    Username,
    Password,
    InstanceUrl,
}

impl FormInput {
    /// The event that typing `text` into this input sends.
    pub open spec fn input_message<I, U>(self, text: String) -> Message<I, U> {
        match self {
            FormInput::Username => Message::<I, U>::UsernameUpdate(text),
            FormInput::Password => Message::<I, U>::PasswordUpdate(text),
            FormInput::InstanceUrl => Message::<I, U>::InstanceUrlUpdate(text),
        }
    }

    /// The value of `app` that this input edits.
    pub open spec fn value_in<I, U>(self, app: App<I, U>) -> String {
        match self {
            FormInput::Username => app.username,
            FormInput::Password => app.password,
            FormInput::InstanceUrl => app.instance_url,
        }
    }

    /// The event that typing `text` into this input sends.
    pub fn on_input<I, U>(self, text: String) -> (m: Message<I, U>)
        ensures
            m == self.input_message::<I, U>(text),
    {
        match self {
            FormInput::Username => Message::UsernameUpdate(text),
            FormInput::Password => Message::PasswordUpdate(text),
            FormInput::InstanceUrl => Message::InstanceUrlUpdate(text),
        }
    }
}

/// A text input of the login form: its placeholder, the value it shows, and
/// the form value it edits.
#[derive(Debug, Clone)]
pub struct TextInput {
    pub placeholder: String,
    pub value: String,
    pub edits: FormInput,
}

/// The login screen: a title, three inputs from top to bottom, and a submit
/// button whose press sends `Message::SubmitLogin`.
#[derive(Debug, Clone)]
pub struct LoginForm {
    pub title: String,
    pub email: TextInput,
    pub password: TextInput,
    pub instance_url: TextInput,
    pub submit_label: String,
}

impl LoginForm {
    /// The event that pressing the submit button sends.
    pub fn on_submit<I, U>(&self) -> (m: Message<I, U>)
        ensures
            m == Message::<I, U>::SubmitLogin,
    {
        Message::SubmitLogin
    }
}

/// `form` is the login screen for the state `app`: each input shows the
/// value the state holds for it.
pub open spec fn is_login_form_for<I, U>(app: App<I, U>, form: LoginForm) -> bool {
    &&& form.title@ == "Login"@
    &&& form.email.placeholder@ == "Email"@
    &&& form.email.value@ == app.username@
    &&& form.email.edits == FormInput::Username
    &&& form.password.placeholder@ == "Password"@
    &&& form.password.value@ == app.password@
    &&& form.password.edits == FormInput::Password
    &&& form.instance_url.placeholder@ == "Instance URL"@
    &&& form.instance_url.value@ == app.instance_url@
    &&& form.instance_url.edits == FormInput::InstanceUrl
    &&& form.submit_label@ == "Login"@
}

pub fn login_view<I, U>(app: &App<I, U>) -> (form: LoginForm)
    ensures
        is_login_form_for(*app, form),
{
    LoginForm {
        title: String::from_str("Login"),
        email: TextInput {
            placeholder: String::from_str("Email"),
            value: app.username.clone(),
            edits: FormInput::Username,
        },
        password: TextInput {
            placeholder: String::from_str("Password"),
            value: app.password.clone(),
            edits: FormInput::Password,
        },
        instance_url: TextInput {
            placeholder: String::from_str("Instance URL"),
            value: app.instance_url.clone(),
            edits: FormInput::InstanceUrl,
        },
        submit_label: String::from_str("Login"),
    }
}

} // verus!
