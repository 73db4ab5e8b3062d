//! The login form.

use crate::api::request::{lines_of, Error};
use crate::api::{auth_user, User, UserRegistration, UserRegistrationView};
use crate::component::Command;
use crate::components::form::{entry, read_entry, show_errors, shows_errors};
use crate::route::{hash_of, Route, RouteView};
use crate::store::{message_of, write_result, write_user, written, Storage};
use crate::text::texts;
use crate::widgets::InputOrArea;
use vstd::prelude::*;
use vstd::string::*;

verus! {

/// The login form. It knows its two elements once they are built.
pub struct Login<T> {
    pub email_input: Option<T>,
    pub password_input: Option<T>,
}

/// What the login form is told.
pub enum In<T> {
    /// The element for the email is built; here it is.
    EmailInput(T),
    /// The element for the password is built; here it is.
    PasswordInput(T),
    /// The user asks to be logged in.
    Submit,
    /// The backend has logged the user in.
    LoginSuccess { user: User },
    /// The login has failed.
    LoginFailure { errors: Vec<String> },
}

/// What the login form tells its view.
pub type Out = crate::components::form::Out;

impl<T: InputOrArea> Default for Login<T> {
    /// A form whose elements are not built yet.
    fn default() -> (form: Login<T>)
        ensures
            form.email_input is None,
            form.password_input is None,
    {
        Login::new()
    }
}

impl<T: InputOrArea> Login<T> {
    /// A form whose elements are not built yet.
    pub fn new() -> (form: Login<T>)
        ensures
            form.email_input is None,
            form.password_input is None,
    {
        Login { email_input: None, password_input: None }
    }

    /// What the user has entered. A login names no user.
    pub fn get_login(&self) -> (login: UserRegistration)
        ensures
            login@ == (UserRegistrationView {
                email: entry(self.email_input),
                username: None,
                password: entry(self.password_input),
            }),
    {
        UserRegistration {
            username: None,
            email: read_entry(&self.email_input),
            password: read_entry(&self.password_input),
        }
    }

    /// The message that the answer of the backend to a login brings: the
    /// user where it has logged them in, else the lines of the error.
    pub fn authenticated(answer: Result<User, Error>) -> (msg: In<T>)
        ensures
            match answer {
                Ok(user) => msg matches In::LoginSuccess { user: told } && told@ == user@,
                Err(error) => msg matches In::LoginFailure { errors } && texts(errors@)
                    == lines_of(error@),
            },
    {
        match answer {
            Ok(user) => In::LoginSuccess { user },
            Err(error) => In::LoginFailure { errors: error.lines() },
        }
    }

    /// Answers one message.
    ///
    /// An element that is built is kept. A submission asks the backend to
    /// log in with what the user has entered. A user who is logged in is
    /// kept in the storage; then the location is set to the home page, or,
    /// where the storage has failed, the failure comes back as the next
    /// message. A failure is shown in the list of errors, line by line, in
    /// the place of what the list showed before.
    pub fn update(&mut self, msg: In<T>, storage: &mut Storage) -> (commands: Vec<
        Command<In<T>, Out>,
    >)
        ensures
            match msg {
                In::EmailInput(input) => {
                    &&& final(self).email_input == Some(input)
                    &&& final(self).password_input == old(self).password_input
                    &&& final(storage)@ == old(storage)@
                    &&& commands@.len() == 0
                },
                In::PasswordInput(input) => {
                    &&& final(self).email_input == old(self).email_input
                    &&& final(self).password_input == Some(input)
                    &&& final(storage)@ == old(storage)@
                    &&& commands@.len() == 0
                },
                In::Submit => {
                    &&& *final(self) == *old(self)
                    &&& final(storage)@ == old(storage)@
                    &&& commands@.len() == 1
                    &&& commands@[0] matches Command::Call(request) && request@.url
                        == crate::api::API_URL@ + "/users/login"@ && request@.method == "POST"@
                        && request@.body == Some(
                        crate::api::request::BodyView::Registration(
                            UserRegistrationView {
                                email: entry(old(self).email_input),
                                username: None,
                                password: entry(old(self).password_input),
                            },
                        ),
                    ) && request@.headers == crate::api::request::headers_for(None)
                },
                In::LoginSuccess { user } => {
                    &&& *final(self) == *old(self)
                    &&& final(storage)@ == written(old(storage)@, user@)
                    &&& commands@.len() == 1
                    &&& match write_result(old(storage)@, user@) {
                        Ok(_) => commands@[0] matches Command::SetHash(hash) && hash@ == hash_of(
                            RouteView::Home,
                        ),
                        Err(error) => commands@[0] matches Command::Later(
                            In::LoginFailure { errors },
                        ) && texts(errors@) == seq![message_of(error)],
                    }
                },
                In::LoginFailure { errors } => {
                    &&& *final(self) == *old(self)
                    &&& final(storage)@ == old(storage)@
                    &&& shows_errors(commands@, texts(errors@))
                },
            },
    {
        let mut commands: Vec<Command<In<T>, Out>> = Vec::new();
        match msg {
            In::EmailInput(input) => {
                self.email_input = Some(input);
            },
            In::PasswordInput(input) => {
                self.password_input = Some(input);
            },
            In::Submit => {
                commands.push(Command::Call(auth_user(self.get_login())));
            },
            In::LoginSuccess { user } => {
                match write_user(storage, &user) {
                    Ok(()) => {
                        commands.push(Command::SetHash(Route::Home.as_hash()));
                    },
                    Err(error) => {
                        let mut errors: Vec<String> = Vec::new();
                        errors.push(error.message());
                        assert(texts(errors@) =~= seq![message_of(error@)]);
                        commands.push(Command::Later(In::LoginFailure { errors }));
                    },
                }
            },
            In::LoginFailure { errors } => {
                commands = show_errors(&errors);
            },
        }
        commands
    }
}

} // verus!
