//! The settings of the user who is signed in.

use crate::api::request::{headers_for, lines_of, BodyView, Error, Request, RequestView};
use crate::api::{
    get_user, opt_user, update_user, User, UserUpdate, UserUpdateView, UserView, API_URL,
};
use crate::component::Command;
use crate::components::form::{show_errors, shows_errors};
use crate::route::{hash_of, Route, RouteView};
use crate::store::{
    delete_result, delete_user, deleted, message_of, read_result, read_user, write_result,
    write_user, written, Error as StoreError, ErrorView as StoreErrorView, Storage,
};
use crate::text::texts;
use crate::widgets::{settled, InputOrArea, TextInput, TextInputIn};
use vstd::prelude::*;
use vstd::string::*;

verus! {

/// The inputs of the form.
#[derive(Clone, Copy, Debug, PartialEq, Eq, Structural)]
pub enum Field {
    Pic,
    Name,
    Bio,
    Email,
    Password,
}

/// The form of the settings, with the user whose settings they are, once
/// they are known.
pub struct Settings<T> {
    pub o_user: Option<User>,
    pub pic_input: TextInput<T>,
    pub name_input: TextInput<T>,
    pub bio_input: TextInput<T>,
    pub email_input: TextInput<T>,
    pub password_input: TextInput<T>,
}

/// What the form is told.
pub enum In<T> {
    /// The backend has sent the user.
    GotUser(User),
    /// The user asks for their changes to be kept.
    Submit,
    /// The backend has kept the changes; the user is this now.
    UpdateSuccess(User),
    /// The changes were not kept.
    UpdateFailure { errors: Vec<String> },
    /// The user asks to be logged out.
    Logout,
    /// One of the inputs is told something.
    Input { field: Field, msg: TextInputIn<T> },
}

/// What the form tells its view. What an input tells of its text is of no
/// concern to the form and goes no further.
pub type Out = crate::components::form::Out;

/// Whether `commands` has each of the inputs `fields` look at its element
/// next, in order.
pub open spec fn looks<T>(commands: Seq<Command<In<T>, Out>>, fields: Seq<Field>) -> bool {
    &&& commands.len() == fields.len()
    &&& forall|i: int|
        0 <= i < fields.len() ==> ((#[trigger] commands[i]) matches Command::Later(
            In::Input { field, msg: TextInputIn::UpdateValue },
        ) && field == fields[i])
}

/// Whether `command` brings the failure of the storage back to the form, as
/// the one line that the error says of itself.
pub open spec fn surfaces<T>(command: Command<In<T>, Out>, error: StoreErrorView) -> bool {
    command matches Command::Later(In::UpdateFailure { errors }) && texts(errors@) == seq![
        message_of(error),
    ]
}

/// The inputs that show something of `user`: the picture and the bio where
/// the user has one, the name and the email always.
pub open spec fn fields_of(user: UserView) -> Seq<Field> {
    (if user.image is Some {
        seq![Field::Pic]
    } else {
        Seq::<Field>::empty()
    }) + (if user.bio is Some {
        seq![Field::Bio]
    } else {
        Seq::<Field>::empty()
    }) + seq![Field::Name, Field::Email]
}

/// Whether the input `after` is `before` showing `o_text`, or `before`
/// itself where there is no text to show.
pub open spec fn showing<T: InputOrArea>(
    before: TextInput<T>,
    o_text: Option<Seq<char>>,
    after: TextInput<T>,
) -> bool {
    match o_text {
        Some(text) => {
            &&& after.placeholder@ == before.placeholder@
            &&& after.value@ == before.value@
            &&& match before.o_input {
                Some(_) => after.o_input matches Some(element) && element.text() == text,
                None => after.o_input is None,
            }
        },
        None => after == before,
    }
}

/// Whether the form `after` is `before` with `user` as its user and with
/// the inputs showing what they show of the user.
pub open spec fn shows_user<T: InputOrArea>(
    before: Settings<T>,
    user: UserView,
    after: Settings<T>,
) -> bool {
    &&& opt_user(after.o_user) == Some(user)
    &&& showing(before.pic_input, user.image, after.pic_input)
    &&& showing(before.bio_input, user.bio, after.bio_input)
    &&& showing(before.name_input, Some(user.username), after.name_input)
    &&& showing(before.email_input, Some(user.email), after.email_input)
    &&& after.password_input == before.password_input
}

/// Whether two forms differ in nothing but their user.
pub open spec fn same_inputs<T>(a: Settings<T>, b: Settings<T>) -> bool {
    &&& a.pic_input == b.pic_input
    &&& a.name_input == b.name_input
    &&& a.bio_input == b.bio_input
    &&& a.email_input == b.email_input
    &&& a.password_input == b.password_input
}

/// The input of a form that `field` names.
pub open spec fn input_of<T>(form: Settings<T>, field: Field) -> TextInput<T> {
    match field {
        Field::Pic => form.pic_input,
        Field::Name => form.name_input,
        Field::Bio => form.bio_input,
        Field::Email => form.email_input,
        Field::Password => form.password_input,
    }
}

/// The changes that a form asks for: what each input knows, and a new
/// password only where one was entered.
pub open spec fn changes_of<T>(form: Settings<T>) -> UserUpdateView {
    UserUpdateView {
        email: Some(form.email_input.value@),
        username: Some(form.name_input.value@),
        bio: Some(form.bio_input.value@),
        image: Some(form.pic_input.value@),
        password: if form.password_input.value@.len() == 0 {
            None
        } else {
            Some(form.password_input.value@)
        },
    }
}

/// Whether an input is as it stands when the form is mounted: it knows no
/// text, shows `hint` while it is empty, and its element is not built yet.
pub open spec fn is_blank<T>(input: TextInput<T>, hint: Seq<char>) -> bool {
    input.value@.len() == 0 && input.o_input is None && input.placeholder@ == hint
}

/// Whether `form` and `pending` are a form as it stands when it is mounted
/// and what it asks for then: the inputs are blank, and the form has the
/// user that the storage holds, if it holds one, with the inputs that show
/// something of them looking at their elements next.
pub open spec fn just_mounted<T>(
    form: Settings<T>,
    pending: Seq<Command<In<T>, Out>>,
    storage: crate::store::StorageView,
) -> bool {
    &&& is_blank(form.pic_input, "URL of profile picture"@)
    &&& is_blank(form.name_input, "Your name"@)
    &&& is_blank(form.bio_input, "Short bio about you"@)
    &&& is_blank(form.email_input, "Your email"@)
    &&& is_blank(form.password_input, "Your password"@)
    &&& match read_result(storage) {
        Ok(user) => opt_user(form.o_user) == Some(user) && looks(pending, fields_of(user)),
        Err(_) => form.o_user is None && pending.len() == 0,
    }
}

fn surface<T>(error: StoreError) -> (command: Command<In<T>, Out>)
    ensures
        surfaces(command, error@),
{
    let mut errors: Vec<String> = Vec::new();
    errors.push(error.message());
    assert(texts(errors@) =~= seq![message_of(error@)]);
    Command::Later(In::UpdateFailure { errors })
}

fn show<T: InputOrArea>(input: &mut TextInput<T>, field: Field, text: &String) -> (command: Command<
    In<T>,
    Out,
>)
    ensures
        showing(*old(input), Some(text@), *final(input)),
        command matches Command::Later(In::Input { field: named, msg: TextInputIn::UpdateValue })
            && named == field,
{
    let _ = input.update(TextInputIn::SetValue(text.clone()));
    Command::Later(In::Input { field, msg: TextInputIn::UpdateValue })
}

fn relay<T: InputOrArea>(input: &mut TextInput<T>, field: Field, msg: TextInputIn<T>) -> (commands:
    Vec<Command<In<T>, Out>>)
    ensures
        settled(*old(input), msg, *final(input)),
        looks(
            commands@,
            if msg is SetValue {
                seq![field]
            } else {
                Seq::<Field>::empty()
            },
        ),
{
    let mut commands: Vec<Command<In<T>, Out>> = Vec::new();
    let looks_next = match &msg {
        TextInputIn::SetValue(_) => true,
        _ => false,
    };
    let _ = input.update(msg);
    if looks_next {
        commands.push(Command::Later(In::Input { field, msg: TextInputIn::UpdateValue }));
    }
    commands
}

impl<T: InputOrArea> Settings<T> {
    /// The form as it stands when it is mounted: with empty inputs, or,
    /// where the storage holds a user, with that user and what the inputs
    /// show of them.
    pub fn new(storage: &Storage) -> (mounted: (Settings<T>, Vec<Command<In<T>, Out>>))
        ensures
            just_mounted(mounted.0, mounted.1@, storage@),
    {
        proof {
            reveal_strlit("");
        }
        let mut settings = Settings {
            pic_input: TextInput::new("", "URL of profile picture"),
            name_input: TextInput::new("", "Your name"),
            bio_input: TextInput::new("", "Short bio about you"),
            email_input: TextInput::new("", "Your email"),
            password_input: TextInput::new("", "Your password"),
            o_user: None,
        };
        let commands = match read_user(storage) {
            Ok(user) => settings.set_user(user),
            Err(_) => Vec::new(),
        };
        (settings, commands)
    }

    /// Makes `user` the user of the form and has the inputs show what they
    /// show of them. Each input that was given a text looks at its element
    /// next.
    pub fn set_user(&mut self, user: User) -> (commands: Vec<Command<In<T>, Out>>)
        ensures
            shows_user(*old(self), user@, *final(self)),
            looks(commands@, fields_of(user@)),
    {
        let mut commands: Vec<Command<In<T>, Out>> = Vec::new();
        match &user.image {
            Some(image) => {
                commands.push(show(&mut self.pic_input, Field::Pic, image));
            },
            None => {},
        }
        match &user.bio {
            Some(bio) => {
                commands.push(show(&mut self.bio_input, Field::Bio, bio));
            },
            None => {},
        }
        commands.push(show(&mut self.name_input, Field::Name, &user.username));
        commands.push(show(&mut self.email_input, Field::Email, &user.email));
        self.o_user = Some(user);
        proof {
            let fields = fields_of(user@);
            assert(commands@.len() == fields.len());
            assert forall|i: int| 0 <= i < fields.len() implies ((#[trigger] commands@[i]) matches Command::Later(
                In::Input { field, msg: TextInputIn::UpdateValue },
            ) && field == fields[i]) by {}
        }
        commands
    }

    /// What the form asks of the backend when it is mounted: the user as
    /// the backend knows them, where the form has a user at all.
    pub fn bind(&self) -> (fetch: Option<Request>)
        ensures
            match self.o_user {
                Some(user) => fetch matches Some(request) && request@ == (RequestView {
                    url: API_URL@ + "/user"@,
                    method: "GET"@,
                    headers: headers_for(Some(user@.token)),
                    body: None,
                }),
                None => fetch is None,
            },
    {
        match &self.o_user {
            Some(user) => Some(get_user(user.token.as_str())),
            None => None,
        }
    }

    /// The changes that the form asks for.
    pub fn changes(&self) -> (update: UserUpdate)
        ensures
            update@ == changes_of(*self),
    {
        let pass = self.password_input.value.clone();
        let password = if pass.as_str().unicode_len() == 0 {
            None
        } else {
            Some(pass)
        };
        UserUpdate {
            email: Some(self.email_input.value.clone()),
            username: Some(self.name_input.value.clone()),
            bio: Some(self.bio_input.value.clone()),
            image: Some(self.pic_input.value.clone()),
            password,
        }
    }

    /// The message that the answer of the backend to a submission brings:
    /// the user where it has kept the changes, else the lines of the error.
    pub fn updated(answer: Result<User, Error>) -> (msg: In<T>)
        ensures
            match answer {
                Ok(user) => msg matches In::UpdateSuccess(told) && told@ == user@,
                Err(error) => msg matches In::UpdateFailure { errors } && texts(errors@)
                    == lines_of(error@),
            },
    {
        match answer {
            Ok(user) => In::UpdateSuccess(user),
            Err(error) => In::UpdateFailure { errors: Vec::from(error) },
        }
    }

    /// Answers one message.
    ///
    /// A user from the backend becomes the user of the form, is shown by the
    /// inputs and kept in the storage. A submission asks the backend to keep
    /// the changes, with the token of the user; without a user it does
    /// nothing. Changes that were kept make the user of the form the one
    /// that the backend sent, who is kept in the storage; then the location
    /// is set to their profile. A failure is shown in the list of errors,
    /// line by line, in the place of what the list showed before. A logout
    /// removes the user from the storage; then the location is set to the
    /// home page. What an input is told, it answers; where it then wants to
    /// look at its element, it is told so next.
    ///
    /// Where the storage fails, its error comes back as the next failure,
    /// and the location stays as it is.
    pub fn update(&mut self, msg: In<T>, storage: &mut Storage) -> (commands: Vec<
        Command<In<T>, Out>,
    >)
        ensures
            match msg {
                In::GotUser(user) => {
                    &&& shows_user(*old(self), user@, *final(self))
                    &&& final(storage)@ == written(old(storage)@, user@)
                    &&& match write_result(old(storage)@, user@) {
                        Ok(_) => looks(commands@, fields_of(user@)),
                        Err(error) => {
                            &&& commands@.len() == fields_of(user@).len() + 1
                            &&& looks(commands@.drop_last(), fields_of(user@))
                            &&& surfaces(commands@.last(), error)
                        },
                    }
                },
                In::Submit => {
                    &&& *final(self) == *old(self)
                    &&& final(storage)@ == old(storage)@
                    &&& match old(self).o_user {
                        Some(user) => {
                            &&& commands@.len() == 1
                            &&& commands@[0] matches Command::Call(request) && request@ == (
                            RequestView {
                                url: API_URL@ + "/user"@,
                                method: "PUT"@,
                                headers: headers_for(Some(user@.token)),
                                body: Some(BodyView::Update(changes_of(*old(self)))),
                            })
                        },
                        None => commands@.len() == 0,
                    }
                },
                In::UpdateSuccess(user) => {
                    &&& opt_user(final(self).o_user) == Some(user@)
                    &&& same_inputs(*final(self), *old(self))
                    &&& final(storage)@ == written(old(storage)@, user@)
                    &&& commands@.len() == 1
                    &&& match write_result(old(storage)@, user@) {
                        Ok(_) => commands@[0] matches Command::SetHash(hash) && hash@ == hash_of(
                            RouteView::Profile { username: user@.username, is_favorites: false },
                        ),
                        Err(error) => surfaces(commands@[0], error),
                    }
                },
                In::UpdateFailure { errors } => {
                    &&& *final(self) == *old(self)
                    &&& final(storage)@ == old(storage)@
                    &&& shows_errors(commands@, texts(errors@))
                },
                In::Logout => {
                    &&& *final(self) == *old(self)
                    &&& final(storage)@ == deleted(old(storage)@)
                    &&& commands@.len() == 1
                    &&& match delete_result(old(storage)@) {
                        Ok(_) => commands@[0] matches Command::SetHash(hash) && hash@ == hash_of(
                            RouteView::Home,
                        ),
                        Err(error) => surfaces(commands@[0], error),
                    }
                },
                In::Input { field, msg } => {
                    &&& final(self).o_user == old(self).o_user
                    &&& final(storage)@ == old(storage)@
                    &&& settled(input_of(*old(self), field), msg, input_of(*final(self), field))
                    &&& forall|other: Field|
                        other != field ==> input_of(*final(self), other) == input_of(
                            *old(self),
                            other,
                        )
                    &&& looks(
                        commands@,
                        if msg is SetValue {
                            seq![field]
                        } else {
                            Seq::<Field>::empty()
                        },
                    )
                },
            },
    {
        match msg {
            In::GotUser(user) => {
                let kept = write_user(storage, &user);
                let mut commands = self.set_user(user);
                match kept {
                    Ok(()) => {},
                    Err(error) => {
                        let ghost shown = commands@;
                        commands.push(surface(error));
                        assert(commands@.drop_last() =~= shown);
                    },
                }
                commands
            },
            In::Submit => {
                let mut commands: Vec<Command<In<T>, Out>> = Vec::new();
                match &self.o_user {
                    Some(user) => {
                        let request = update_user(self.changes(), user.token.as_str());
                        commands.push(Command::Call(request));
                    },
                    None => {},
                }
                commands
            },
            In::UpdateSuccess(user) => {
                let mut commands: Vec<Command<In<T>, Out>> = Vec::new();
                match write_user(storage, &user) {
                    Ok(()) => {
                        let route = Route::Profile {
                            username: user.username.clone(),
                            is_favorites: false,
                        };
                        commands.push(Command::SetHash(route.as_hash()));
                    },
                    Err(error) => {
                        commands.push(surface(error));
                    },
                }
                self.o_user = Some(user);
                commands
            },
            In::UpdateFailure { errors } => show_errors(&errors),
            In::Logout => {
                let mut commands: Vec<Command<In<T>, Out>> = Vec::new();
                match delete_user(storage) {
                    Ok(()) => {
                        commands.push(Command::SetHash(Route::Home.as_hash()));
                    },
                    Err(error) => {
                        commands.push(surface(error));
                    },
                }
                commands
            },
            In::Input { field, msg } => {
                match field {
                    Field::Pic => relay(&mut self.pic_input, field, msg),
                    Field::Name => relay(&mut self.name_input, field, msg),
                    Field::Bio => relay(&mut self.bio_input, field, msg),
                    Field::Email => relay(&mut self.email_input, field, msg),
                    Field::Password => relay(&mut self.password_input, field, msg),
                }
            },
        }
    }
}

} // verus!
