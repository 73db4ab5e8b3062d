use conduit_client::api::request::{Body, Error};
use conduit_client::api::User;
use conduit_client::component::Command;
use conduit_client::components::settings::{Field, In, Settings};
use conduit_client::store::{read_user, write_user, Storage};
use conduit_client::widgets::{InputOrArea, TextBox, TextInput, TextInputIn, TextInputOut};

fn jake() -> User {
    User {
        email: "jake@jake.jake".to_string(),
        token: "jwt.token.here".to_string(),
        username: "jake".to_string(),
        bio: Some("I work at statefarm".to_string()),
        image: None,
    }
}

fn looks(commands: &[Command<In<TextBox>, conduit_client::components::settings::Out>]) -> Vec<Field> {
    commands
        .iter()
        .map(|c| match c {
            Command::Later(In::Input { field, msg: TextInputIn::UpdateValue }) => *field,
            _ => panic!("an input is to look at its element"),
        })
        .collect()
}

fn build(form: &mut Settings<TextBox>, storage: &mut Storage) {
    for field in [Field::Pic, Field::Name, Field::Bio, Field::Email, Field::Password] {
        let msg = In::Input { field, msg: TextInputIn::PostBuild(TextBox::new("typed before")) };
        assert!(form.update(msg, storage).is_empty());
    }
}

fn type_into(form: &mut Settings<TextBox>, storage: &mut Storage, field: Field, text: &str) {
    let commands = form.update(
        In::Input { field, msg: TextInputIn::SetValue(text.to_string()) },
        storage,
    );
    assert_eq!(looks(&commands), vec![field]);
    let commands = form.update(In::Input { field, msg: TextInputIn::UpdateValue }, storage);
    assert!(commands.is_empty());
}

#[test]
fn a_text_input_keeps_the_text_of_its_element() {
    let mut input: TextInput<TextBox> = TextInput::new("start", "Your name");
    assert_eq!(input.value, "start");
    assert_eq!(input.placeholder, "Your name");
    assert!(input.o_input.is_none());

    let commands = input.update(TextInputIn::SetValue("early".to_string()));
    assert!(matches!(commands.as_slice(), [Command::Later(TextInputIn::UpdateValue)]));
    assert!(input.update(TextInputIn::UpdateValue).is_empty());
    assert_eq!(input.value, "start");

    assert!(input.update(TextInputIn::PostBuild(TextBox::new("whatever"))).is_empty());
    assert_eq!(input.o_input.as_ref().unwrap().value(), "start");

    let commands = input.update(TextInputIn::SetValue("jake".to_string()));
    assert!(matches!(commands.as_slice(), [Command::Later(TextInputIn::UpdateValue)]));
    assert_eq!(input.o_input.as_ref().unwrap().value(), "jake");
    assert_eq!(input.value, "start");

    let commands = input.update(TextInputIn::UpdateValue);
    assert_eq!(input.value, "jake");
    match commands.as_slice() {
        [Command::Send(TextInputOut::UpdatedValue(told))] => assert_eq!(told, "jake"),
        _ => panic!("the view is told the new text"),
    }
    assert!(input.update(TextInputIn::UpdateValue).is_empty());

    input.o_input.as_mut().unwrap().set_value("typed");
    let commands = input.update(TextInputIn::UpdateValue);
    assert_eq!(commands.len(), 1);
    assert_eq!(input.value, "typed");
    assert_eq!(input.placeholder, "Your name");
}

#[test]
fn the_settings_start_empty_without_a_session() {
    let storage = Storage::new();
    let (form, pending) = Settings::<TextBox>::new(&storage);
    assert!(pending.is_empty());
    assert!(form.o_user.is_none());
    assert!(form.bind().is_none());
    assert_eq!(form.pic_input.placeholder, "URL of profile picture");
    assert_eq!(form.name_input.placeholder, "Your name");
    assert_eq!(form.bio_input.placeholder, "Short bio about you");
    assert_eq!(form.email_input.placeholder, "Your email");
    assert_eq!(form.password_input.placeholder, "Your password");
    assert_eq!(form.name_input.value, "");
}

#[test]
fn the_settings_start_with_the_user_of_the_session() {
    let mut storage = Storage::new();
    write_user(&mut storage, &jake()).unwrap();
    let (form, pending) = Settings::<TextBox>::new(&storage);
    assert_eq!(form.o_user, Some(jake()));
    assert_eq!(looks(&pending), vec![Field::Bio, Field::Name, Field::Email]);
    let fetch = form.bind().unwrap();
    assert_eq!(fetch.url, "https://conduit.productionready.io/api/user");
    assert_eq!(fetch.method, "GET");
    assert_eq!(fetch.headers[1], ("Authorization".to_string(), "Token jwt.token.here".to_string()));
}

#[test]
fn a_user_from_the_backend_is_shown_and_kept() {
    let mut storage = Storage::new();
    let (mut form, _) = Settings::<TextBox>::new(&storage);
    build(&mut form, &mut storage);
    let mut user = jake();
    user.image = Some("https://example.org/me.png".to_string());
    let commands = form.update(In::GotUser(user.clone()), &mut storage);
    assert_eq!(looks(&commands), vec![Field::Pic, Field::Bio, Field::Name, Field::Email]);
    assert_eq!(form.o_user, Some(user.clone()));
    assert_eq!(read_user(&storage).unwrap(), user);
    assert_eq!(form.pic_input.o_input.as_ref().unwrap().value(), "https://example.org/me.png");
    assert_eq!(form.bio_input.o_input.as_ref().unwrap().value(), "I work at statefarm");
    assert_eq!(form.name_input.o_input.as_ref().unwrap().value(), "jake");
    assert_eq!(form.email_input.o_input.as_ref().unwrap().value(), "jake@jake.jake");
    assert_eq!(form.password_input.o_input.as_ref().unwrap().value(), "");
    assert_eq!(form.name_input.value, "");
    for command in commands {
        match command {
            Command::Later(msg) => {
                form.update(msg, &mut storage);
            }
            _ => panic!("an input is to look at its element"),
        }
    }
    assert_eq!(form.name_input.value, "jake");
    assert_eq!(form.email_input.value, "jake@jake.jake");
}

#[test]
fn a_submission_asks_for_what_the_inputs_know() {
    let mut storage = Storage::new();
    write_user(&mut storage, &jake()).unwrap();
    let (mut form, _) = Settings::<TextBox>::new(&storage);
    build(&mut form, &mut storage);
    type_into(&mut form, &mut storage, Field::Name, "jacob");
    type_into(&mut form, &mut storage, Field::Email, "jake@jake.jake");
    type_into(&mut form, &mut storage, Field::Bio, "");
    type_into(&mut form, &mut storage, Field::Pic, "https://example.org/me.png");
    let commands = form.update(In::Submit, &mut storage);
    assert_eq!(commands.len(), 1);
    match &commands[0] {
        Command::Call(request) => {
            assert_eq!(request.url, "https://conduit.productionready.io/api/user");
            assert_eq!(request.method, "PUT");
            assert_eq!(
                request.headers[1],
                ("Authorization".to_string(), "Token jwt.token.here".to_string())
            );
            match &request.body {
                Some(Body::Update(update)) => {
                    assert_eq!(update.username, Some("jacob".to_string()));
                    assert_eq!(update.email, Some("jake@jake.jake".to_string()));
                    assert_eq!(update.bio, Some(String::new()));
                    assert_eq!(update.image, Some("https://example.org/me.png".to_string()));
                    assert_eq!(update.password, None);
                }
                other => panic!("unexpected: {:?}", other),
            }
        }
        _ => panic!("a submission asks the backend"),
    }
    type_into(&mut form, &mut storage, Field::Password, "secret");
    assert_eq!(form.changes().password, Some("secret".to_string()));
}

#[test]
fn a_submission_without_a_user_does_nothing() {
    let mut storage = Storage::new();
    let (mut form, _) = Settings::<TextBox>::new(&storage);
    assert!(form.update(In::Submit, &mut storage).is_empty());
}

#[test]
fn changes_that_were_kept_lead_to_the_profile() {
    let mut storage = Storage::new();
    let (mut form, _) = Settings::<TextBox>::new(&storage);
    let mut user = jake();
    user.username = "jacob".to_string();
    let commands = form.update(Settings::<TextBox>::updated(Ok(user.clone())), &mut storage);
    assert_eq!(commands.len(), 1);
    assert!(matches!(&commands[0], Command::SetHash(hash) if hash == "/profile/jacob"));
    assert_eq!(form.o_user, Some(user.clone()));
    assert_eq!(read_user(&storage).unwrap(), user);
}

#[test]
fn changes_that_were_not_kept_are_shown() {
    let mut storage = Storage::new();
    let (mut form, _) = Settings::<TextBox>::new(&storage);
    let error = Error::ResponseErrors {
        errors: vec![("username".to_string(), vec!["is too long".to_string(), "is taken".to_string()])],
    };
    let commands = form.update(Settings::<TextBox>::updated(Err(error)), &mut storage);
    let told: Vec<String> = commands
        .iter()
        .map(|c| match c {
            Command::Send(out) => format!("{:?}", out.errors().unwrap()),
            _ => panic!("only the view is told"),
        })
        .collect();
    assert_eq!(
        told,
        vec![
            "RemoveAll",
            "PushBack { value: \"username is too long\" }",
            "PushBack { value: \"username is taken\" }",
        ]
    );
}

#[test]
fn a_logout_forgets_the_user_and_goes_home() {
    let mut storage = Storage::new();
    write_user(&mut storage, &jake()).unwrap();
    let (mut form, _) = Settings::<TextBox>::new(&storage);
    let commands = form.update(In::Logout, &mut storage);
    assert_eq!(commands.len(), 1);
    assert!(matches!(&commands[0], Command::SetHash(hash) if hash == "/"));
    assert!(read_user(&storage).is_err());
}

fn surfaced(command: Command<In<TextBox>, conduit_client::components::settings::Out>) -> Vec<String> {
    match command {
        Command::Later(In::UpdateFailure { errors }) => errors,
        _ => panic!("the failure comes back as the next message"),
    }
}

#[test]
fn changes_that_cannot_be_kept_in_the_storage_are_a_failure() {
    let mut storage = Storage::new();
    storage.full = true;
    let (mut form, _) = Settings::<TextBox>::new(&storage);
    let mut commands = form.update(In::UpdateSuccess(jake()), &mut storage);
    assert_eq!(commands.len(), 1);
    assert_eq!(surfaced(commands.pop().unwrap()), vec!["CantStore"]);
    assert_eq!(form.o_user, Some(jake()));
}

#[test]
fn a_user_that_cannot_be_kept_in_the_storage_is_shown_and_a_failure() {
    let mut storage = Storage::new();
    storage.access = conduit_client::store::Access::Missing;
    let (mut form, _) = Settings::<TextBox>::new(&storage);
    let mut commands = form.update(In::GotUser(jake()), &mut storage);
    assert_eq!(commands.len(), 4);
    assert_eq!(surfaced(commands.pop().unwrap()), vec!["NoLocalStorage"]);
    assert_eq!(looks(&commands), vec![Field::Bio, Field::Name, Field::Email]);
    assert_eq!(form.o_user, Some(jake()));
}

#[test]
fn a_logout_that_the_storage_refuses_is_a_failure() {
    let mut storage = Storage::new();
    write_user(&mut storage, &jake()).unwrap();
    storage.broken = true;
    let (mut form, _) = Settings::<TextBox>::new(&storage);
    let mut commands = form.update(In::Logout, &mut storage);
    assert_eq!(commands.len(), 1);
    assert_eq!(surfaced(commands.pop().unwrap()), vec!["CantGetKey"]);
}
