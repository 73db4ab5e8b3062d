use conduit_client::api::request::{api, req_init, response, ApiResponseErrors, Body, Error};
use conduit_client::api::{
    auth_user, get_articles, get_profile, get_user, register_user, update_user, User, UserProfile,
    UserRegistration, UserUpdate, API_URL,
};

fn jake() -> User {
    User {
        email: "jake@jake.jake".to_string(),
        token: "jwt.token.here".to_string(),
        username: "jake".to_string(),
        bio: Some("I work at statefarm".to_string()),
        image: None,
    }
}

fn texts(lines: &[&str]) -> Vec<String> {
    lines.iter().map(|l| l.to_string()).collect()
}

#[test]
fn a_taken_email_is_one_line() {
    let mut answer = ApiResponseErrors::new();
    answer.insert("email".to_string(), texts(&["has already been taken"]));
    let result: Result<User, Error> = response(Err("missing field `user`".to_string()), Some(answer));
    let lines = Vec::from(result.unwrap_err());
    assert_eq!(lines, vec!["email has already been taken"]);
}

#[test]
fn every_message_of_every_field_is_a_line() {
    let error = Error::ResponseErrors {
        errors: vec![
            ("email".to_string(), texts(&["is invalid", "has already been taken"])),
            ("password".to_string(), texts(&[])),
            ("username".to_string(), texts(&["can't be blank"])),
        ],
    };
    assert_eq!(
        error.lines(),
        vec!["email is invalid", "email has already been taken", "username can't be blank"]
    );
    let nothing = Error::ResponseErrors { errors: vec![] };
    assert_eq!(nothing.lines(), Vec::<String>::new());
}

#[test]
fn every_other_error_is_the_one_line_it_says_of_itself() {
    let cases = vec![
        (Error::ConstructRequest, "could not construct request"),
        (Error::CantCreateHeaders, "could not create request headers"),
        (Error::CantAppendHeaders, "could not set request headers"),
        (Error::RequestFailure, "request failure"),
        (Error::MalformedResponse, "response was malformed"),
        (Error::FailedJson, "response was not json"),
        (Error::FailedAwaitingJson, "timed out awaiting json"),
        (
            Error::DeserializeFailure { source: "expected value at line 1".to_string() },
            "could not deserialize response json: expected value at line 1",
        ),
        (
            Error::SerializeFailure { source: "key must be a string".to_string() },
            "could not serialize request json: key must be a string",
        ),
    ];
    for (error, line) in cases {
        assert_eq!(error.message(), line);
        assert_eq!(Vec::from(error), vec![line]);
    }
    assert_eq!(Error::ResponseErrors { errors: vec![] }.message(), "ResponseErrors");
}

#[test]
fn a_field_stands_once_in_an_answer() {
    let mut answer = ApiResponseErrors::new();
    answer.insert("email".to_string(), texts(&["is invalid"]));
    answer.insert("password".to_string(), texts(&["is too short"]));
    answer.insert("email".to_string(), texts(&["has already been taken"]));
    let errors = answer.into_errors();
    assert_eq!(
        errors,
        vec![
            ("email".to_string(), texts(&["has already been taken"])),
            ("password".to_string(), texts(&["is too short"])),
        ]
    );
}

#[test]
fn an_answer_that_reads_is_the_result() {
    let mut answer = ApiResponseErrors::new();
    answer.insert("email".to_string(), texts(&["is invalid"]));
    let result = response(Ok(jake()), Some(answer));
    assert_eq!(result.unwrap(), jake());
    let result = response(Ok(7u32), None);
    assert!(matches!(result, Ok(7)));
}

#[test]
fn an_answer_that_reads_as_nothing_is_a_failure_to_deserialize() {
    let result: Result<User, Error> = response(Err("EOF while parsing".to_string()), None);
    match result {
        Err(Error::DeserializeFailure { source }) => assert_eq!(source, "EOF while parsing"),
        other => panic!("unexpected: {:?}", other),
    }
}

#[test]
fn headers_show_the_token_where_there_is_one() {
    assert_eq!(
        req_init(None),
        vec![("Content-Type".to_string(), "application/json; charset=utf-8".to_string())]
    );
    assert_eq!(
        req_init(Some("jwt")),
        vec![
            ("Content-Type".to_string(), "application/json; charset=utf-8".to_string()),
            ("Authorization".to_string(), "Token jwt".to_string()),
        ]
    );
}

#[test]
fn a_request_is_what_it_was_asked_to_be() {
    let request = api("https://example.org/x", "DELETE", None, Some("t"));
    assert_eq!(request.url, "https://example.org/x");
    assert_eq!(request.method, "DELETE");
    assert_eq!(request.headers, req_init(Some("t")));
    assert!(request.body.is_none());
}

#[test]
fn the_requests_of_the_users() {
    assert_eq!(API_URL, "https://conduit.productionready.io/api");
    let login = UserRegistration {
        email: Some("jake@jake.jake".to_string()),
        username: None,
        password: Some("jakejake".to_string()),
    };
    let request = auth_user(login.clone());
    assert_eq!(request.url, "https://conduit.productionready.io/api/users/login");
    assert_eq!(request.method, "POST");
    assert_eq!(request.headers, req_init(None));
    match request.body {
        Some(Body::Registration(user)) => {
            assert_eq!(user.email, login.email);
            assert_eq!(user.username, None);
            assert_eq!(user.password, login.password);
        }
        other => panic!("unexpected: {:?}", other),
    }
    let request = register_user(login);
    assert_eq!(request.url, "https://conduit.productionready.io/api/users");
    assert_eq!(request.method, "POST");
    assert!(matches!(request.body, Some(Body::Registration(_))));

    let mut update = UserUpdate::default();
    update.bio = Some("new bio".to_string());
    let request = update_user(update, "jwt");
    assert_eq!(request.url, "https://conduit.productionready.io/api/user");
    assert_eq!(request.method, "PUT");
    assert_eq!(request.headers, req_init(Some("jwt")));
    match request.body {
        Some(Body::Update(user)) => {
            assert_eq!(user.bio, Some("new bio".to_string()));
            assert_eq!(user.email, None);
        }
        other => panic!("unexpected: {:?}", other),
    }

    let request = get_user("jwt");
    assert_eq!(request.url, "https://conduit.productionready.io/api/user");
    assert_eq!(request.method, "GET");
    assert_eq!(request.headers, req_init(Some("jwt")));
    assert!(request.body.is_none());

    let request = get_profile("jake", None);
    assert_eq!(request.url, "https://conduit.productionready.io/api/profiles/jake");
    assert_eq!(request.method, "GET");
    assert_eq!(request.headers, req_init(None));
    assert!(request.body.is_none());
}

#[test]
fn the_query_for_articles() {
    let base = "https://conduit.productionready.io/api/articles";
    assert_eq!(get_articles(None, None, None, None, None, None).url, base);
    assert_eq!(
        get_articles(Some("jake"), None, None, None, None, Some("jwt")).url,
        format!("{}?author=jake", base)
    );
    let request = get_articles(Some("jake"), Some("dragons"), Some("jane"), Some(20), Some(0), None);
    assert_eq!(
        request.url,
        format!("{}?tag=dragons&author=jake&favorited=jane&limit=20&offset=0", base)
    );
    assert_eq!(request.method, "GET");
    assert!(request.body.is_none());
    assert_eq!(
        get_articles(None, None, None, Some(4294967295), None, None).url,
        format!("{}?limit=4294967295", base)
    );
    assert_eq!(
        get_articles(None, None, Some("x"), None, Some(105), None).url,
        format!("{}?favorited=x&offset=105", base)
    );
}

#[test]
fn the_update_that_changes_nothing() {
    let update = UserUpdate::default();
    assert_eq!(update.email, None);
    assert_eq!(update.username, None);
    assert_eq!(update.bio, None);
    assert_eq!(update.image, None);
    assert_eq!(update.password, None);
}

#[test]
fn the_profile_of_a_user() {
    let profile = UserProfile::from(jake());
    assert_eq!(profile.username, "jake");
    assert_eq!(profile.bio, "I work at statefarm");
    assert_eq!(profile.image, "");
    assert!(!profile.following);
}

#[test]
fn users_are_compared_by_their_texts() {
    assert_eq!(jake(), jake().clone());
    let mut other = jake();
    other.image = Some(String::new());
    assert_ne!(jake(), other);
    let mut other = jake();
    other.token = "another".to_string();
    assert_ne!(jake(), other);
}
