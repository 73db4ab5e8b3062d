use conduit_client::route::{missing_hash, unsupported_route, Route};

fn profile(username: &str, is_favorites: bool) -> Route {
    Route::Profile { username: username.to_string(), is_favorites }
}

#[test]
fn can_convert_string_to_route() {
    let s = "https://localhost:8080/#/";
    assert_eq!(Route::try_from(s), Ok(Route::Home));
}

#[test]
fn home_is_read_from_a_bare_hash() {
    assert_eq!(Route::try_from("https://host/#"), Ok(Route::Home));
    assert_eq!(Route::try_from("https://host/#/"), Ok(Route::Home));
    assert_eq!(Route::try_from("#"), Ok(Route::Home));
}

#[test]
fn every_form_of_the_grammar_is_read() {
    assert_eq!(Route::try_from("https://host/#/login"), Ok(Route::Login));
    assert_eq!(Route::try_from("https://host/#/register"), Ok(Route::Register));
    assert_eq!(Route::try_from("https://host/#/settings"), Ok(Route::Settings));
    assert_eq!(Route::try_from("https://host/#/editor"), Ok(Route::Editor { o_slug: None }));
    assert_eq!(
        Route::try_from("https://host/#/editor/my-post"),
        Ok(Route::Editor { o_slug: Some("my-post".to_string()) })
    );
    assert_eq!(
        Route::try_from("https://host/#/article/how-to-train-your-dragon"),
        Ok(Route::Article { slug: "how-to-train-your-dragon".to_string() })
    );
    assert_eq!(Route::try_from("https://host/#/profile/jake"), Ok(profile("jake", false)));
}

#[test]
fn favorites_of_a_profile_are_read() {
    let route = Route::try_from("https://host/#/profile/jake/favorites");
    assert_eq!(route, Ok(profile("jake", true)));
    assert_eq!(route.unwrap().as_hash(), "/profile/jake/favorites");
}

#[test]
fn empty_segments_are_kept_as_texts() {
    assert_eq!(
        Route::try_from("#/editor/"),
        Ok(Route::Editor { o_slug: Some(String::new()) })
    );
    assert_eq!(Route::try_from("#/article/"), Ok(Route::Article { slug: String::new() }));
    assert_eq!(Route::try_from("#/profile//favorites"), Ok(profile("", true)));
}

#[test]
fn unknown_paths_are_reported_with_their_segments() {
    assert_eq!(
        Route::try_from("https://host/#/nonsense/x/y"),
        Err("unsupported route: [\"\", \"nonsense\", \"x\", \"y\"]".to_string())
    );
    assert_eq!(
        Route::try_from("https://host/#login"),
        Err("unsupported route: [\"login\"]".to_string())
    );
    assert_eq!(
        Route::try_from("#/profile/jake/favorites/more"),
        Err("unsupported route: [\"\", \"profile\", \"jake\", \"favorites\", \"more\"]".to_string())
    );
    assert_eq!(
        Route::try_from("#/article"),
        Err("unsupported route: [\"\", \"article\"]".to_string())
    );
    assert_eq!(
        Route::try_from("#/profile/a\"b/likes"),
        Err("unsupported route: [\"\", \"profile\", \"a\\\"b\", \"likes\"]".to_string())
    );
}

#[test]
fn a_location_needs_exactly_one_hash() {
    assert_eq!(
        Route::try_from("https://host/login"),
        Err("route must have a hash: https://host/login".to_string())
    );
    assert_eq!(
        Route::try_from("https://host/#/a#/b"),
        Err("route must have a hash: https://host/#/a#/b".to_string())
    );
    assert_eq!(Route::try_from(""), Err("route must have a hash: ".to_string()));
}

#[test]
fn canonical_hashes() {
    assert_eq!(Route::Home.as_hash(), "/");
    assert_eq!(Route::Login.as_hash(), "/login");
    assert_eq!(Route::Register.as_hash(), "/register");
    assert_eq!(Route::Settings.as_hash(), "/settings");
    assert_eq!(Route::Editor { o_slug: None }.as_hash(), "/editor");
    assert_eq!(Route::Editor { o_slug: Some("a".to_string()) }.as_hash(), "/editor/a");
    assert_eq!(Route::Article { slug: "a-b".to_string() }.as_hash(), "/article/a-b");
    assert_eq!(profile("jake", false).as_hash(), "/profile/jake");
    assert_eq!(profile("jake", true).as_hash(), "/profile/jake/favorites");
}

#[test]
fn routes_come_back_from_their_hash() {
    let routes = vec![
        Route::Home,
        Route::Login,
        Route::Register,
        Route::Settings,
        Route::Editor { o_slug: None },
        Route::Editor { o_slug: Some("draft".to_string()) },
        Route::Article { slug: "a-b-c".to_string() },
        profile("jake", false),
        profile("jake", true),
        profile("", false),
        profile("ünï cödé", true),
    ];
    for route in routes {
        let location = format!("https://host/index.html#{}", route.as_hash());
        assert_eq!(Route::try_from(location.as_str()), Ok(route));
    }
}

#[test]
fn a_slash_in_a_text_does_not_come_back() {
    let route = Route::Article { slug: "a/b".to_string() };
    let location = format!("https://host/#{}", route.as_hash());
    assert!(Route::try_from(location.as_str()).is_err());
    let named = profile("x/favorites", false);
    let location = format!("https://host/#{}", named.as_hash());
    assert_eq!(Route::try_from(location.as_str()), Ok(profile("x", true)));
}

#[test]
fn titles() {
    assert_eq!(Route::Home.as_title(), "Home");
    assert_eq!(Route::Register.as_title(), "Sign Up");
    assert_eq!(Route::Login.as_title(), "Sign In");
    assert_eq!(Route::Editor { o_slug: None }.as_title(), "Editor");
    assert_eq!(Route::Settings.as_title(), "Settings");
    assert_eq!(Route::Article { slug: "a".to_string() }.as_title(), "Article");
    assert_eq!(profile("jake", true).as_title(), "Profile");
}

#[test]
fn each_link_is_active_on_its_own_route_only() {
    let active = "nav-link active";
    let idle = "nav-link";
    assert_eq!(Route::Home.nav_home_class(), active);
    assert_eq!(Route::Login.nav_home_class(), idle);
    assert_eq!(Route::Editor { o_slug: Some("a".to_string()) }.nav_editor_class(), active);
    assert_eq!(Route::Home.nav_editor_class(), idle);
    assert_eq!(Route::Settings.nav_settings_class(), active);
    assert_eq!(Route::Register.nav_settings_class(), idle);
    assert_eq!(Route::Register.nav_register_class(), active);
    assert_eq!(Route::Login.nav_register_class(), idle);
    assert_eq!(Route::Login.nav_login_class(), active);
    assert_eq!(Route::Register.nav_login_class(), idle);
    assert_eq!(profile("jake", false).nav_profile_class(), active);
    assert_eq!(Route::Home.nav_profile_class(), idle);
}

#[test]
fn routes_are_compared_by_their_texts() {
    assert_eq!(profile("jake", true), profile("jake", true).clone());
    assert_ne!(profile("jake", true), profile("jake", false));
    assert_ne!(profile("jake", true), profile("jane", true));
    assert_ne!(Route::Editor { o_slug: None }, Route::Editor { o_slug: Some(String::new()) });
    assert_ne!(Route::Home, Route::Login);
}

#[test]
fn the_wording_of_the_reports() {
    assert_eq!(unsupported_route("[\"\", \"x\"]"), "unsupported route: [\"\", \"x\"]");
    assert_eq!(unsupported_route(""), "unsupported route: ");
    assert_eq!(missing_hash("https://host/"), "route must have a hash: https://host/");
}

#[test]
fn an_owned_location_is_read_like_a_borrowed_one() {
    assert_eq!(Route::try_from("https://host/#/settings".to_string()), Ok(Route::Settings));
    assert_eq!(
        Route::try_from("https://host/settings".to_string()),
        Err("route must have a hash: https://host/settings".to_string())
    );
}
