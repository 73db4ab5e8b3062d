use conduit_client::api::User;
use conduit_client::component::Command;
use conduit_client::components::nav::{list_view, LinkKind, Nav, NavLink, NavModel, NavView};
use conduit_client::patch::Patch;
use conduit_client::route::Route;
use conduit_client::store::{write_user, Storage};

fn jake() -> User {
    User {
        email: "jake@jake.jake".to_string(),
        token: "jwt.token.here".to_string(),
        username: "jake".to_string(),
        bio: None,
        image: None,
    }
}

fn shown(links: &[NavLink]) -> Vec<(LinkKind, &str, &str, &str)> {
    links
        .iter()
        .map(|l| (l.kind, l.href.as_str(), l.label.as_str(), l.class.as_str()))
        .collect()
}

#[test]
fn at_home_without_a_session() {
    let storage = Storage::new();
    let nav = Nav::new("https://host/#/", &storage);
    assert_eq!(nav.current_route, Route::Home);
    assert_eq!(nav.o_user, None);
    let links = list_view(&nav.current_route, nav.o_user.as_ref());
    assert_eq!(
        shown(&links),
        vec![
            (LinkKind::Home, "#/", " Home", "nav-link active"),
            (LinkKind::Login, "#/login", " Sign in", "nav-link"),
            (LinkKind::Register, "#/register", " Sign up", "nav-link"),
        ]
    );
}

#[test]
fn the_links_of_a_user_who_is_signed_in() {
    let links = list_view(&Route::Settings, Some(&jake()));
    assert_eq!(
        shown(&links),
        vec![
            (LinkKind::Home, "#/", " Home", "nav-link"),
            (LinkKind::Editor, "#/editor", " New Post", "nav-link"),
            (LinkKind::Settings, "#/settings", " Settings", "nav-link active"),
            (LinkKind::Profile, "#/profile/jake", " jake", "nav-link"),
        ]
    );
}

#[test]
fn each_link_follows_its_own_route() {
    let login = list_view(&Route::Login, None);
    assert_eq!(login[1].class, "nav-link active");
    assert_eq!(login[2].class, "nav-link");
    let register = list_view(&Route::Register, None);
    assert_eq!(register[1].class, "nav-link");
    assert_eq!(register[2].class, "nav-link active");
    let route = Route::Profile { username: "jane".to_string(), is_favorites: true };
    let profile = list_view(&route, Some(&jake()));
    assert_eq!(profile[3].class, "nav-link active");
    assert_eq!(LinkKind::Editor.class(&Route::Editor { o_slug: None }), "nav-link active");
    assert_eq!(LinkKind::Editor.class(&route), "nav-link");
}

#[test]
fn a_location_that_names_no_route_starts_at_home() {
    let mut storage = Storage::new();
    write_user(&mut storage, &jake()).unwrap();
    let nav = Nav::new("https://host/#/nonsense/x/y", &storage);
    assert_eq!(nav.current_route, Route::Home);
    assert_eq!(nav.o_user, Some(jake()));
    let nav = Nav::new("https://host/", &storage);
    assert_eq!(nav.current_route, Route::Home);
}

#[test]
fn a_transition_names_the_document_and_tells_the_view() {
    let storage = Storage::new();
    let mut nav = Nav::new("https://host/#/", &storage);
    let commands = nav.update(&NavModel::HashChange(Route::Login), &storage);
    assert_eq!(nav.current_route, Route::Login);
    assert_eq!(commands.len(), 2);
    assert!(matches!(&commands[0], Command::SetTitle(title) if title == "Sign In"));
    assert!(matches!(&commands[1], Command::Send(NavView::Route(Route::Login))));
}

#[test]
fn the_route_that_is_shown_already_changes_nothing() {
    let mut storage = Storage::new();
    let mut nav = Nav::new("https://host/#/login", &storage);
    write_user(&mut storage, &jake()).unwrap();
    let commands = nav.update(&NavModel::HashChange(Route::Login), &storage);
    assert!(commands.is_empty());
    assert_eq!(nav.current_route, Route::Login);
    assert_eq!(nav.o_user, None);
}

#[test]
fn the_links_are_replaced_when_the_user_signs_in() {
    let mut storage = Storage::new();
    let mut nav = Nav::new("https://host/#/login", &storage);
    write_user(&mut storage, &jake()).unwrap();
    let commands = nav.update(&NavModel::HashChange(Route::Home), &storage);
    assert_eq!(nav.o_user, Some(jake()));
    assert_eq!(commands.len(), 3);
    assert!(matches!(&commands[0], Command::SetTitle(title) if title == "Home"));
    assert!(matches!(&commands[1], Command::Send(NavView::Route(Route::Home))));
    match &commands[2] {
        Command::Send(msg) => {
            assert!(msg.route().is_none());
            match msg.patch_list_view() {
                Some(Patch::Replace { index, value }) => {
                    assert_eq!(index, 1);
                    assert_eq!(shown(&value), shown(&list_view(&Route::Home, Some(&jake()))));
                }
                other => panic!("unexpected: {:?}", other),
            }
        }
        other => panic!("unexpected: {:?}", other),
    }
    let commands = nav.update(&NavModel::HashChange(Route::Settings), &storage);
    assert_eq!(commands.len(), 2);
}

#[test]
fn the_links_are_replaced_when_the_user_signs_out() {
    let mut storage = Storage::new();
    write_user(&mut storage, &jake()).unwrap();
    let mut nav = Nav::new("https://host/#/settings", &storage);
    assert_eq!(nav.o_user, Some(jake()));
    conduit_client::store::delete_user(&mut storage).unwrap();
    let commands = nav.update(&NavModel::HashChange(Route::Home), &storage);
    assert_eq!(nav.o_user, None);
    assert_eq!(commands.len(), 3);
    match &commands[2] {
        Command::Send(NavView::PatchListView(Patch::Replace { index: 1, value })) => {
            assert_eq!(shown(value), shown(&list_view(&Route::Home, None)));
        }
        other => panic!("unexpected: {:?}", other),
    }
}

#[test]
fn an_unrecognized_path_is_not_followed() {
    let storage = Storage::new();
    let mut nav = Nav::new("https://host/#/login", &storage);
    let report = "unsupported route: [\"\", \"nonsense\", \"x\", \"y\"]";
    assert_eq!(Nav::hash_changed("https://host/#/nonsense/x/y").unwrap_err(), report);
    let followed = nav.navigate("https://host/#/nonsense/x/y", &storage);
    assert_eq!(followed.unwrap_err(), report);
    assert_eq!(nav.current_route, Route::Login);
    let followed = nav.navigate("https://host/no-hash", &storage);
    assert_eq!(followed.unwrap_err(), "route must have a hash: https://host/no-hash");
    assert_eq!(nav.current_route, Route::Login);
}

#[test]
fn a_recognized_path_is_followed() {
    let storage = Storage::new();
    let mut nav = Nav::new("https://host/#/login", &storage);
    assert!(matches!(
        Nav::hash_changed("https://host/#/register"),
        Ok(NavModel::HashChange(Route::Register))
    ));
    let commands = nav.navigate("https://host/#/profile/jake/favorites", &storage).unwrap();
    assert_eq!(
        nav.current_route,
        Route::Profile { username: "jake".to_string(), is_favorites: true }
    );
    assert_eq!(commands.len(), 2);
    match &commands[1] {
        Command::Send(msg) => {
            assert_eq!(msg.route(), Some(nav.current_route.clone()));
            assert!(msg.patch_list_view().is_none());
        }
        other => panic!("unexpected: {:?}", other),
    }
}
