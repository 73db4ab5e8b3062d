//! The routes of the application: the grammar that reads one out of a
//! location, the canonical hash that writes it back, and what the navigation
//! bar derives from it.

use crate::text::{
    count, lemma_split_joined, lemma_split_len, lemma_split_pieces_free,
    lemma_split_pieces_within, lemma_split_whole, same_text, split, split_text, texts,
};
use vstd::prelude::*;
use vstd::string::*;

verus! {

/// A place in the application that a location can name.
#[derive(Debug)]
pub enum Route {
    Home,
    Login,
    Register,
    Settings,
    Editor { o_slug: Option<String> },
    Article { slug: String },
    Profile { username: String, is_favorites: bool },
}

/// A route with its texts as sequences of characters.
pub enum RouteView {
    Home,
    Login,
    Register,
    Settings,
    Editor { o_slug: Option<Seq<char>> },
    Article { slug: Seq<char> },
    Profile { username: Seq<char>, is_favorites: bool },
}

impl View for Route {
    type V = RouteView;

    open spec fn view(&self) -> RouteView {
        match self {
            Route::Home => RouteView::Home,
            Route::Login => RouteView::Login,
            Route::Register => RouteView::Register,
            Route::Settings => RouteView::Settings,
            Route::Editor { o_slug } => RouteView::Editor {
                o_slug: match o_slug {
                    Some(slug) => Some(slug@),
                    None => None,
                },
            },
            Route::Article { slug } => RouteView::Article { slug: slug@ },
            Route::Profile { username, is_favorites } => RouteView::Profile {
                username: username@,
                is_favorites: *is_favorites,
            },
        }
    }
}

/// The canonical hash of a route: the text that, set as the location's
/// hash, names the route again.
pub open spec fn hash_of(route: RouteView) -> Seq<char> {
    match route {
        RouteView::Home => "/"@,
        RouteView::Login => "/login"@,
        RouteView::Register => "/register"@,
        RouteView::Settings => "/settings"@,
        RouteView::Editor { o_slug: None } => "/editor"@,
        RouteView::Editor { o_slug: Some(slug) } => "/editor/"@ + slug,
        RouteView::Article { slug } => "/article/"@ + slug,
        RouteView::Profile { username, is_favorites: false } => "/profile/"@ + username,
        RouteView::Profile { username, is_favorites: true } => "/profile/"@ + username
            + "/favorites"@,
    }
}

/// The route that the segments of a hash name, if they name one. The
/// segments are what stands between the slashes, so the first is always what
/// precedes the first slash and must be empty.
pub open spec fn route_of_segments(segments: Seq<Seq<char>>) -> Option<RouteView> {
    if segments.len() == 0 || segments[0].len() != 0 {
        None
    } else if segments.len() == 1 {
        Some(RouteView::Home)
    } else if segments.len() == 2 {
        if segments[1].len() == 0 {
            Some(RouteView::Home)
        } else if segments[1] == "login"@ {
            Some(RouteView::Login)
        } else if segments[1] == "register"@ {
            Some(RouteView::Register)
        } else if segments[1] == "settings"@ {
            Some(RouteView::Settings)
        } else if segments[1] == "editor"@ {
            Some(RouteView::Editor { o_slug: None })
        } else {
            None
        }
    } else if segments.len() == 3 {
        if segments[1] == "editor"@ {
            Some(RouteView::Editor { o_slug: Some(segments[2]) })
        } else if segments[1] == "article"@ {
            Some(RouteView::Article { slug: segments[2] })
        } else if segments[1] == "profile"@ {
            Some(RouteView::Profile { username: segments[2], is_favorites: false })
        } else {
            None
        }
    } else if segments.len() == 4 && segments[1] == "profile"@ && segments[3] == "favorites"@ {
        Some(RouteView::Profile { username: segments[2], is_favorites: true })
    } else {
        None
    }
}

/// The route that a hash, the text behind the `#`, names.
pub open spec fn route_of_hash(hash: Seq<char>) -> Option<RouteView> {
    route_of_segments(split(hash, '/'))
}

/// The route that a whole location names: the location must hold exactly one
/// `#`, and what follows it must be the hash of a route.
pub open spec fn route_of_location(location: Seq<char>) -> Option<RouteView> {
    let halves = split(location, '#');
    if halves.len() == 2 {
        route_of_hash(halves[1])
    } else {
        None
    }
}

/// The title of the document for each route.
pub open spec fn title_of(route: RouteView) -> Seq<char> {
    match route {
        RouteView::Home => "Home"@,
        RouteView::Register => "Sign Up"@,
        RouteView::Login => "Sign In"@,
        RouteView::Editor { .. } => "Editor"@,
        RouteView::Settings => "Settings"@,
        RouteView::Article { .. } => "Article"@,
        RouteView::Profile { .. } => "Profile"@,
    }
}

/// The class of a link of the navigation bar: marked active while the route
/// it leads to is shown.
pub open spec fn link_class(active: bool) -> Seq<char> {
    if active {
        "nav-link active"@
    } else {
        "nav-link"@
    }
}

/// How a list of texts reads when written out for a developer: what the
/// standard library's `Debug` formatting of it gives, quotes and escapes
/// included.
pub uninterp spec fn debug_text(parts: Seq<Seq<char>>) -> Seq<char>;

/// What is reported of a location that names no route.
pub open spec fn parse_error(location: Seq<char>) -> Seq<char> {
    let halves = split(location, '#');
    if halves.len() == 2 {
        "unsupported route: "@ + debug_text(split(halves[1], '/'))
    } else {
        "route must have a hash: "@ + location
    }
}

/// Writes a list of strings with the standard library's `Debug` formatting
/// (`format!("{:?}", ..)`). The result depends on the strings alone; what it
/// is character by character is left to the standard library.
#[verifier::external_body]
fn debug_string(parts: &Vec<String>) -> (out: String)
    ensures
        out@ == debug_text(texts(parts@)),
{
    format!("{:?}", parts)
}

/// The report of a hash that names no route. `listed` is the list of its
/// segments as it reads written out.
pub fn unsupported_route(listed: &str) -> (message: String)
    ensures
        message@ == "unsupported route: "@ + listed@,
{
    let mut message = String::from_str("unsupported route: ");
    message.append(listed);
    message
}

/// The report of a location that does not hold exactly one `#`.
pub fn missing_hash(location: &str) -> (message: String)
    ensures
        message@ == "route must have a hash: "@ + location@,
{
    let mut message = String::from_str("route must have a hash: ");
    message.append(location);
    message
}

fn route_from_segments(segments: &Vec<String>) -> (found: Option<Route>)
    ensures
        match route_of_segments(texts(segments@)) {
            Some(route) => found matches Some(r) && r@ == route,
            None => found is None,
        },
{
    let n = segments.len();
    proof {
        reveal_strlit("");
        assert forall|t: Seq<char>| (t == ""@) == (t.len() == 0) by {
            if t.len() == 0 {
                assert(t =~= ""@);
            }
        }
        assert forall|k: int| 0 <= k < n implies texts(segments@)[k] == segments@[k]@ by {}
    }
    if n == 0 || !same_text(segments[0].as_str(), "") {
        return None;
    }
    if n == 1 {
        Some(Route::Home)
    } else if n == 2 {
        let second = segments[1].as_str();
        if same_text(second, "") {
            Some(Route::Home)
        } else if same_text(second, "login") {
            Some(Route::Login)
        } else if same_text(second, "register") {
            Some(Route::Register)
        } else if same_text(second, "settings") {
            Some(Route::Settings)
        } else if same_text(second, "editor") {
            Some(Route::Editor { o_slug: None })
        } else {
            None
        }
    } else if n == 3 {
        let second = segments[1].as_str();
        if same_text(second, "editor") {
            Some(Route::Editor { o_slug: Some(segments[2].clone()) })
        } else if same_text(second, "article") {
            Some(Route::Article { slug: segments[2].clone() })
        } else if same_text(second, "profile") {
            Some(Route::Profile { username: segments[2].clone(), is_favorites: false })
        } else {
            None
        }
    } else if n == 4 && same_text(segments[1].as_str(), "profile") && same_text(
        segments[3].as_str(),
        "favorites",
    ) {
        Some(Route::Profile { username: segments[2].clone(), is_favorites: true })
    } else {
        None
    }
}

impl<'a> TryFrom<&'a str> for Route {
    type Error = String;

    /// Reads the route out of a location such as `https://host/#/login`.
    ///
    /// Succeeds exactly on the locations that `route_of_location` accepts;
    /// every other location is answered with `parse_error`.
    fn try_from(s: &'a str) -> (parsed: Result<Route, String>)
        ensures
            match route_of_location(s@) {
                Some(route) => parsed is Ok && parsed->Ok_0@ == route,
                None => parsed is Err && parsed->Err_0@ == parse_error(s@),
            },
    {
        let halves = split_text(s, '#');
        if halves.len() != 2 {
            return Err(missing_hash(s));
        }
        let segments = split_text(halves[1].as_str(), '/');
        match route_from_segments(&segments) {
            Some(route) => Ok(route),
            None => Err(unsupported_route(debug_string(&segments).as_str())),
        }
    }
}

impl<'a> vstd::std_specs::convert::TryFromSpecImpl<&'a str> for Route {
    /// The conversion is stated over views, on `try_from` itself: two
    /// strings with the same characters need not be the same value.
    open spec fn obeys_try_from_spec() -> bool {
        false
    }

    open spec fn try_from_spec(s: &'a str) -> Result<Route, String> {
        arbitrary()
    }
}

impl TryFrom<String> for Route {
    type Error = String;

    /// Reads the route out of a location.
    fn try_from(s: String) -> (parsed: Result<Route, String>)
        ensures
            match route_of_location(s@) {
                Some(route) => parsed is Ok && parsed->Ok_0@ == route,
                None => parsed is Err && parsed->Err_0@ == parse_error(s@),
            },
    {
        Route::try_from(s.as_str())
    }
}

impl vstd::std_specs::convert::TryFromSpecImpl<String> for Route {
    /// The conversion is stated over views, on `try_from` itself.
    open spec fn obeys_try_from_spec() -> bool {
        false
    }

    open spec fn try_from_spec(s: String) -> Result<Route, String> {
        arbitrary()
    }
}

impl Route {
    /// The canonical hash of the route.
    pub fn as_hash(&self) -> (hash: String)
        ensures
            hash@ == hash_of(self@),
    {
        match self {
            Route::Home => String::from_str("/"),
            Route::Register => String::from_str("/register"),
            Route::Login => String::from_str("/login"),
            Route::Editor { o_slug } => {
                match o_slug {
                    Some(slug) => {
                        let mut hash = String::from_str("/editor/");
                        hash.append(slug.as_str());
                        hash
                    },
                    None => String::from_str("/editor"),
                }
            },
            Route::Settings => String::from_str("/settings"),
            Route::Article { slug } => {
                let mut hash = String::from_str("/article/");
                hash.append(slug.as_str());
                hash
            },
            Route::Profile { username, is_favorites } => {
                let mut hash = String::from_str("/profile/");
                hash.append(username.as_str());
                if *is_favorites {
                    hash.append("/favorites");
                }
                hash
            },
        }
    }

    /// The title of the document while the route is shown.
    pub fn as_title(&self) -> (title: String)
        ensures
            title@ == title_of(self@),
    {
        match self {
            Route::Home => String::from_str("Home"),
            Route::Register => String::from_str("Sign Up"),
            Route::Login => String::from_str("Sign In"),
            Route::Editor { .. } => String::from_str("Editor"),
            Route::Settings => String::from_str("Settings"),
            Route::Article { .. } => String::from_str("Article"),
            Route::Profile { .. } => String::from_str("Profile"),
        }
    }

    /// The class of the link to the home page.
    pub fn nav_home_class(&self) -> (class: String)
        ensures
            class@ == link_class(self@ is Home),
    {
        match self {
            Route::Home => String::from_str("nav-link active"),
            _ => String::from_str("nav-link"),
        }
    }

    /// The class of the link to the editor.
    pub fn nav_editor_class(&self) -> (class: String)
        ensures
            class@ == link_class(self@ is Editor),
    {
        match self {
            Route::Editor { .. } => String::from_str("nav-link active"),
            _ => String::from_str("nav-link"),
        }
    }

    /// The class of the link to the settings.
    pub fn nav_settings_class(&self) -> (class: String)
        ensures
            class@ == link_class(self@ is Settings),
    {
        match self {
            Route::Settings => String::from_str("nav-link active"),
            _ => String::from_str("nav-link"),
        }
    }

    /// The class of the link to the registration form.
    pub fn nav_register_class(&self) -> (class: String)
        ensures
            class@ == link_class(self@ is Register),
    {
        match self {
            Route::Register => String::from_str("nav-link active"),
            _ => String::from_str("nav-link"),
        }
    }

    /// The class of the link to the login form.
    pub fn nav_login_class(&self) -> (class: String)
        ensures
            class@ == link_class(self@ is Login),
    {
        match self {
            Route::Login => String::from_str("nav-link active"),
            _ => String::from_str("nav-link"),
        }
    }

    /// The class of the link to the user's profile.
    pub fn nav_profile_class(&self) -> (class: String)
        ensures
            class@ == link_class(self@ is Profile),
    {
        match self {
            Route::Profile { .. } => String::from_str("nav-link active"),
            _ => String::from_str("nav-link"),
        }
    }
}

impl Clone for Route {
    fn clone(&self) -> (copy: Route)
        ensures
            copy@ == self@,
    {
        match self {
            Route::Home => Route::Home,
            Route::Login => Route::Login,
            Route::Register => Route::Register,
            Route::Settings => Route::Settings,
            Route::Editor { o_slug } => Route::Editor {
                o_slug: match o_slug {
                    Some(slug) => Some(slug.clone()),
                    None => None,
                },
            },
            Route::Article { slug } => Route::Article { slug: slug.clone() },
            Route::Profile { username, is_favorites } => Route::Profile {
                username: username.clone(),
                is_favorites: *is_favorites,
            },
        }
    }
}

impl PartialEq for Route {
    fn eq(&self, other: &Route) -> (same: bool) {
        match (self, other) {
            (Route::Home, Route::Home) => true,
            (Route::Login, Route::Login) => true,
            (Route::Register, Route::Register) => true,
            (Route::Settings, Route::Settings) => true,
            (Route::Editor { o_slug: None }, Route::Editor { o_slug: None }) => true,
            (Route::Editor { o_slug: Some(a) }, Route::Editor { o_slug: Some(b) }) => *a == *b,
            (Route::Article { slug: a }, Route::Article { slug: b }) => *a == *b,
            (
                Route::Profile { username: a, is_favorites: f },
                Route::Profile { username: b, is_favorites: g },
            ) => *a == *b && *f == *g,
            _ => false,
        }
    }
}

impl vstd::std_specs::cmp::PartialEqSpecImpl for Route {
    open spec fn obeys_eq_spec() -> bool {
        true
    }

    open spec fn eq_spec(&self, other: &Route) -> bool {
        self@ == other@
    }
}

/// Whether a text can stand as one segment of a hash: it holds neither a
/// slash, which would end the segment, nor a `#`, which would end the hash.
pub open spec fn is_segment(t: Seq<char>) -> bool {
    !t.contains('/') && !t.contains('#')
}

/// Whether the texts of a route can each stand as one segment.
pub open spec fn is_addressable(route: RouteView) -> bool {
    match route {
        RouteView::Editor { o_slug: Some(slug) } => is_segment(slug),
        RouteView::Article { slug } => is_segment(slug),
        RouteView::Profile { username, .. } => is_segment(username),
        _ => true,
    }
}

proof fn lemma_keywords()
    ensures
        "/"@ == seq!['/'],
        "/login"@ == seq!['/'] + "login"@,
        "/register"@ == seq!['/'] + "register"@,
        "/settings"@ == seq!['/'] + "settings"@,
        "/editor"@ == seq!['/'] + "editor"@,
        "/editor/"@ == seq!['/'] + "editor"@ + seq!['/'],
        "/article/"@ == seq!['/'] + "article"@ + seq!['/'],
        "/profile/"@ == seq!['/'] + "profile"@ + seq!['/'],
        "/favorites"@ == seq!['/'] + "favorites"@,
        is_segment("login"@) && "login"@.len() == 5,
        is_segment("register"@) && "register"@.len() == 8 && "register"@[0] == 'r',
        is_segment("settings"@) && "settings"@.len() == 8 && "settings"@[0] == 's',
        is_segment("editor"@) && "editor"@.len() == 6,
        is_segment("article"@) && "article"@.len() == 7 && "article"@[0] == 'a',
        is_segment("profile"@) && "profile"@.len() == 7 && "profile"@[0] == 'p',
        is_segment("favorites"@) && "favorites"@.len() == 9,
{
    reveal_strlit("/");
    reveal_strlit("/login");
    reveal_strlit("/register");
    reveal_strlit("/settings");
    reveal_strlit("/editor");
    reveal_strlit("/editor/");
    reveal_strlit("/article/");
    reveal_strlit("/profile/");
    reveal_strlit("/favorites");
    reveal_strlit("login");
    reveal_strlit("register");
    reveal_strlit("settings");
    reveal_strlit("editor");
    reveal_strlit("article");
    reveal_strlit("profile");
    reveal_strlit("favorites");
    assert("/"@ =~= seq!['/']);
    assert("/login"@ =~= seq!['/'] + "login"@);
    assert("/register"@ =~= seq!['/'] + "register"@);
    assert("/settings"@ =~= seq!['/'] + "settings"@);
    assert("/editor"@ =~= seq!['/'] + "editor"@);
    assert("/editor/"@ =~= seq!['/'] + "editor"@ + seq!['/']);
    assert("/article/"@ =~= seq!['/'] + "article"@ + seq!['/']);
    assert("/profile/"@ =~= seq!['/'] + "profile"@ + seq!['/']);
    assert("/favorites"@ =~= seq!['/'] + "favorites"@);
}

/// The segments of a hash that begins with a slash: an empty first segment,
/// then the segments of the rest.
proof fn lemma_rooted(rest: Seq<char>)
    ensures
        split(seq!['/'] + rest, '/') == seq![Seq::<char>::empty()] + split(rest, '/'),
{
    let nothing = Seq::<char>::empty();
    lemma_split_joined(nothing, rest, '/');
    assert(nothing + seq!['/'] + rest =~= seq!['/'] + rest);
    assert(split(nothing, '/') =~= seq![nothing]);
}

/// The segments of `first/second`, both free of slashes.
proof fn lemma_pair(first: Seq<char>, second: Seq<char>)
    requires
        !first.contains('/'),
        !second.contains('/'),
    ensures
        split(first + seq!['/'] + second, '/') == seq![first, second],
{
    lemma_split_joined(first, second, '/');
    lemma_split_whole(first, '/');
    lemma_split_whole(second, '/');
    assert(seq![first] + seq![second] =~= seq![first, second]);
}

/// The segments of `first/second/third`, all free of slashes.
proof fn lemma_triple(first: Seq<char>, second: Seq<char>, third: Seq<char>)
    requires
        !first.contains('/'),
        !second.contains('/'),
        !third.contains('/'),
    ensures
        split(first + seq!['/'] + second + seq!['/'] + third, '/') == seq![first, second, third],
{
    lemma_pair(second, third);
    lemma_split_joined(first, second + seq!['/'] + third, '/');
    lemma_split_whole(first, '/');
    assert(first + seq!['/'] + (second + seq!['/'] + third) =~= first + seq!['/'] + second
        + seq!['/'] + third);
    assert(seq![first] + seq![second, third] =~= seq![first, second, third]);
}

/// The segments of the canonical hash of a route whose texts hold no slash.
proof fn lemma_hash_segments(route: RouteView)
    requires
        is_addressable(route),
    ensures
        split(hash_of(route), '/') == (match route {
            RouteView::Home => seq![Seq::<char>::empty(), Seq::<char>::empty()],
            RouteView::Login => seq![Seq::<char>::empty(), "login"@],
            RouteView::Register => seq![Seq::<char>::empty(), "register"@],
            RouteView::Settings => seq![Seq::<char>::empty(), "settings"@],
            RouteView::Editor { o_slug: None } => seq![Seq::<char>::empty(), "editor"@],
            RouteView::Editor { o_slug: Some(slug) } => seq![
                Seq::<char>::empty(),
                "editor"@,
                slug,
            ],
            RouteView::Article { slug } => seq![Seq::<char>::empty(), "article"@, slug],
            RouteView::Profile { username, is_favorites: false } => seq![
                Seq::<char>::empty(),
                "profile"@,
                username,
            ],
            RouteView::Profile { username, is_favorites: true } => seq![
                Seq::<char>::empty(),
                "profile"@,
                username,
                "favorites"@,
            ],
        }),
{
    let nothing = Seq::<char>::empty();
    lemma_keywords();
    match route {
        RouteView::Home => {
            lemma_rooted(nothing);
            assert(seq!['/'] + nothing =~= seq!['/']);
            assert(seq![nothing] + seq![nothing] =~= seq![nothing, nothing]);
        },
        RouteView::Login => {
            lemma_rooted("login"@);
            lemma_split_whole("login"@, '/');
            assert(seq![nothing] + seq!["login"@] =~= seq![nothing, "login"@]);
        },
        RouteView::Register => {
            lemma_rooted("register"@);
            lemma_split_whole("register"@, '/');
            assert(seq![nothing] + seq!["register"@] =~= seq![nothing, "register"@]);
        },
        RouteView::Settings => {
            lemma_rooted("settings"@);
            lemma_split_whole("settings"@, '/');
            assert(seq![nothing] + seq!["settings"@] =~= seq![nothing, "settings"@]);
        },
        RouteView::Editor { o_slug: None } => {
            lemma_rooted("editor"@);
            lemma_split_whole("editor"@, '/');
            assert(seq![nothing] + seq!["editor"@] =~= seq![nothing, "editor"@]);
        },
        RouteView::Editor { o_slug: Some(slug) } => {
            lemma_rooted("editor"@ + seq!['/'] + slug);
            lemma_pair("editor"@, slug);
            assert("/editor/"@ + slug =~= seq!['/'] + ("editor"@ + seq!['/'] + slug));
            assert(seq![nothing] + seq!["editor"@, slug] =~= seq![nothing, "editor"@, slug]);
        },
        RouteView::Article { slug } => {
            lemma_rooted("article"@ + seq!['/'] + slug);
            lemma_pair("article"@, slug);
            assert("/article/"@ + slug =~= seq!['/'] + ("article"@ + seq!['/'] + slug));
            assert(seq![nothing] + seq!["article"@, slug] =~= seq![nothing, "article"@, slug]);
        },
        RouteView::Profile { username, is_favorites: false } => {
            lemma_rooted("profile"@ + seq!['/'] + username);
            lemma_pair("profile"@, username);
            assert("/profile/"@ + username =~= seq!['/'] + ("profile"@ + seq!['/'] + username));
            assert(seq![nothing] + seq!["profile"@, username] =~= seq![
                nothing,
                "profile"@,
                username,
            ]);
        },
        RouteView::Profile { username, is_favorites: true } => {
            let rest = "profile"@ + seq!['/'] + username + seq!['/'] + "favorites"@;
            lemma_rooted(rest);
            lemma_triple("profile"@, username, "favorites"@);
            assert("/profile/"@ + username + "/favorites"@ =~= seq!['/'] + rest);
            assert(seq![nothing] + seq!["profile"@, username, "favorites"@] =~= seq![
                nothing,
                "profile"@,
                username,
                "favorites"@,
            ]);
        },
    }
}

/// Round trip through the hash: the canonical hash of a route names that
/// route again, provided each text of the route can stand as one segment.
pub proof fn lemma_hash_round_trip(route: RouteView)
    requires
        is_addressable(route),
    ensures
        route_of_hash(hash_of(route)) == Some(route),
{
    lemma_keywords();
    lemma_hash_segments(route);
}

/// Round trip through a location: once the canonical hash of a route is set
/// as the hash of a location, the location names that route. `base` is the
/// location before its `#`.
pub proof fn lemma_location_round_trip(base: Seq<char>, route: RouteView)
    requires
        !base.contains('#'),
        is_addressable(route),
    ensures
        route_of_location(base + seq!['#'] + hash_of(route)) == Some(route),
{
    let hash = hash_of(route);
    lemma_hash_round_trip(route);
    lemma_hash_free_of_mark(route);
    lemma_split_joined(base, hash, '#');
    lemma_split_whole(base, '#');
    lemma_split_whole(hash, '#');
    assert(seq![base] + seq![hash] =~= seq![base, hash]);
}

/// The canonical hash of an addressable route holds no `#`.
proof fn lemma_hash_free_of_mark(route: RouteView)
    requires
        is_addressable(route),
    ensures
        !hash_of(route).contains('#'),
{
    reveal_strlit("/");
    reveal_strlit("/login");
    reveal_strlit("/register");
    reveal_strlit("/settings");
    reveal_strlit("/editor");
    reveal_strlit("/editor/");
    reveal_strlit("/article/");
    reveal_strlit("/profile/");
    reveal_strlit("/favorites");
    let hash = hash_of(route);
    assert forall|i: int| 0 <= i < hash.len() implies hash[i] != '#' by {
        match route {
            RouteView::Editor { o_slug: Some(slug) } => {
                if i >= "/editor/"@.len() {
                    assert(slug.contains(slug[i - "/editor/"@.len()]));
                }
            },
            RouteView::Article { slug } => {
                if i >= "/article/"@.len() {
                    assert(slug.contains(slug[i - "/article/"@.len()]));
                }
            },
            RouteView::Profile { username, is_favorites } => {
                let start = "/profile/"@.len();
                if start <= i < start + username.len() {
                    assert(username.contains(username[i - start]));
                }
            },
            _ => {},
        }
    }
}

/// Whatever route a location names can be written down again: each text
/// of the route can stand as one segment, so that the canonical hash of the
/// route names the same route.
pub proof fn lemma_parsed_is_addressable(location: Seq<char>)
    requires
        route_of_location(location) is Some,
    ensures
        is_addressable(route_of_location(location)->0),
        route_of_hash(hash_of(route_of_location(location)->0)) == route_of_location(location),
{
    let halves = split(location, '#');
    let hash = halves[1];
    let segments = split(hash, '/');
    let route = route_of_location(location)->0;
    lemma_split_len(hash, '/');
    assert forall|k: int| 0 <= k < segments.len() implies is_segment(#[trigger] segments[k]) by {
        lemma_split_pieces_free(hash, '/', k);
        lemma_split_pieces_free(location, '#', 1);
        if segments[k].contains('#') {
            lemma_split_pieces_within(hash, '/', k, '#');
        }
    }
    if segments.len() >= 3 {
        assert(is_segment(segments[2]));
    }
    lemma_hash_round_trip(route);
}

/// Every location with exactly one `#` is answered from its hash alone:
/// with the route that the hash names, or else with the report of an
/// unsupported route that lists the segments of the hash.
pub proof fn lemma_parse_total(location: Seq<char>)
    requires
        count(location, '#') == 1,
    ensures
        split(location, '#').len() == 2,
        route_of_location(location) == route_of_hash(split(location, '#')[1]),
        route_of_location(location) is None ==> parse_error(location) == "unsupported route: "@
            + debug_text(split(split(location, '#')[1], '/')),
{
    lemma_split_len(location, '#');
}

} // verus!
