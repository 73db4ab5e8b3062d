//! The navigation bar: it follows the route, names the document after it,
//! and shows the links that fit whoever is signed in.

use crate::api::{opt_user, same_user, User, UserView};
use crate::component::Command;
use crate::patch::Patch;
use crate::route::{
    link_class, parse_error, route_of_location, title_of, Route, RouteView,
};
use crate::store::{read_result, read_user, Storage};
use vstd::prelude::*;
use vstd::string::*;

verus! {

/// Where a link of the navigation bar leads.
#[derive(Clone, Copy, Debug, PartialEq, Eq, Structural)]
pub enum LinkKind {
    Home,
    Login,
    Register,
    Editor,
    Settings,
    Profile,
}

/// Whether a link of kind `kind` is active while `route` is shown.
pub open spec fn is_active(kind: LinkKind, route: RouteView) -> bool {
    match kind {
        LinkKind::Home => route is Home,
        LinkKind::Login => route is Login,
        LinkKind::Register => route is Register,
        LinkKind::Editor => route is Editor,
        LinkKind::Settings => route is Settings,
        LinkKind::Profile => route is Profile,
    }
}

impl LinkKind {
    /// The class of a link of this kind while `route` is shown.
    pub fn class(&self, route: &Route) -> (class: String)
        ensures
            class@ == link_class(is_active(*self, route@)),
    {
        match self {
            LinkKind::Home => route.nav_home_class(),
            LinkKind::Login => route.nav_login_class(),
            LinkKind::Register => route.nav_register_class(),
            LinkKind::Editor => route.nav_editor_class(),
            LinkKind::Settings => route.nav_settings_class(),
            LinkKind::Profile => route.nav_profile_class(),
        }
    }
}

/// One link of the navigation bar.
#[derive(Debug)]
pub struct NavLink {
    pub kind: LinkKind,
    pub href: String,
    pub label: String,
    pub class: String,
}

/// A link with its texts as sequences of characters.
pub struct NavLinkView {
    pub kind: LinkKind,
    pub href: Seq<char>,
    pub label: Seq<char>,
    pub class: Seq<char>,
}

impl View for NavLink {
    type V = NavLinkView;

    open spec fn view(&self) -> NavLinkView {
        NavLinkView { kind: self.kind, href: self.href@, label: self.label@, class: self.class@ }
    }
}

impl Clone for NavLink {
    fn clone(&self) -> (copy: NavLink)
        ensures
            copy@ == self@,
    {
        NavLink {
            kind: self.kind,
            href: self.href.clone(),
            label: self.label.clone(),
            class: self.class.clone(),
        }
    }
}

/// The views of a list of links.
pub open spec fn link_views(links: Seq<NavLink>) -> Seq<NavLinkView> {
    Seq::new(links.len(), |i: int| links[i]@)
}

/// A link of `kind` to `href`, labelled `label`, while `route` is shown.
pub open spec fn link_for(kind: LinkKind, href: Seq<char>, label: Seq<char>, route: RouteView) -> NavLinkView {
    NavLinkView { kind, href, label, class: link_class(is_active(kind, route)) }
}

/// The links of the navigation bar while `route` is shown. Whoever is
/// signed in finds the way home, to a new post, to the settings and to
/// their own profile; everybody else the way home, to the login and to the
/// registration.
pub open spec fn links_for(route: RouteView, o_user: Option<UserView>) -> Seq<NavLinkView> {
    match o_user {
        Some(user) => seq![
            link_for(LinkKind::Home, "#/"@, " Home"@, route),
            link_for(LinkKind::Editor, "#/editor"@, " New Post"@, route),
            link_for(LinkKind::Settings, "#/settings"@, " Settings"@, route),
            link_for(LinkKind::Profile, "#/profile/"@ + user.username, " "@ + user.username, route),
        ],
        None => seq![
            link_for(LinkKind::Home, "#/"@, " Home"@, route),
            link_for(LinkKind::Login, "#/login"@, " Sign in"@, route),
            link_for(LinkKind::Register, "#/register"@, " Sign up"@, route),
        ],
    }
}

fn link(kind: LinkKind, href: String, label: String, route: &Route) -> (link: NavLink)
    ensures
        link@ == link_for(kind, href@, label@, route@),
{
    NavLink { kind, href, label, class: kind.class(route) }
}

/// The links of the navigation bar while `route` is shown to `o_user`.
pub fn list_view(route: &Route, o_user: Option<&User>) -> (links: Vec<NavLink>)
    ensures
        link_views(links@) == links_for(
            route@,
            match o_user {
                Some(user) => Some(user@),
                None => None,
            },
        ),
{
    let mut links: Vec<NavLink> = Vec::new();
    links.push(link(LinkKind::Home, String::from_str("#/"), String::from_str(" Home"), route));
    match o_user {
        Some(user) => {
            links.push(
                link(
                    LinkKind::Editor,
                    String::from_str("#/editor"),
                    String::from_str(" New Post"),
                    route,
                ),
            );
            links.push(
                link(
                    LinkKind::Settings,
                    String::from_str("#/settings"),
                    String::from_str(" Settings"),
                    route,
                ),
            );
            let mut href = String::from_str("#/profile/");
            href.append(user.username.as_str());
            let mut label = String::from_str(" ");
            label.append(user.username.as_str());
            links.push(link(LinkKind::Profile, href, label, route));
            assert(link_views(links@) =~= links_for(route@, Some(user@)));
        },
        None => {
            links.push(
                link(
                    LinkKind::Login,
                    String::from_str("#/login"),
                    String::from_str(" Sign in"),
                    route,
                ),
            );
            links.push(
                link(
                    LinkKind::Register,
                    String::from_str("#/register"),
                    String::from_str(" Sign up"),
                    route,
                ),
            );
            assert(link_views(links@) =~= links_for(route@, None));
        },
    }
    links
}

/// What the navigation bar is told.
#[derive(Debug)]
pub enum NavModel {
    /// The hash of the location names this route now.
    HashChange(Route),
}

/// What the navigation bar tells its view.
#[derive(Debug)]
pub enum NavView {
    /// This route is shown now.
    Route(Route),
    /// The list of links changes so.
    PatchListView(Patch<Vec<NavLink>>),
}

impl NavView {
    /// The route, where the message brings one.
    pub fn route(&self) -> (route: Option<Route>)
        ensures
            match self {
                NavView::Route(r) => route matches Some(found) && found@ == r@,
                _ => route is None,
            },
    {
        match self {
            NavView::Route(route) => Some(route.clone()),
            _ => None,
        }
    }

    /// The patch to the list of links, where the message brings one.
    pub fn patch_list_view(&self) -> (patch: Option<Patch<Vec<NavLink>>>)
        ensures
            match self {
                NavView::PatchListView(p) => patch matches Some(found) && same_link_patch(
                    found,
                    *p,
                ),
                _ => patch is None,
            },
    {
        match self {
            NavView::PatchListView(patch) => Some(clone_link_patch(patch)),
            _ => None,
        }
    }
}

/// Whether two patches do the same with lists of links that read the
/// same.
pub open spec fn same_link_patch(a: Patch<Vec<NavLink>>, b: Patch<Vec<NavLink>>) -> bool {
    match (a, b) {
        (Patch::PushBack { value: x }, Patch::PushBack { value: y }) => link_views(x@)
            == link_views(y@),
        (Patch::RemoveAll, Patch::RemoveAll) => true,
        (Patch::Replace { index: i, value: x }, Patch::Replace { index: j, value: y }) => i == j
            && link_views(x@) == link_views(y@),
        _ => false,
    }
}

fn clone_links(links: &Vec<NavLink>) -> (copy: Vec<NavLink>)
    ensures
        link_views(copy@) == link_views(links@),
{
    let mut copy: Vec<NavLink> = Vec::new();
    let mut i: usize = 0;
    while i < links.len()
        invariant
            i <= links.len(),
            copy@.len() == i,
            forall|k: int| 0 <= k < i ==> copy@[k]@ == links@[k]@,
        decreases links.len() - i,
    {
        copy.push(links[i].clone());
        i += 1;
    }
    assert(link_views(copy@) =~= link_views(links@));
    copy
}

fn clone_link_patch(patch: &Patch<Vec<NavLink>>) -> (copy: Patch<Vec<NavLink>>)
    ensures
        same_link_patch(copy, *patch),
{
    match patch {
        Patch::PushBack { value } => Patch::PushBack { value: clone_links(value) },
        Patch::RemoveAll => Patch::RemoveAll,
        Patch::Replace { index, value } => Patch::Replace {
            index: *index,
            value: clone_links(value),
        },
    }
}

/// The navigation bar.
#[derive(Debug)]
pub struct Nav {
    pub current_route: Route,
    pub o_user: Option<User>,
}

/// The route that a location names, or the home page where it names none.
pub open spec fn route_or_home(location: Seq<char>) -> RouteView {
    match route_of_location(location) {
        Some(route) => route,
        None => RouteView::Home,
    }
}

/// The user that a result of reading brings, if it brings one.
pub open spec fn user_read(storage: crate::store::StorageView) -> Option<UserView> {
    match read_result(storage) {
        Ok(user) => Some(user),
        Err(_) => None,
    }
}

/// Whether the commands are those of a transition to `route`: the document
/// gets the title of the route, the view is told the route, and, where
/// `o_links` holds links, the list of links, which is the child at index 1
/// of the bar, is replaced by them.
pub open spec fn is_transition(
    commands: Seq<Command<NavModel, NavView>>,
    route: RouteView,
    o_links: Option<Seq<NavLinkView>>,
) -> bool {
    &&& commands.len() == if o_links is Some {
        3nat
    } else {
        2nat
    }
    &&& commands[0] matches Command::SetTitle(title) && title@ == title_of(route)
    &&& commands[1] matches Command::Send(NavView::Route(told)) && told@ == route
    &&& o_links matches Some(links) ==> (commands[2] matches Command::Send(
        NavView::PatchListView(Patch::Replace { index, value }),
    ) && index == 1 && link_views(value@) == links)
}

/// Whether `after` and `commands` are what the bar `before` comes to when
/// the location names `route`.
///
/// The route that is shown already changes nothing. Another route is a
/// transition to it; the list of links is replaced only where the storage
/// no longer holds the user that the bar knows.
pub open spec fn follows(
    before: Nav,
    route: RouteView,
    storage: crate::store::StorageView,
    after: Nav,
    commands: Seq<Command<NavModel, NavView>>,
) -> bool {
    if route == before.current_route@ {
        &&& commands.len() == 0
        &&& after.current_route@ == before.current_route@
        &&& opt_user(after.o_user) == opt_user(before.o_user)
    } else {
        &&& after.current_route@ == route
        &&& opt_user(after.o_user) == user_read(storage)
        &&& is_transition(
            commands,
            route,
            if user_read(storage) == opt_user(before.o_user) {
                None
            } else {
                Some(links_for(route, user_read(storage)))
            },
        )
    }
}

impl Nav {
    /// The bar as it stands when the page is loaded at `location`: on the
    /// route that the location names, or at home where it names none, and
    /// with the user that the storage holds, if it holds one.
    pub fn new(location: &str, storage: &Storage) -> (nav: Nav)
        ensures
            nav.current_route@ == route_or_home(location@),
            opt_user(nav.o_user) == user_read(storage@),
    {
        let current_route = match Route::try_from(location) {
            Ok(route) => route,
            Err(_) => Route::Home,
        };
        let o_user = match read_user(storage) {
            Ok(user) => Some(user),
            Err(_) => None,
        };
        Nav { current_route, o_user }
    }

    /// The message that a change of the location to `new_url` brings, or,
    /// where the new location names no route, the report of that, to be
    /// logged.
    pub fn hash_changed(new_url: &str) -> (msg: Result<NavModel, String>)
        ensures
            match route_of_location(new_url@) {
                Some(route) => msg matches Ok(NavModel::HashChange(r)) && r@ == route,
                None => msg matches Err(report) && report@ == parse_error(new_url@),
            },
    {
        match Route::try_from(new_url) {
            Ok(route) => Ok(NavModel::HashChange(route)),
            Err(report) => Err(report),
        }
    }

    /// Answers one message.
    pub fn update(&mut self, msg: &NavModel, storage: &Storage) -> (commands: Vec<
        Command<NavModel, NavView>,
    >)
        ensures
            match msg {
                NavModel::HashChange(route) => follows(
                    *old(self),
                    route@,
                    storage@,
                    *final(self),
                    commands@,
                ),
            },
    {
        let mut commands: Vec<Command<NavModel, NavView>> = Vec::new();
        match msg {
            NavModel::HashChange(route) => {
                if *route != self.current_route {
                    self.current_route = route.clone();
                    commands.push(Command::SetTitle(route.as_title()));
                    commands.push(Command::Send(NavView::Route(route.clone())));
                    let o_user = match read_user(storage) {
                        Ok(user) => Some(user),
                        Err(_) => None,
                    };
                    if !same_user(&o_user, &self.o_user) {
                        self.o_user = o_user;
                        let links = list_view(&self.current_route, self.o_user.as_ref());
                        commands.push(
                            Command::Send(
                                NavView::PatchListView(Patch::Replace { index: 1, value: links }),
                            ),
                        );
                    }
                }
            },
        }
        commands
    }

    /// Follows a change of the location to `new_url`. A location that names
    /// no route is not followed: the bar stays as it is and asks for
    /// nothing, and the report of the location is returned, to be logged.
    pub fn navigate(&mut self, new_url: &str, storage: &Storage) -> (followed: Result<
        Vec<Command<NavModel, NavView>>,
        String,
    >)
        ensures
            match route_of_location(new_url@) {
                Some(route) => followed matches Ok(commands) && follows(
                    *old(self),
                    route,
                    storage@,
                    *final(self),
                    commands@,
                ),
                None => {
                    &&& followed matches Err(report) && report@ == parse_error(new_url@)
                    &&& final(self).current_route@ == old(self).current_route@
                    &&& opt_user(final(self).o_user) == opt_user(old(self).o_user)
                },
            },
    {
        match Nav::hash_changed(new_url) {
            Ok(msg) => Ok(self.update(&msg, storage)),
            Err(report) => Err(report),
        }
    }
}

} // verus!
