//! The application as a whole: the navigation bar, the page that is shown,
//! and the footer, in that order.

use crate::api::opt_user;
use crate::component::Command;
use crate::components::nav::{route_or_home, user_read, Nav, NavView};
use crate::page::{is_fresh, route_shown, Page};
use crate::patch::{ChildList, Patch};
use crate::route::Route;
use crate::store::Storage;
use crate::widgets::InputOrArea;
use vstd::prelude::*;

verus! {

/// The application.
#[derive(Debug)]
pub struct App {
    pub nav: Nav,
}

/// What the application is told.
#[derive(Debug)]
pub enum AppModel {
    /// The navigation bar has moved on to this route.
    HashChange { route: Route },
}

/// What the application tells its view.
pub enum AppView<T> {
    /// This page is shown now, for this route.
    NewPage { page: Page<T>, route: Route },
}

/// A child of the application.
pub enum Slot<T> {
    Nav,
    Page(Page<T>),
    Footer,
}

/// The place of the page among the children of the application: behind the
/// navigation bar, before the footer.
pub const PAGE_INDEX: usize = 1;

impl<T> AppView<T> {
    /// The patch that puts the new page in the place of the old.
    pub fn page_patch(self) -> (patch: Patch<Slot<T>>)
        ensures
            match self {
                AppView::NewPage { page, .. } => patch == (Patch::Replace {
                    index: PAGE_INDEX,
                    value: Slot::Page(page),
                }),
            },
    {
        match self {
            AppView::NewPage { page, .. } => Patch::Replace {
                index: PAGE_INDEX,
                value: Slot::Page(page),
            },
        }
    }
}

impl App {
    /// The application as it stands when the page is loaded at `location`.
    pub fn new(location: &str, storage: &Storage) -> (app: App)
        ensures
            app.nav.current_route@ == route_or_home(location@),
            opt_user(app.nav.o_user) == user_read(storage@),
    {
        App { nav: Nav::new(location, storage) }
    }

    /// The message that a message of the navigation bar brings to the
    /// application: a route that the bar has moved on to is a change for the
    /// application, and nothing else is.
    pub fn bind(msg: &NavView) -> (forwarded: Option<AppModel>)
        ensures
            match msg {
                NavView::Route(route) => forwarded matches Some(AppModel::HashChange { route: r })
                    && r@ == route@,
                _ => forwarded is None,
            },
    {
        match msg.route() {
            Some(route) => Some(AppModel::HashChange { route }),
            None => None,
        }
    }

    /// The children that the application declares: the navigation bar, the
    /// page of the route that the bar is on, and the footer.
    pub fn view<T: InputOrArea>(&self, storage: &Storage) -> (children: ChildList<Slot<T>>)
        ensures
            children.fixed() == 3,
            children.children().len() == 3,
            children.children()[0] is Nav,
            children.children()[1] matches Slot::Page(page) && route_shown(page)
                == self.nav.current_route@ && is_fresh(page, storage@),
            children.children()[2] is Footer,
    {
        let mut declared: Vec<Slot<T>> = Vec::new();
        declared.push(Slot::Nav);
        declared.push(Slot::Page(Page::mount(&self.nav.current_route, storage)));
        declared.push(Slot::Footer);
        ChildList::new(declared)
    }

    /// Answers one message: the page of the new route is mounted and told
    /// to the view.
    pub fn update<T: InputOrArea>(&mut self, msg: &AppModel, storage: &Storage) -> (commands: Vec<
        Command<AppModel, AppView<T>>,
    >)
        ensures
            *final(self) == *old(self),
            match msg {
                AppModel::HashChange { route } => {
                    &&& commands@.len() == 1
                    &&& commands@[0] matches Command::Send(AppView::NewPage { page, route: told })
                        && told@ == route@ && route_shown(page) == route@ && is_fresh(
                        page,
                        storage@,
                    )
                },
            },
    {
        let mut commands: Vec<Command<AppModel, AppView<T>>> = Vec::new();
        match msg {
            AppModel::HashChange { route } => {
                let page = Page::mount(route, storage);
                commands.push(Command::Send(AppView::NewPage { page, route: route.clone() }));
            },
        }
        commands
    }
}

/// A new page takes the place of the old and of nothing else: the
/// navigation bar stays before it and the footer behind it.
pub proof fn lemma_page_replaced<T>(children: Seq<Slot<T>>, page: Page<T>)
    requires
        children.len() == 3,
    ensures
        ({
            let after = crate::patch::patched(
                3,
                children,
                Patch::Replace { index: PAGE_INDEX, value: Slot::Page(page) },
            );
            &&& after.len() == 3
            &&& after[0] == children[0]
            &&& after[1] == Slot::Page(page)
            &&& after[2] == children[2]
        }),
{
}

} // verus!
