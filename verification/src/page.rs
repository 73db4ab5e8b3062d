//! The pages of the application: for each route the page that is mounted
//! while the route is shown.

use crate::component::Command;
use crate::components::login::Login;
use crate::components::register::Register;
use crate::components::settings::{
    just_mounted, In as SettingsIn, Out as SettingsOut, Settings,
};
use crate::route::{Route, RouteView};
use crate::store::{Storage, StorageView};
use crate::text::{clone_option, opt_text};
use crate::widgets::InputOrArea;
use vstd::prelude::*;
use vstd::string::*;

verus! {

/// A page, with the form that lives on it where one does.
pub enum Page<T> {
    Home,
    Login(Login<T>),
    Register(Register<T>),
    /// The settings, with what the form asked for when it was mounted.
    Settings { form: Settings<T>, pending: Vec<Command<SettingsIn<T>, SettingsOut>> },
    Editor { o_slug: Option<String> },
    Article { slug: String },
    Profile { username: String, is_favorites: bool },
}

/// The route that a page is the page of.
pub open spec fn route_shown<T>(page: Page<T>) -> RouteView {
    match page {
        Page::Home => RouteView::Home,
        Page::Login(_) => RouteView::Login,
        Page::Register(_) => RouteView::Register,
        Page::Settings { .. } => RouteView::Settings,
        Page::Editor { o_slug } => RouteView::Editor { o_slug: opt_text(o_slug) },
        Page::Article { slug } => RouteView::Article { slug: slug@ },
        Page::Profile { username, is_favorites } => RouteView::Profile {
            username: username@,
            is_favorites,
        },
    }
}

/// Whether a page is as it stands when it is mounted: the elements of its
/// form are not built yet, and the settings are as they stand when they are
/// mounted over the storage.
pub open spec fn is_fresh<T: InputOrArea>(page: Page<T>, storage: StorageView) -> bool {
    match page {
        Page::Login(form) => form.email_input is None && form.password_input is None,
        Page::Register(form) => form.username_input is None && form.email_input is None
            && form.password_input is None,
        Page::Settings { form, pending } => just_mounted(form, pending@, storage),
        _ => true,
    }
}

impl<T: InputOrArea> Page<T> {
    /// The page of `route`, as it stands when it is mounted.
    pub fn mount(route: &Route, storage: &Storage) -> (page: Page<T>)
        ensures
            route_shown(page) == route@,
            is_fresh(page, storage@),
    {
        match route {
            Route::Home => Page::Home,
            Route::Login => Page::Login(Login::new()),
            Route::Register => Page::Register(Register::new()),
            Route::Settings => {
                let (form, pending) = Settings::new(storage);
                Page::Settings { form, pending }
            },
            Route::Editor { o_slug } => Page::Editor { o_slug: clone_option(o_slug) },
            Route::Article { slug } => Page::Article { slug: slug.clone() },
            Route::Profile { username, is_favorites } => Page::Profile {
                username: username.clone(),
                is_favorites: *is_favorites,
            },
        }
    }
}

} // verus!
