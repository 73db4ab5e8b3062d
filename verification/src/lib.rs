//! The reactive core of a single-page client: hash routes, patch-driven child
//! lists, multicast event channels and the update half of every component.

pub mod api;
pub mod channel;
pub mod component;
pub mod components;
pub mod page;
pub mod patch;
pub mod route;
pub mod shell;
pub mod store;
pub mod text;
pub mod widgets;
