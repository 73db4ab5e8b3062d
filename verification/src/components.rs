//! The components of the application, each with its state, its messages
//! and its update.

pub mod form;
pub mod login;
pub mod nav;
pub mod profile;
pub mod register;
pub mod settings;
