//! The session as the browser keeps it: one user, under one key of the
//! local storage.
//!
//! `Storage` holds what the browser answers. Whoever talks to the browser
//! puts its answers down here, so that what is decided over a storage is
//! decided as the browser has it.

use crate::api::{User, UserView};
use crate::text::opt_text;
use vstd::prelude::*;
use vstd::string::*;

verus! {

/// All that can go wrong with the storage.
#[derive(Debug)]
pub enum Error {
    SecurityViolation,
    /// The user could not be written down; `source` says why.
    CantSerialize { source: String },
    /// What is stored does not read as a user; `source` says why.
    CantDeserialize { source: String },
    NoLocalStorage,
    CantStore,
    CantGetKey,
    NoSuchKey,
}

/// An error with its texts as sequences of characters.
pub enum ErrorView {
    SecurityViolation,
    CantSerialize { source: Seq<char> },
    CantDeserialize { source: Seq<char> },
    NoLocalStorage,
    CantStore,
    CantGetKey,
    NoSuchKey,
}

impl View for Error {
    type V = ErrorView;

    open spec fn view(&self) -> ErrorView {
        match self {
            Error::SecurityViolation => ErrorView::SecurityViolation,
            Error::CantSerialize { source } => ErrorView::CantSerialize { source: source@ },
            Error::CantDeserialize { source } => ErrorView::CantDeserialize { source: source@ },
            Error::NoLocalStorage => ErrorView::NoLocalStorage,
            Error::CantStore => ErrorView::CantStore,
            Error::CantGetKey => ErrorView::CantGetKey,
            Error::NoSuchKey => ErrorView::NoSuchKey,
        }
    }
}

/// What an error says of itself: its name, and behind a colon what caused
/// it, where something did.
pub open spec fn message_of(error: ErrorView) -> Seq<char> {
    match error {
        ErrorView::SecurityViolation => "SecurityViolation"@,
        ErrorView::CantSerialize { source } => "CantSerialize: "@ + source,
        ErrorView::CantDeserialize { source } => "CantDeserialize: "@ + source,
        ErrorView::NoLocalStorage => "NoLocalStorage"@,
        ErrorView::CantStore => "CantStore"@,
        ErrorView::CantGetKey => "CantGetKey"@,
        ErrorView::NoSuchKey => "NoSuchKey"@,
    }
}

impl Error {
    /// What the error says of itself.
    pub fn message(&self) -> (text: String)
        ensures
            text@ == message_of(self@),
    {
        match self {
            Error::SecurityViolation => String::from_str("SecurityViolation"),
            Error::CantSerialize { source } => {
                let mut text = String::from_str("CantSerialize: ");
                text.append(source.as_str());
                text
            },
            Error::CantDeserialize { source } => {
                let mut text = String::from_str("CantDeserialize: ");
                text.append(source.as_str());
                text
            },
            Error::NoLocalStorage => String::from_str("NoLocalStorage"),
            Error::CantStore => String::from_str("CantStore"),
            Error::CantGetKey => String::from_str("CantGetKey"),
            Error::NoSuchKey => String::from_str("NoSuchKey"),
        }
    }
}

/// What asking the browser for its local storage brings.
#[derive(Clone, Copy, Debug, PartialEq, Eq, Structural)]
pub enum Access {
    /// There is none to be had.
    Missing,
    /// There is one, and the page may not use it.
    Forbidden,
    /// There is one to use.
    Granted,
}

/// What stands under the key of the user.
#[derive(Debug)]
pub enum Item {
    /// Nothing.
    Missing,
    /// Something that does not read as a user; `reason` says why.
    Garbled { reason: String },
    /// A user.
    Holds { user: User },
}

/// An item with its texts as sequences of characters.
pub enum ItemView {
    Missing,
    Garbled { reason: Seq<char> },
    Holds { user: UserView },
}

impl View for Item {
    type V = ItemView;

    open spec fn view(&self) -> ItemView {
        match self {
            Item::Missing => ItemView::Missing,
            Item::Garbled { reason } => ItemView::Garbled { reason: reason@ },
            Item::Holds { user } => ItemView::Holds { user: user@ },
        }
    }
}

/// The local storage as this application meets it.
#[derive(Debug)]
pub struct Storage {
    /// What asking for the storage brings.
    pub access: Access,
    /// Why a user cannot be written down, where one cannot.
    pub unwritable: Option<String>,
    /// Whether the storage takes no more: a write is refused.
    pub full: bool,
    /// Whether the storage answers no lookup and no removal.
    pub broken: bool,
    /// What stands under the key of the user.
    pub item: Item,
}

/// A storage with its texts as sequences of characters.
pub struct StorageView {
    pub access: Access,
    pub unwritable: Option<Seq<char>>,
    pub full: bool,
    pub broken: bool,
    pub item: ItemView,
}

impl View for Storage {
    type V = StorageView;

    open spec fn view(&self) -> StorageView {
        StorageView {
            access: self.access,
            unwritable: opt_text(self.unwritable),
            full: self.full,
            broken: self.broken,
            item: self.item@,
        }
    }
}

/// The error that keeps the page from its storage, if one does.
pub open spec fn barred(storage: StorageView) -> Option<ErrorView> {
    match storage.access {
        Access::Missing => Some(ErrorView::NoLocalStorage),
        Access::Forbidden => Some(ErrorView::SecurityViolation),
        Access::Granted => None,
    }
}

/// What writing `user` brings. The user is written down before the storage
/// is asked for, so that a user who cannot be written down fails first.
pub open spec fn write_result(storage: StorageView, user: UserView) -> Result<(), ErrorView> {
    match storage.unwritable {
        Some(reason) => Err(ErrorView::CantSerialize { source: reason }),
        None => match barred(storage) {
            Some(error) => Err(error),
            None => if storage.full {
                Err(ErrorView::CantStore)
            } else {
                Ok(())
            },
        },
    }
}

/// The storage after `user` was written: it holds the user where the write
/// succeeds, and is as before where it fails.
pub open spec fn written(storage: StorageView, user: UserView) -> StorageView {
    if write_result(storage, user) is Ok {
        StorageView { item: ItemView::Holds { user }, ..storage }
    } else {
        storage
    }
}

/// What reading the user brings.
pub open spec fn read_result(storage: StorageView) -> Result<UserView, ErrorView> {
    match barred(storage) {
        Some(error) => Err(error),
        None => if storage.broken {
            Err(ErrorView::CantGetKey)
        } else {
            match storage.item {
                ItemView::Missing => Err(ErrorView::NoSuchKey),
                ItemView::Garbled { reason } => Err(ErrorView::CantDeserialize { source: reason }),
                ItemView::Holds { user } => Ok(user),
            }
        },
    }
}

/// What deleting the user brings.
pub open spec fn delete_result(storage: StorageView) -> Result<(), ErrorView> {
    match barred(storage) {
        Some(error) => Err(error),
        None => if storage.broken {
            Err(ErrorView::CantGetKey)
        } else {
            Ok(())
        },
    }
}

/// The storage after the user was deleted: nothing stands under the key
/// where the removal succeeds, and all is as before where it fails.
pub open spec fn deleted(storage: StorageView) -> StorageView {
    if delete_result(storage) is Ok {
        StorageView { item: ItemView::Missing, ..storage }
    } else {
        storage
    }
}

/// Whether a result and its view say the same.
pub open spec fn unit_result_is(result: Result<(), Error>, view: Result<(), ErrorView>) -> bool {
    match result {
        Ok(()) => view is Ok,
        Err(error) => view == Err::<(), ErrorView>(error@),
    }
}

/// Whether a result and its view say the same.
pub open spec fn user_result_is(result: Result<User, Error>, view: Result<UserView, ErrorView>) -> bool {
    match result {
        Ok(user) => view == Ok::<UserView, ErrorView>(user@),
        Err(error) => view == Err::<UserView, ErrorView>(error@),
    }
}

impl Storage {
    /// A storage that is granted, sound and empty.
    pub fn new() -> (storage: Storage)
        ensures
            storage@ == (StorageView {
                access: Access::Granted,
                unwritable: None,
                full: false,
                broken: false,
                item: ItemView::Missing,
            }),
    {
        Storage {
            access: Access::Granted,
            unwritable: None,
            full: false,
            broken: false,
            item: Item::Missing,
        }
    }

    fn open(&self) -> (opened: Result<(), Error>)
        ensures
            match barred(self@) {
                Some(error) => opened is Err && opened->Err_0@ == error,
                None => opened is Ok,
            },
    {
        match self.access {
            Access::Missing => Err(Error::NoLocalStorage),
            Access::Forbidden => Err(Error::SecurityViolation),
            Access::Granted => Ok(()),
        }
    }
}

/// Keeps `user` as the one who is signed in.
pub fn write_user(storage: &mut Storage, user: &User) -> (result: Result<(), Error>)
    ensures
        unit_result_is(result, write_result(old(storage)@, user@)),
        final(storage)@ == written(old(storage)@, user@),
{
    match &storage.unwritable {
        Some(reason) => Err(Error::CantSerialize { source: reason.clone() }),
        None => match storage.open() {
            Err(error) => Err(error),
            Ok(()) => {
                if storage.full {
                    Err(Error::CantStore)
                } else {
                    storage.item = Item::Holds { user: user.clone() };
                    Ok(())
                }
            },
        },
    }
}

/// The user who is signed in.
pub fn read_user(storage: &Storage) -> (result: Result<User, Error>)
    ensures
        user_result_is(result, read_result(storage@)),
{
    match storage.open() {
        Err(error) => Err(error),
        Ok(()) => {
            if storage.broken {
                Err(Error::CantGetKey)
            } else {
                match &storage.item {
                    Item::Missing => Err(Error::NoSuchKey),
                    Item::Garbled { reason } => Err(
                        Error::CantDeserialize { source: reason.clone() },
                    ),
                    Item::Holds { user } => Ok(user.clone()),
                }
            }
        },
    }
}

/// Forgets who is signed in.
pub fn delete_user(storage: &mut Storage) -> (result: Result<(), Error>)
    ensures
        unit_result_is(result, delete_result(old(storage)@)),
        final(storage)@ == deleted(old(storage)@),
{
    match storage.open() {
        Err(error) => Err(error),
        Ok(()) => {
            if storage.broken {
                Err(Error::CantGetKey)
            } else {
                storage.item = Item::Missing;
                Ok(())
            }
        },
    }
}

/// A user that was written is the user that is read, as long as lookups
/// are answered.
pub proof fn lemma_read_after_write(storage: StorageView, user: UserView)
    requires
        write_result(storage, user) is Ok,
        !storage.broken,
    ensures
        read_result(written(storage, user)) == Ok::<UserView, ErrorView>(user),
{
}

/// Once the user is deleted, no user is found.
pub proof fn lemma_read_after_delete(storage: StorageView)
    requires
        delete_result(storage) is Ok,
    ensures
        read_result(deleted(storage)) == Err::<UserView, ErrorView>(ErrorView::NoSuchKey),
{
}

} // verus!
