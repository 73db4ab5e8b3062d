use conduit_client::api::User;
use conduit_client::store::{delete_user, read_user, write_user, Access, Error, Item, Storage};

fn jake() -> User {
    User {
        email: "jake@jake.jake".to_string(),
        token: "jwt.token.here".to_string(),
        username: "jake".to_string(),
        bio: None,
        image: Some("https://i.stack.imgur.com/xHWG8.jpg".to_string()),
    }
}

#[test]
fn a_user_that_is_written_is_read() {
    let mut storage = Storage::new();
    assert!(matches!(read_user(&storage), Err(Error::NoSuchKey)));
    assert!(write_user(&mut storage, &jake()).is_ok());
    assert_eq!(read_user(&storage).unwrap(), jake());
}

#[test]
fn a_user_that_is_deleted_is_not_found() {
    let mut storage = Storage::new();
    write_user(&mut storage, &jake()).unwrap();
    assert!(delete_user(&mut storage).is_ok());
    assert!(matches!(read_user(&storage), Err(Error::NoSuchKey)));
    assert!(delete_user(&mut storage).is_ok());
}

#[test]
fn without_a_storage_nothing_works() {
    let mut storage = Storage::new();
    storage.access = Access::Missing;
    assert!(matches!(write_user(&mut storage, &jake()), Err(Error::NoLocalStorage)));
    assert!(matches!(read_user(&storage), Err(Error::NoLocalStorage)));
    assert!(matches!(delete_user(&mut storage), Err(Error::NoLocalStorage)));
    assert!(matches!(storage.item, Item::Missing));
}

#[test]
fn a_forbidden_storage_is_a_security_violation() {
    let mut storage = Storage::new();
    storage.item = Item::Holds { user: jake() };
    storage.access = Access::Forbidden;
    assert!(matches!(write_user(&mut storage, &jake()), Err(Error::SecurityViolation)));
    assert!(matches!(read_user(&storage), Err(Error::SecurityViolation)));
    assert!(matches!(delete_user(&mut storage), Err(Error::SecurityViolation)));
    assert!(matches!(storage.item, Item::Holds { .. }));
}

#[test]
fn a_full_storage_takes_no_user_and_keeps_the_old() {
    let mut storage = Storage::new();
    write_user(&mut storage, &jake()).unwrap();
    storage.full = true;
    let mut jane = jake();
    jane.username = "jane".to_string();
    assert!(matches!(write_user(&mut storage, &jane), Err(Error::CantStore)));
    assert_eq!(read_user(&storage).unwrap(), jake());
}

#[test]
fn a_broken_storage_answers_no_lookup_and_no_removal() {
    let mut storage = Storage::new();
    write_user(&mut storage, &jake()).unwrap();
    storage.broken = true;
    assert!(matches!(read_user(&storage), Err(Error::CantGetKey)));
    assert!(matches!(delete_user(&mut storage), Err(Error::CantGetKey)));
    storage.broken = false;
    assert_eq!(read_user(&storage).unwrap(), jake());
}

#[test]
fn what_does_not_read_as_a_user_cannot_be_deserialized() {
    let mut storage = Storage::new();
    storage.item = Item::Garbled { reason: "missing field `token`".to_string() };
    match read_user(&storage) {
        Err(Error::CantDeserialize { source }) => assert_eq!(source, "missing field `token`"),
        other => panic!("unexpected: {:?}", other),
    }
    write_user(&mut storage, &jake()).unwrap();
    assert_eq!(read_user(&storage).unwrap(), jake());
}

#[test]
fn errors_say_their_name_and_their_cause() {
    assert_eq!(Error::SecurityViolation.message(), "SecurityViolation");
    assert_eq!(Error::NoLocalStorage.message(), "NoLocalStorage");
    assert_eq!(Error::CantStore.message(), "CantStore");
    assert_eq!(Error::CantGetKey.message(), "CantGetKey");
    assert_eq!(Error::NoSuchKey.message(), "NoSuchKey");
    assert_eq!(
        Error::CantSerialize { source: "key must be a string".to_string() }.message(),
        "CantSerialize: key must be a string"
    );
    assert_eq!(
        Error::CantDeserialize { source: "EOF".to_string() }.message(),
        "CantDeserialize: EOF"
    );
}

#[test]
fn a_user_that_cannot_be_written_down_fails_before_the_storage_is_asked() {
    let mut storage = Storage::new();
    storage.unwritable = Some("key must be a string".to_string());
    storage.access = Access::Missing;
    match write_user(&mut storage, &jake()) {
        Err(Error::CantSerialize { source }) => assert_eq!(source, "key must be a string"),
        other => panic!("unexpected: {:?}", other),
    }
    assert!(matches!(read_user(&storage), Err(Error::NoLocalStorage)));
    storage.access = Access::Granted;
    assert!(matches!(read_user(&storage), Err(Error::NoSuchKey)));
    assert!(delete_user(&mut storage).is_ok());
}
