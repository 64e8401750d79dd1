use std::borrow::Cow;
use std::error::Error as StdError;
use std::fmt;

use fkb_repositories::base::{changed, removed, settled};
use fkb_repositories::error::{classify, ErrorKind, RepositoryError};

#[derive(Debug)]
struct VendorError {
    code: Option<&'static str>,
    message: &'static str,
}

impl fmt::Display for VendorError {
    fn fmt(&self, f: &mut fmt::Formatter<'_>) -> fmt::Result {
        f.write_str(self.message)
    }
}

impl StdError for VendorError {}

impl sqlx::error::DatabaseError for VendorError {
    fn message(&self) -> &str {
        self.message
    }

    fn code(&self) -> Option<Cow<'_, str>> {
        self.code.map(Cow::Borrowed)
    }

    fn as_error(&self) -> &(dyn StdError + Send + Sync + 'static) {
        self
    }

    fn as_error_mut(&mut self) -> &mut (dyn StdError + Send + Sync + 'static) {
        self
    }

    fn into_error(self: Box<Self>) -> Box<dyn StdError + Send + Sync + 'static> {
        self
    }

    fn kind(&self) -> sqlx::error::ErrorKind {
        sqlx::error::ErrorKind::Other
    }
}

fn vendor(code: Option<&'static str>, message: &'static str) -> sqlx::Error {
    sqlx::Error::Database(Box::new(VendorError { code, message }))
}

#[test]
fn row_not_found_is_not_found() {
    assert!(matches!(
        RepositoryError::from_sqlx(sqlx::Error::RowNotFound),
        RepositoryError::NotFound
    ));
}

#[test]
fn unique_violation_is_duplicate_with_vendor_message() {
    let err = RepositoryError::from_sqlx(vendor(Some("23505"), "duplicate key value"));
    match err {
        RepositoryError::Duplicate(detail) => assert_eq!(detail, "duplicate key value"),
        other => panic!("unexpected classification: {:?}", other),
    }
}

#[test]
fn foreign_key_violation_keeps_vendor_message() {
    let err = RepositoryError::from_sqlx(vendor(Some("23503"), "violates foreign key constraint"));
    match err {
        RepositoryError::ForeignKeyViolation(detail) => {
            assert_eq!(detail, "violates foreign key constraint")
        }
        other => panic!("unexpected classification: {:?}", other),
    }
}

#[test]
fn unknown_code_wraps_driver_error() {
    let err = RepositoryError::from_sqlx(vendor(Some("42P01"), "relation does not exist"));
    match err {
        RepositoryError::Database(sqlx::Error::Database(inner)) => {
            assert_eq!(inner.message(), "relation does not exist");
            assert_eq!(inner.code().as_deref(), Some("42P01"));
        }
        other => panic!("unexpected classification: {:?}", other),
    }
}

#[test]
fn missing_code_wraps_driver_error() {
    let err = RepositoryError::from_sqlx(vendor(None, "no code at all"));
    assert!(matches!(err, RepositoryError::Database(sqlx::Error::Database(_))));
}

#[test]
fn other_driver_errors_are_database_faults() {
    assert!(matches!(
        RepositoryError::from_sqlx(sqlx::Error::PoolTimedOut),
        RepositoryError::Database(sqlx::Error::PoolTimedOut)
    ));
    assert!(matches!(
        RepositoryError::from_sqlx(sqlx::Error::Protocol("23505".to_string())),
        RepositoryError::Database(sqlx::Error::Protocol(_))
    ));
}

#[test]
fn classification_table() {
    assert_eq!(classify(true, None), ErrorKind::NotFound);
    assert_eq!(classify(true, Some("23505")), ErrorKind::NotFound);
    assert_eq!(classify(false, Some("23505")), ErrorKind::Duplicate);
    assert_eq!(classify(false, Some("23503")), ErrorKind::ForeignKeyViolation);
    assert_eq!(classify(false, Some("23502")), ErrorKind::Database);
    assert_eq!(classify(false, Some("")), ErrorKind::Database);
    assert_eq!(classify(false, Some("235050")), ErrorKind::Database);
    assert_eq!(classify(false, None), ErrorKind::Database);
}

#[test]
fn unclassified_driver_error_is_a_database_fault() {
    let err: RepositoryError = sqlx::Error::RowNotFound.into();
    assert!(matches!(err, RepositoryError::Database(sqlx::Error::RowNotFound)));
    let err: RepositoryError = vendor(Some("23505"), "duplicate key value").into();
    assert!(matches!(err, RepositoryError::Database(sqlx::Error::Database(_))));
}

#[test]
fn codec_error_is_a_serialization_fault() {
    let broken = serde_json::from_str::<serde_json::Value>("{").unwrap_err();
    let text = broken.to_string();
    let err: RepositoryError = broken.into();
    assert_eq!(err.message(), format!("Serialization error: {}", text));
    assert!(matches!(err, RepositoryError::Serialization(_)));
}

#[test]
fn messages_head_their_detail() {
    assert_eq!(RepositoryError::NotFound.message(), "Record not found");
    assert_eq!(
        RepositoryError::Duplicate("users_email_key".to_string()).message(),
        "Duplicate entry: users_email_key"
    );
    assert_eq!(
        RepositoryError::ForeignKeyViolation("friends_user_id_fkey".to_string()).message(),
        "Foreign key violation: friends_user_id_fkey"
    );
    assert_eq!(
        RepositoryError::Database(sqlx::Error::PoolClosed).message(),
        format!("Database error: {}", sqlx::Error::PoolClosed)
    );
    assert_eq!(
        RepositoryError::from_sqlx(vendor(Some("40001"), "serialization failure")).message(),
        "Database error: error returned from database: serialization failure"
    );
}

#[test]
fn of_kind_falls_back_to_the_source_without_a_message() {
    assert!(matches!(
        RepositoryError::of_kind(ErrorKind::Duplicate, None, sqlx::Error::PoolClosed),
        RepositoryError::Database(sqlx::Error::PoolClosed)
    ));
    assert!(matches!(
        RepositoryError::of_kind(ErrorKind::ForeignKeyViolation, None, sqlx::Error::PoolClosed),
        RepositoryError::Database(sqlx::Error::PoolClosed)
    ));
    assert!(matches!(
        RepositoryError::of_kind(ErrorKind::NotFound, Some("m".to_string()), sqlx::Error::PoolClosed),
        RepositoryError::NotFound
    ));
    match RepositoryError::of_kind(
        ErrorKind::Duplicate,
        Some("m".to_string()),
        sqlx::Error::PoolClosed,
    ) {
        RepositoryError::Duplicate(detail) => assert_eq!(detail, "m"),
        other => panic!("unexpected error: {:?}", other),
    }
}

#[test]
fn outcomes_of_driver_replies() {
    assert_eq!(settled(Ok(Some(5u8))).unwrap(), Some(5));
    assert_eq!(settled(Ok(vec![1u8, 2])).unwrap(), vec![1, 2]);
    assert!(matches!(
        settled::<u8>(Err(sqlx::Error::RowNotFound)),
        Err(RepositoryError::NotFound)
    ));
    assert!(matches!(
        settled::<u8>(Err(vendor(Some("23505"), "taken"))),
        Err(RepositoryError::Duplicate(_))
    ));
    assert_eq!(changed(Ok(Some(5u8))).unwrap(), 5);
    assert!(matches!(changed::<u8>(Ok(None)), Err(RepositoryError::NotFound)));
    assert!(matches!(
        changed::<u8>(Err(vendor(Some("23503"), "dangling"))),
        Err(RepositoryError::ForeignKeyViolation(_))
    ));
    assert!(matches!(
        changed::<u8>(Err(sqlx::Error::PoolClosed)),
        Err(RepositoryError::Database(sqlx::Error::PoolClosed))
    ));
    assert_eq!(removed(Ok(0)).unwrap(), false);
    assert_eq!(removed(Ok(1)).unwrap(), true);
    assert_eq!(removed(Ok(3)).unwrap(), true);
    assert!(matches!(
        removed(Err(sqlx::Error::PoolTimedOut)),
        Err(RepositoryError::Database(sqlx::Error::PoolTimedOut))
    ));
}
