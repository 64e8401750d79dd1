//! Errors reported by repository operations, and the classification of the
//! raw errors that the store driver hands back.

use vstd::prelude::*;
use vstd::string::*;

verus! {

/// The driver's error type. Its contents are read only through the trusted
/// functions of this module.
#[verifier::external_type_specification]
#[verifier::external_body]
pub struct ExDriverError(sqlx::Error);

/// The JSON codec's error type, carried through unread.
#[verifier::external_type_specification]
#[verifier::external_body]
pub struct ExJsonError(serde_json::Error);

/// What went wrong in a repository operation.
#[derive(Debug)]
pub enum RepositoryError {
    /// The requested record does not exist.
    NotFound,
    /// A unique constraint was violated; carries the vendor's message.
    Duplicate(String),
    /// A referenced record does not exist; carries the vendor's message.
    ForeignKeyViolation(String),
    /// Any other fault of the store; wraps the driver's error.
    Database(sqlx::Error),
    /// A structured column could not be encoded or decoded.
    Serialization(serde_json::Error),
}

/// The mathematical value of a [`RepositoryError`].
pub enum RepositoryErrorView {
    NotFound,
    Duplicate(Seq<char>),
    ForeignKeyViolation(Seq<char>),
    Database(sqlx::Error),
    Serialization(serde_json::Error),
}

impl View for RepositoryError {
    type V = RepositoryErrorView;

    open spec fn view(&self) -> RepositoryErrorView {
        match *self {
            RepositoryError::NotFound => RepositoryErrorView::NotFound,
            RepositoryError::Duplicate(detail) => RepositoryErrorView::Duplicate(detail@),
            RepositoryError::ForeignKeyViolation(detail) => RepositoryErrorView::ForeignKeyViolation(
                detail@,
            ),
            RepositoryError::Database(source) => RepositoryErrorView::Database(source),
            RepositoryError::Serialization(source) => RepositoryErrorView::Serialization(source),
        }
    }
}

/// The semantic kinds that a raw store error is sorted into.
#[derive(Clone, Copy, Debug, PartialEq, Eq, Structural)]
pub enum ErrorKind {
    NotFound,
    Duplicate,
    ForeignKeyViolation,
    Database,
}

/// The vendor's code for a unique-constraint violation.
pub open spec fn unique_violation_code() -> Seq<char> {
    "23505"@
}

/// The vendor's code for a foreign-key violation.
pub open spec fn foreign_key_violation_code() -> Seq<char> {
    "23503"@
}

/// The classification table: "no row found" is `NotFound` whatever else the
/// error carries; otherwise the two constraint codes select their kinds, and
/// any other code, or none, is a plain database fault.
pub open spec fn kind_of(row_not_found: bool, code: Option<Seq<char>>) -> ErrorKind {
    if row_not_found {
        ErrorKind::NotFound
    } else if code == Some(unique_violation_code()) {
        ErrorKind::Duplicate
    } else if code == Some(foreign_key_violation_code()) {
        ErrorKind::ForeignKeyViolation
    } else {
        ErrorKind::Database
    }
}

/// Sorts the facts read off a raw store error into a semantic kind.
pub fn classify(row_not_found: bool, code: Option<&str>) -> (kind: ErrorKind)
    ensures
        kind == kind_of(
            row_not_found,
            match code {
                Some(c) => Some(c@),
                None => None,
            },
        ),
{
    if row_not_found {
        return ErrorKind::NotFound;
    }
    match code {
        Some(c) => {
            let given = String::from_str(c);
            if given == String::from_str("23505") {
                ErrorKind::Duplicate
            } else if given == String::from_str("23503") {
                ErrorKind::ForeignKeyViolation
            } else {
                ErrorKind::Database
            }
        },
        None => ErrorKind::Database,
    }
}

/// Whether a driver error is the "no row found" outcome of a query that
/// expected a row.
pub uninterp spec fn driver_row_not_found(err: sqlx::Error) -> bool;

/// The vendor error code that a driver error carries, if it was returned by
/// the database and has one.
pub uninterp spec fn driver_code(err: sqlx::Error) -> Option<Seq<char>>;

/// The vendor's primary message of a driver error, if the error was returned
/// by the database.
pub uninterp spec fn driver_message(err: sqlx::Error) -> Option<Seq<char>>;

/// Tells `sqlx::Error::RowNotFound` apart from every other variant of
/// `sqlx::Error`.
#[verifier::external_body]
fn is_row_not_found(err: &sqlx::Error) -> (r: bool)
    ensures
        r == driver_row_not_found(*err),
{
    match err {
        sqlx::Error::RowNotFound => true,
        _ => false,
    }
}

/// Calls `sqlx::error::DatabaseError::code` on the boxed error of
/// `sqlx::Error::Database`. The result is `None` for every other variant and
/// where the database error reports no code.
#[verifier::external_body]
fn vendor_code(err: &sqlx::Error) -> (r: Option<String>)
    ensures
        match r {
            Some(code) => driver_code(*err) == Some(code@),
            None => driver_code(*err).is_none(),
        },
{
    match err {
        sqlx::Error::Database(db_err) => match db_err.code() {
            Some(code) => Some(code.into_owned()),
            None => None,
        },
        _ => None,
    }
}

/// Calls `sqlx::error::DatabaseError::message` on the boxed error of
/// `sqlx::Error::Database`. The result is `None` for every other variant; an
/// error that carries a code is of that variant, and so has a message.
#[verifier::external_body]
fn vendor_message(err: &sqlx::Error) -> (r: Option<String>)
    ensures
        match r {
            Some(message) => driver_message(*err) == Some(message@),
            None => driver_message(*err).is_none(),
        },
        driver_code(*err).is_some() ==> r.is_some(),
{
    match err {
        sqlx::Error::Database(db_err) => Some(db_err.message().to_string()),
        _ => None,
    }
}

/// Calls `to_string` on a driver error, which goes through the `Display`
/// impl of `sqlx::Error`. Nothing is claimed of the text.
#[verifier::external_body]
fn driver_text(err: &sqlx::Error) -> String {
    err.to_string()
}

/// Calls `to_string` on a codec error, which goes through the `Display`
/// impl of `serde_json::Error`. Nothing is claimed of the text.
#[verifier::external_body]
fn codec_text(err: &serde_json::Error) -> String {
    err.to_string()
}

/// What [`RepositoryError::from_sqlx`] makes of a driver error, over the
/// facts that the driver reports of it.
pub open spec fn classified(err: sqlx::Error) -> RepositoryErrorView {
    match kind_of(driver_row_not_found(err), driver_code(err)) {
        ErrorKind::NotFound => RepositoryErrorView::NotFound,
        ErrorKind::Duplicate => match driver_message(err) {
            Some(message) => RepositoryErrorView::Duplicate(message),
            None => RepositoryErrorView::Database(err),
        },
        ErrorKind::ForeignKeyViolation => match driver_message(err) {
            Some(message) => RepositoryErrorView::ForeignKeyViolation(message),
            None => RepositoryErrorView::Database(err),
        },
        ErrorKind::Database => RepositoryErrorView::Database(err),
    }
}

impl RepositoryError {
    /// The error of the given kind that carries `message` as its detail, or
    /// wraps `source` where the kind is a plain database fault or the vendor
    /// gave no message.
    pub fn of_kind(kind: ErrorKind, message: Option<String>, source: sqlx::Error) -> (r:
        RepositoryError)
        ensures
            r@ == match kind {
                ErrorKind::NotFound => RepositoryErrorView::NotFound,
                ErrorKind::Duplicate => match message {
                    Some(m) => RepositoryErrorView::Duplicate(m@),
                    None => RepositoryErrorView::Database(source),
                },
                ErrorKind::ForeignKeyViolation => match message {
                    Some(m) => RepositoryErrorView::ForeignKeyViolation(m@),
                    None => RepositoryErrorView::Database(source),
                },
                ErrorKind::Database => RepositoryErrorView::Database(source),
            },
    {
        match kind {
            ErrorKind::NotFound => RepositoryError::NotFound,
            ErrorKind::Duplicate => match message {
                Some(m) => RepositoryError::Duplicate(m),
                None => RepositoryError::Database(source),
            },
            ErrorKind::ForeignKeyViolation => match message {
                Some(m) => RepositoryError::ForeignKeyViolation(m),
                None => RepositoryError::Database(source),
            },
            ErrorKind::Database => RepositoryError::Database(source),
        }
    }

    /// A line of text that says what went wrong. The detail of a constraint
    /// violation follows its heading unchanged; a wrapped error follows its
    /// heading in the words of the driver or codec.
    pub fn message(&self) -> (r: String)
        ensures
            match self@ {
                RepositoryErrorView::NotFound => r@ == "Record not found"@,
                RepositoryErrorView::Duplicate(detail) => r@ == "Duplicate entry: "@ + detail,
                RepositoryErrorView::ForeignKeyViolation(detail) => r@
                    == "Foreign key violation: "@ + detail,
                RepositoryErrorView::Database(_) => "Database error: "@.is_prefix_of(r@),
                RepositoryErrorView::Serialization(_) => "Serialization error: "@.is_prefix_of(r@),
            },
    {
        match self {
            RepositoryError::NotFound => String::from_str("Record not found"),
            RepositoryError::Duplicate(detail) => String::from_str("Duplicate entry: ").concat(
                detail.as_str(),
            ),
            RepositoryError::ForeignKeyViolation(detail) => String::from_str(
                "Foreign key violation: ",
            ).concat(detail.as_str()),
            RepositoryError::Database(source) => {
                let text = driver_text(source);
                let r = String::from_str("Database error: ").concat(text.as_str());
                assert(r@.subrange(0, "Database error: "@.len() as int) =~= "Database error: "@);
                r
            },
            RepositoryError::Serialization(source) => {
                let text = codec_text(source);
                let r = String::from_str("Serialization error: ").concat(text.as_str());
                assert(r@.subrange(0, "Serialization error: "@.len() as int)
                    =~= "Serialization error: "@);
                r
            },
        }
    }

    /// Classifies a driver error: "no row found" becomes `NotFound`, the
    /// unique-violation and foreign-key-violation codes become `Duplicate`
    /// and `ForeignKeyViolation` with the vendor's message, and every other
    /// error is wrapped unchanged in `Database`.
    pub fn from_sqlx(err: sqlx::Error) -> (r: RepositoryError)
        ensures
            r@ == classified(err),
    {
        let row_not_found = is_row_not_found(&err);
        let code = vendor_code(&err);
        let kind = match &code {
            Some(c) => classify(row_not_found, Some(c.as_str())),
            None => classify(row_not_found, None),
        };
        let message = vendor_message(&err);
        RepositoryError::of_kind(kind, message, err)
    }
}

/// A driver error that is taken over unclassified is a database fault.
impl From<sqlx::Error> for RepositoryError {
    fn from(err: sqlx::Error) -> (r: RepositoryError) {
        RepositoryError::Database(err)
    }
}

impl vstd::std_specs::convert::FromSpecImpl<sqlx::Error> for RepositoryError {
    open spec fn obeys_from_spec() -> bool {
        true
    }

    open spec fn from_spec(err: sqlx::Error) -> RepositoryError {
        RepositoryError::Database(err)
    }
}

/// A failure to encode or decode a structured column is a serialization
/// fault.
impl From<serde_json::Error> for RepositoryError {
    fn from(err: serde_json::Error) -> (r: RepositoryError) {
        RepositoryError::Serialization(err)
    }
}

impl vstd::std_specs::convert::FromSpecImpl<serde_json::Error> for RepositoryError {
    open spec fn obeys_from_spec() -> bool {
        true
    }

    open spec fn from_spec(err: serde_json::Error) -> RepositoryError {
        RepositoryError::Serialization(err)
    }
}

} // verus!
