//! The closed set of failures, and the two things they are made from: the
//! violations that validation records and the failures that a store reports.

use vstd::prelude::*;

verus! {

/// `validator::ValidationErrors`, the collection of violations that a
/// failure of validation carries. Nothing is known of a value of it but what
/// [`field_codes`] and [`nested_fields`] say.
#[verifier::external_type_specification]
#[verifier::external_body]
pub struct ExValidationErrors(validator::ValidationErrors);

/// The record of violations by field: a field's name to the codes of the
/// violations recorded for it, oldest first.
pub type Failures = Map<Seq<char>, Seq<Seq<char>>>;

/// The field-level entries of a `validator::ValidationErrors`: each key that
/// holds a list of errors, with the codes of those errors in the order in
/// which they were added.
pub uninterp spec fn field_codes(errors: validator::ValidationErrors) -> Map<Seq<char>, Seq<Seq<char>>>;

/// The keys of a `validator::ValidationErrors` that hold the errors of a
/// nested value in place of a list of errors.
pub uninterp spec fn nested_fields(errors: validator::ValidationErrors) -> Set<Seq<char>>;

/// No violation at all.
pub open spec fn no_failures() -> Failures {
    Map::empty()
}

/// `failures` with one more violation of `field`, behind those it has.
pub open spec fn record(failures: Failures, field: Seq<char>, code: Seq<char>) -> Failures {
    let earlier = if failures.contains_key(field) {
        failures[field]
    } else {
        Seq::empty()
    };
    failures.insert(field, earlier.push(code))
}

/// Whether `errors` holds nothing, neither for a field nor nested.
pub open spec fn is_blank(errors: validator::ValidationErrors) -> bool {
    field_codes(errors) =~= no_failures() && nested_fields(errors) =~= Set::empty()
}

/// `validator::ValidationErrors::new`: the result has no entry of either
/// sort.
#[verifier::external_body]
pub(crate) fn blank_errors() -> (errors: validator::ValidationErrors)
    ensures
        is_blank(errors),
{
    validator::ValidationErrors::new()
}

/// `validator::ValidationErrors::add`, with an error that
/// `validator::ValidationError::new` makes of `code`: the error goes behind
/// those that `field` has, or opens an entry for it; every other entry stays.
/// The call panics on a key that holds nested errors, which `requires` leaves
/// out.
#[verifier::external_body]
pub(crate) fn add_error(
    errors: &mut validator::ValidationErrors,
    field: &'static str,
    code: &'static str,
)
    requires
        !nested_fields(*old(errors)).contains(field@),
    ensures
        field_codes(*final(errors)) == record(field_codes(*old(errors)), field@, code@),
        nested_fields(*final(errors)) == nested_fields(*old(errors)),
{
    errors.add(field, validator::ValidationError::new(code));
}

/// `validator::ValidationErrors::is_empty`: whether there is no entry.
#[verifier::external_body]
pub(crate) fn has_no_errors(errors: &validator::ValidationErrors) -> (r: bool)
    ensures
        r == is_blank(*errors),
{
    errors.is_empty()
}

/// What a backing store reports when a statement fails.
#[derive(Debug)]
pub enum StoreFailure {
    /// The statement asked for one row and there is none.
    NotFound,
    /// A uniqueness constraint refused the row.
    UniqueViolation(String),
    /// A row refers to a row that does not exist.
    ForeignKeyViolation(String),
    /// The connection was lost or could not be used.
    ClosedConnection(String),
    /// The transport under the connection failed.
    Io(String),
    /// Any other failure of the store.
    Other(String),
}

/// Every way in which an operation fails.
#[derive(Debug)]
pub enum Error {
    /// A descriptor or an id broke a rule; no statement was issued for it.
    Validation(validator::ValidationErrors),
    /// The id that was asked for names no row.
    NotFound,
    /// The store refused a row that would break a uniqueness constraint.
    Conflict,
    /// Any other failure of the store, with its message.
    Database(String),
    /// The transport or the connection failed, with its message.
    Other(String),
}

/// A failure without its payload.
#[derive(Clone, Copy, Debug, PartialEq, Eq, Structural)]
pub enum ErrorKind {
    Validation,
    NotFound,
    Conflict,
    Database,
    Other,
}

/// The member of the taxonomy that a store's failure belongs to.
pub open spec fn failure_kind(failure: StoreFailure) -> ErrorKind {
    match failure {
        StoreFailure::NotFound => ErrorKind::NotFound,
        StoreFailure::UniqueViolation(_) => ErrorKind::Conflict,
        StoreFailure::ForeignKeyViolation(_) => ErrorKind::Database,
        StoreFailure::ClosedConnection(_) => ErrorKind::Other,
        StoreFailure::Io(_) => ErrorKind::Other,
        StoreFailure::Other(_) => ErrorKind::Database,
    }
}

/// The message that a store's failure carries, empty where it has none.
pub open spec fn failure_message(failure: StoreFailure) -> Seq<char> {
    match failure {
        StoreFailure::NotFound => Seq::empty(),
        StoreFailure::UniqueViolation(m) => m@,
        StoreFailure::ForeignKeyViolation(m) => m@,
        StoreFailure::ClosedConnection(m) => m@,
        StoreFailure::Io(m) => m@,
        StoreFailure::Other(m) => m@,
    }
}

/// What is said of an answer that belongs to another statement than the one
/// that was run.
pub open spec fn unexpected_answer() -> Seq<char> {
    "the store gave an answer of another statement"@
}

impl Error {
    /// Which member of the taxonomy this is.
    pub open spec fn spec_kind(&self) -> ErrorKind {
        match self {
            Error::Validation(_) => ErrorKind::Validation,
            Error::NotFound => ErrorKind::NotFound,
            Error::Conflict => ErrorKind::Conflict,
            Error::Database(_) => ErrorKind::Database,
            Error::Other(_) => ErrorKind::Other,
        }
    }

    /// The message of a store's failure, empty for the members that carry
    /// none.
    pub open spec fn spec_message(&self) -> Seq<char> {
        match self {
            Error::Database(m) => m@,
            Error::Other(m) => m@,
            _ => Seq::empty(),
        }
    }

    /// Whether this is a validation failure that holds exactly `failures`.
    pub open spec fn reports(&self, failures: Failures) -> bool {
        self matches Error::Validation(errors) && field_codes(*errors) == failures
            && nested_fields(*errors) =~= Set::empty()
    }

    /// Whether this is what `failure` becomes in the taxonomy.
    pub open spec fn stems_from(&self, failure: StoreFailure) -> bool {
        &&& self.spec_kind() == failure_kind(failure)
        &&& self.spec_kind() == ErrorKind::Database || self.spec_kind() == ErrorKind::Other
            ==> self.spec_message() == failure_message(failure)
    }

    /// Which member of the taxonomy this is.
    #[verifier::when_used_as_spec(spec_kind)]
    pub fn kind(&self) -> (k: ErrorKind)
        ensures
            k == self.spec_kind(),
    {
        match self {
            Error::Validation(_) => ErrorKind::Validation,
            Error::NotFound => ErrorKind::NotFound,
            Error::Conflict => ErrorKind::Conflict,
            Error::Database(_) => ErrorKind::Database,
            Error::Other(_) => ErrorKind::Other,
        }
    }

    /// A validation failure that names no field: what a bad id gives, and a
    /// batch with an endpoint that cannot be resolved.
    pub fn invalid() -> (e: Error)
        ensures
            e.reports(no_failures()),
    {
        Error::Validation(blank_errors())
    }

    /// The failure for an answer that the statement it was given for cannot
    /// have: a failure of the store, with [`unexpected_answer`] as its
    /// message.
    pub fn unexpected() -> (e: Error)
        ensures
            e.spec_kind() == ErrorKind::Database,
            e.spec_message() == unexpected_answer(),
    {
        Error::Database("the store gave an answer of another statement".to_owned())
    }

    /// Places a store's failure in the taxonomy: a missing row is
    /// `NotFound`, a uniqueness violation is `Conflict`, a lost connection or
    /// a failed transport is `Other`, and everything else is `Database`. The
    /// message goes along where the member carries one.
    pub fn from_store(failure: StoreFailure) -> (e: Error)
        ensures
            e.stems_from(failure),
    {
        match failure {
            StoreFailure::NotFound => Error::NotFound,
            StoreFailure::UniqueViolation(_) => Error::Conflict,
            StoreFailure::ForeignKeyViolation(m) => Error::Database(m),
            StoreFailure::ClosedConnection(m) => Error::Other(m),
            StoreFailure::Io(m) => Error::Other(m),
            StoreFailure::Other(m) => Error::Database(m),
        }
    }
}

/// The result is a failure of validation that holds exactly `failures`.
pub open spec fn rejected<T>(r: Result<T, Error>, failures: Failures) -> bool {
    r matches Err(e) && e.reports(failures)
}

/// The result is a failure of the kind `kind`.
pub open spec fn failed<T>(r: Result<T, Error>, kind: ErrorKind) -> bool {
    r matches Err(e) && e.spec_kind() == kind
}

/// A store's failure never turns into a validation failure: those are found
/// before any statement is issued.
pub proof fn lemma_store_failure_is_not_validation(failure: StoreFailure)
    ensures
        failure_kind(failure) != ErrorKind::Validation,
{
}

} // verus!
