use vstd::prelude::*;

verus! {

/// A persisted short-link row: the short identifier (primary key), the
/// original long URL, and the insertion timestamp in seconds since the
/// Unix epoch, UTC.
#[derive(Debug)]
pub struct Url {
    /// The short identifier; fixed length, alphanumeric, unique.
    pub id: String,
    /// The long URL the identifier redirects to; never mutated.
    pub long_url: String,
    /// Seconds since the Unix epoch (UTC), assigned at insertion.
    pub created_at: i64,
}

/// The mathematical content of a `Url` row, over plain sequences and
/// integers; contracts speak of rows through this view.
pub struct Row {
    pub id: Seq<char>,
    pub long_url: Seq<char>,
    pub created_at: int,
}

impl View for Url {
    type V = Row;

    open spec fn view(&self) -> Row {
        Row { id: self.id@, long_url: self.long_url@, created_at: self.created_at as int }
    }
}

/// The body of the web form that submits a URL to be shortened.
pub struct FormData {
    pub url: String,
}

/// Error of the shortening service, as seen by its caller.
#[derive(Clone, Copy, Debug, PartialEq, Eq, Structural)]
pub enum ShortenError {
    /// Every attempt within the retry budget hit an identifier collision.
    RetriesExhausted,
    /// The persistence gateway failed for a non-collision reason.
    GatewayFailure,
}

/// Error of the resolution service, as seen by its caller.
#[derive(Clone, Copy, Debug, PartialEq, Eq, Structural)]
pub enum ResolveError {
    /// No row exists for the identifier; a benign condition.
    NotFound,
    /// The persistence gateway failed for an infrastructure reason.
    GatewayFailure,
}

/// Outcome of one insert attempt against the persistence gateway.
pub enum InsertOutcome {
    /// The row was created; holds the fully populated row.
    Inserted(Url),
    /// The identifier already exists (uniqueness violation).
    Conflict,
    /// Any other gateway failure (connectivity, timeout, syntax).
    Failure,
}

/// Outcome of one lookup against the persistence gateway.
pub enum LookupOutcome {
    /// The row matching the identifier.
    Found(Url),
    /// No row exists for the identifier.
    NotFound,
    /// Any other gateway failure.
    Failure,
}

} // verus!
