use vstd::prelude::*;

verus! {

/// The kinds of record a request can ask for by identity or by selection.
#[derive(Clone, Copy, Debug, PartialEq, Eq, Structural)]
pub enum Entity {
    Philosopher,
    Theme,
    Incident,
    Quote,
}

/// Outcome of a failed request: the record is absent, or a statement failed.
#[derive(Debug)]
pub enum ApiError {
    NotFound(Entity),
    QueryFailure(String),
}

/// HTTP status code that a failure is answered with.
pub open spec fn status_of(e: ApiError) -> u16 {
    match e {
        ApiError::NotFound(_) => 404,
        ApiError::QueryFailure(_) => 500,
    }
}

/// Text that a caller reads when a record is absent.
pub open spec fn not_found_text(what: Entity) -> Seq<char> {
    match what {
        Entity::Philosopher => "Philosopher not found"@,
        Entity::Theme => "Theme not found"@,
        Entity::Incident => "Incident not found"@,
        Entity::Quote => "No quotes found"@,
    }
}

/// Text carried by a failure.
pub open spec fn message_of(e: ApiError) -> Seq<char> {
    match e {
        ApiError::NotFound(what) => not_found_text(what),
        ApiError::QueryFailure(m) => m@,
    }
}

impl ApiError {
    pub fn status_code(&self) -> (r: u16)
        ensures
            r == status_of(*self),
    {
        match self {
            ApiError::NotFound(_) => 404,
            ApiError::QueryFailure(_) => 500,
        }
    }

    pub fn message(&self) -> (r: String)
        ensures
            r@ == message_of(*self),
    {
        match self {
            ApiError::NotFound(Entity::Philosopher) => String::from_str("Philosopher not found"),
            ApiError::NotFound(Entity::Theme) => String::from_str("Theme not found"),
            ApiError::NotFound(Entity::Incident) => String::from_str("Incident not found"),
            ApiError::NotFound(Entity::Quote) => String::from_str("No quotes found"),
            ApiError::QueryFailure(m) => m.clone(),
        }
    }

    pub fn is_not_found(&self) -> (r: bool)
        ensures
            r == (*self is NotFound),
    {
        match self {
            ApiError::NotFound(_) => true,
            ApiError::QueryFailure(_) => false,
        }
    }
}

/// Turns the result of a lookup by identity into the record, or `NotFound` for
/// the kind of record that was asked for.
pub fn found_or<T>(r: Option<T>, what: Entity) -> (out: Result<T, ApiError>)
    ensures
        r is None <==> out is Err,
        r matches Some(v) ==> out == Ok::<T, ApiError>(v),
        r is None ==> out == Err::<T, ApiError>(ApiError::NotFound(what)),
{
    match r {
        Some(v) => Ok(v),
        None => Err(ApiError::NotFound(what)),
    }
}

} // verus!
