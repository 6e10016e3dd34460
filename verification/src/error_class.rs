use vstd::prelude::*;

verus! {

/// Error classification for recovery decisions.
///
/// Each variant represents a broad category of failure that an agent tool call
/// can produce. A `RecoveryPolicy` maps each class to a `RecoveryAction`.
#[derive(Debug, Clone, Copy, PartialEq, Eq, Hash, Structural)]
pub enum ErrorClass {
    /// The tool was rate limited (e.g. HTTP 429). Usually transient.
    RateLimit,
    /// A network request timed out. Usually transient.
    NetworkTimeout,
    /// Authentication or authorization failed (e.g. HTTP 401/403).
    AuthFailure,
    /// The arguments supplied to the tool were invalid (e.g. HTTP 400).
    InvalidInput,
    /// The requested resource does not exist (e.g. HTTP 404).
    NotFound,
    /// The remote service returned an internal error (e.g. HTTP 5xx).
    ServerError,
    /// The error could not be classified.
    Unknown,
}

/// The classification of an HTTP status code: success codes (below 400) have
/// no class, every other code has exactly one.
pub open spec fn status_class(status: u16) -> Option<ErrorClass> {
    if status < 400 {
        None
    } else if status == 408 {
        Some(ErrorClass::NetworkTimeout)
    } else if status == 429 {
        Some(ErrorClass::RateLimit)
    } else if status == 401 || status == 403 {
        Some(ErrorClass::AuthFailure)
    } else if status == 404 {
        Some(ErrorClass::NotFound)
    } else if status == 402 {
        Some(ErrorClass::Unknown)
    } else if status < 500 {
        Some(ErrorClass::InvalidInput)
    } else if status < 600 {
        Some(ErrorClass::ServerError)
    } else {
        Some(ErrorClass::Unknown)
    }
}

/// The snake-case label under which a class is displayed.
pub open spec fn class_label(class: ErrorClass) -> Seq<char> {
    match class {
        ErrorClass::RateLimit => "rate_limit"@,
        ErrorClass::NetworkTimeout => "network_timeout"@,
        ErrorClass::AuthFailure => "auth_failure"@,
        ErrorClass::InvalidInput => "invalid_input"@,
        ErrorClass::NotFound => "not_found"@,
        ErrorClass::ServerError => "server_error"@,
        ErrorClass::Unknown => "unknown"@,
    }
}

impl ErrorClass {
    /// Every [`ErrorClass`] variant, useful for iterating over all classes.
    pub const ALL: [ErrorClass; 7] = [
        ErrorClass::RateLimit,
        ErrorClass::NetworkTimeout,
        ErrorClass::AuthFailure,
        ErrorClass::InvalidInput,
        ErrorClass::NotFound,
        ErrorClass::ServerError,
        ErrorClass::Unknown,
    ];

    /// Whether errors of this class are typically transient and worth retrying.
    pub open spec fn transient(self) -> bool {
        self is RateLimit || self is NetworkTimeout || self is ServerError
    }

    /// Best-effort classification of an HTTP status code into an [`ErrorClass`].
    ///
    /// Status codes below 400 are treated as success and therefore return
    /// `None`; callers should only invoke this for error responses.
    pub fn from_status(status: u16) -> (class: Option<ErrorClass>)
        ensures
            class == status_class(status),
    {
        if status <= 399 {
            None
        } else if status == 408 {
            Some(ErrorClass::NetworkTimeout)
        } else if status == 429 {
            Some(ErrorClass::RateLimit)
        } else if status == 401 || status == 403 {
            Some(ErrorClass::AuthFailure)
        } else if status == 404 {
            Some(ErrorClass::NotFound)
        } else if status == 402 {
            Some(ErrorClass::Unknown)
        } else if status <= 499 {
            Some(ErrorClass::InvalidInput)
        } else if status <= 599 {
            Some(ErrorClass::ServerError)
        } else {
            Some(ErrorClass::Unknown)
        }
    }

    /// Whether errors of this class are typically transient and worth retrying.
    pub fn is_transient(&self) -> (b: bool)
        ensures
            b == self.transient(),
    {
        matches!(self, ErrorClass::RateLimit | ErrorClass::NetworkTimeout | ErrorClass::ServerError)
    }

    /// The snake-case label of this class (`"rate_limit"`, `"auth_failure"`, ...),
    /// as the class is displayed.
    pub fn to_string(&self) -> (s: String)
        ensures
            s@ == class_label(*self),
    {
        let label: &str = match self {
            ErrorClass::RateLimit => "rate_limit",
            ErrorClass::NetworkTimeout => "network_timeout",
            ErrorClass::AuthFailure => "auth_failure",
            ErrorClass::InvalidInput => "invalid_input",
            ErrorClass::NotFound => "not_found",
            ErrorClass::ServerError => "server_error",
            ErrorClass::Unknown => "unknown",
        };
        label.to_owned()
    }
}

/// The classification, range by range: success codes have no class; 408 is a
/// timeout, 429 a rate limit, 401 and 403 an authorization failure, 404 a
/// missing resource; 400, 405 to 428 (but for 408) and 430 to 499 are
/// invalid input; every
/// code from 500 to 599 is a server error; 402 and every code from 600 up are
/// unknown.
pub proof fn lemma_status_table(status: u16)
    ensures
        status <= 399 ==> status_class(status) == None::<ErrorClass>,
        status == 408 ==> status_class(status) == Some(ErrorClass::NetworkTimeout),
        status == 429 ==> status_class(status) == Some(ErrorClass::RateLimit),
        status == 401 || status == 403 ==> status_class(status) == Some(ErrorClass::AuthFailure),
        status == 404 ==> status_class(status) == Some(ErrorClass::NotFound),
        status == 400 || (405 <= status <= 428 && status != 408) || (430 <= status <= 499) ==> status_class(status)
            == Some(ErrorClass::InvalidInput),
        500 <= status <= 599 ==> status_class(status) == Some(ErrorClass::ServerError),
        status == 402 || status >= 600 ==> status_class(status) == Some(ErrorClass::Unknown),
{
}

/// Every status code from 400 up is classified, and no code below 400 is.
pub proof fn lemma_error_statuses_classified(status: u16)
    ensures
        status_class(status) is Some <==> status >= 400,
{
}

/// `ErrorClass::ALL` lists every class, each exactly once.
pub proof fn lemma_all_lists_every_class(class: ErrorClass)
    ensures
        exists|i: int| 0 <= i < 7 && #[trigger] ErrorClass::ALL@[i] == class,
        forall|i: int, j: int|
            0 <= i < 7 && 0 <= j < 7 && #[trigger] ErrorClass::ALL@[i] == #[trigger] ErrorClass::ALL@[j]
                ==> i == j,
{
    let all = ErrorClass::ALL@;
    assert(all[0] == ErrorClass::RateLimit);
    assert(all[1] == ErrorClass::NetworkTimeout);
    assert(all[2] == ErrorClass::AuthFailure);
    assert(all[3] == ErrorClass::InvalidInput);
    assert(all[4] == ErrorClass::NotFound);
    assert(all[5] == ErrorClass::ServerError);
    assert(all[6] == ErrorClass::Unknown);
}

} // verus!
