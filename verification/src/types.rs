//! Identifiers, time, errors and partial updates.
use crate::json::Json;
use crate::text;
use vstd::prelude::*;

verus! {

/// A tenant's number.
#[derive(Debug, Clone, Copy, PartialEq, Eq, Structural)]
pub struct TnId(pub u32);

/// A point in time, in seconds since the Unix epoch.
#[derive(Debug, Clone, Copy, PartialEq, Eq, Structural)]
pub struct Timestamp(pub i64);

/// The sum of two 64-bit integers, held at the end of the range that it would leave.
pub open spec fn saturating_sum(a: int, b: int) -> int {
    if a + b > i64::MAX {
        i64::MAX as int
    } else if a + b < i64::MIN {
        i64::MIN as int
    } else {
        a + b
    }
}

pub fn saturating_add(a: i64, b: i64) -> (r: i64)
    ensures
        r == saturating_sum(a as int, b as int),
{
    match a.checked_add(b) {
        Some(c) => c,
        None => {
            if b > 0 {
                i64::MAX
            } else {
                i64::MIN
            }
        },
    }
}

impl Timestamp {
    /// `std::time::SystemTime::now`: the time of the system clock, in whole seconds. Nothing is
    /// known of it in advance.
    #[verifier::external_body]
    pub(crate) fn now() -> (r: Timestamp) {
        let now = std::time::SystemTime::now().duration_since(std::time::UNIX_EPOCH);
        Timestamp(now.map_or(0, |d| i64::try_from(d.as_secs()).unwrap_or(i64::MAX)))
    }

    /// This time and `secs` seconds.
    pub fn add_seconds(self, secs: i64) -> (r: Timestamp)
        ensures
            r.0 == saturating_sum(self.0 as int, secs as int),
    {
        Timestamp(saturating_add(self.0, secs))
    }
}

/// What can go wrong in an operation of the platform.
#[derive(Debug)]
pub enum Error {
    NotFound,
    PermissionDenied,
    Unauthorized,
    Parse,
    DbError,
    Timeout,
    ValidationError(String),
    PreconditionRequired(String),
    ConfigError(String),
    NetworkError(String),
    ServiceUnavailable(String),
    Internal(String),
}

pub ghost enum ErrorView {
    NotFound,
    PermissionDenied,
    Unauthorized,
    Parse,
    DbError,
    Timeout,
    ValidationError(Seq<char>),
    PreconditionRequired(Seq<char>),
    ConfigError(Seq<char>),
    NetworkError(Seq<char>),
    ServiceUnavailable(Seq<char>),
    Internal(Seq<char>),
}

impl DeepView for Error {
    type V = ErrorView;

    open spec fn deep_view(&self) -> ErrorView {
        match *self {
            Error::NotFound => ErrorView::NotFound,
            Error::PermissionDenied => ErrorView::PermissionDenied,
            Error::Unauthorized => ErrorView::Unauthorized,
            Error::Parse => ErrorView::Parse,
            Error::DbError => ErrorView::DbError,
            Error::Timeout => ErrorView::Timeout,
            Error::ValidationError(m) => ErrorView::ValidationError(m@),
            Error::PreconditionRequired(m) => ErrorView::PreconditionRequired(m@),
            Error::ConfigError(m) => ErrorView::ConfigError(m@),
            Error::NetworkError(m) => ErrorView::NetworkError(m@),
            Error::ServiceUnavailable(m) => ErrorView::ServiceUnavailable(m@),
            Error::Internal(m) => ErrorView::Internal(m@),
        }
    }
}

impl Error {
    /// A request that says something that cannot be.
    pub fn validation(m: &str) -> (e: Error)
        ensures
            e.deep_view() == ErrorView::ValidationError(m@),
    {
        Error::ValidationError(text::owned(m))
    }

    /// A fault of the platform itself.
    pub fn internal(m: &str) -> (e: Error)
        ensures
            e.deep_view() == ErrorView::Internal(m@),
    {
        Error::Internal(text::owned(m))
    }
}

/// Whether a result is a given value or error, each by what it holds.
pub open spec fn is_result<T: DeepView>(
    r: Result<T, Error>,
    expected: Result<T::V, ErrorView>,
) -> bool {
    match r {
        Ok(x) => expected == Ok::<T::V, ErrorView>(x.deep_view()),
        Err(e) => expected == Err::<T::V, ErrorView>(e.deep_view()),
    }
}

/// A change to one field: leave it, clear it, or set it.
#[derive(Debug, PartialEq, Eq)]
pub enum Patch<T> {
    Undefined,
    Null,
    Value(T),
}

impl<T: DeepView> DeepView for Patch<T> {
    type V = Patch<T::V>;

    open spec fn deep_view(&self) -> Patch<T::V> {
        match *self {
            Patch::Undefined => Patch::Undefined,
            Patch::Null => Patch::Null,
            Patch::Value(v) => Patch::Value(v.deep_view()),
        }
    }
}

/// The identity behind a request.
#[derive(Debug)]
pub struct AuthCtx {
    pub tn_id: TnId,
    pub id_tag: String,
    pub roles: Vec<String>,
    pub scope: Option<String>,
    pub anonymous: bool,
}

/// A profile, as far as an action shows it.
#[derive(Debug)]
pub struct ProfileInfo {
    pub id_tag: String,
    pub name: String,
}

/// A stored action.
#[derive(Debug)]
pub struct ActionView {
    pub action_id: String,
    pub typ: String,
    pub sub_typ: Option<String>,
    pub parent_id: Option<String>,
    pub root_id: Option<String>,
    pub issuer: ProfileInfo,
    pub audience: Option<ProfileInfo>,
    pub content: Option<Json>,
    pub subject: Option<String>,
    pub created_at: Timestamp,
    pub expires_at: Option<Timestamp>,
    pub status: Option<String>,
    pub visibility: Option<char>,
    pub flags: Option<String>,
    pub x: Option<Json>,
}

} // verus!
