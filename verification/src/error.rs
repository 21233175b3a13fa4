//! The failure classes of the service and how each is reported to a client.

use vstd::prelude::*;
use vstd::string::StringExecFns;

verus! {

/// Every way a request can fail.
#[derive(Debug)]
pub enum AppError {
    /// The credential is missing, malformed, forged or expired. Never carries
    /// a reason, so that a caller cannot probe why validation failed.
    AuthError,
    /// The caller is known but does not own the resource.
    AuthorizationError,
    /// The datastore failed; the detail is kept for the server log only.
    DatabaseError(String),
    /// The input was rejected; the message is meant for the user.
    ValidationError(String),
    /// The resource is absent, or not visible to the caller.
    NotFound(String),
    /// The payment gateway was unreachable or reported a failure.
    PaymentError(String),
    /// Hashing or signing failed.
    InternalError,
}

/// Mathematical value of an [`AppError`]: the variant and its message text.
pub enum AppErrorView {
    AuthError,
    AuthorizationError,
    DatabaseError(Seq<char>),
    ValidationError(Seq<char>),
    NotFound(Seq<char>),
    PaymentError(Seq<char>),
    InternalError,
}

impl View for AppError {
    type V = AppErrorView;

    open spec fn view(&self) -> AppErrorView {
        match self {
            AppError::AuthError => AppErrorView::AuthError,
            AppError::AuthorizationError => AppErrorView::AuthorizationError,
            AppError::DatabaseError(m) => AppErrorView::DatabaseError(m@),
            AppError::ValidationError(m) => AppErrorView::ValidationError(m@),
            AppError::NotFound(m) => AppErrorView::NotFound(m@),
            AppError::PaymentError(m) => AppErrorView::PaymentError(m@),
            AppError::InternalError => AppErrorView::InternalError,
        }
    }
}

impl AppErrorView {
    /// HTTP status under which the failure is reported. A payment failure
    /// has a status of its own, so that a client can tell it from every other
    /// failure and start the payment again.
    pub open spec fn status(self) -> u16 {
        match self {
            AppErrorView::AuthError => 401,
            AppErrorView::AuthorizationError => 403,
            AppErrorView::DatabaseError(_) => 500,
            AppErrorView::ValidationError(_) => 400,
            AppErrorView::NotFound(_) => 404,
            AppErrorView::PaymentError(_) => 402,
            AppErrorView::InternalError => 500,
        }
    }

    /// Full description of the failure, as written to the server log.
    pub open spec fn description(self) -> Seq<char> {
        match self {
            AppErrorView::AuthError => "Authentication failed"@,
            AppErrorView::AuthorizationError => "Authorization failed"@,
            AppErrorView::DatabaseError(m) => "Database error: "@ + m,
            AppErrorView::ValidationError(m) => "Validation error: "@ + m,
            AppErrorView::NotFound(m) => "Not found: "@ + m,
            AppErrorView::PaymentError(m) => "Payment error: "@ + m,
            AppErrorView::InternalError => "Internal server error"@,
        }
    }

    /// Text sent to the client. Authentication, datastore and internal
    /// failures are reported without any detail.
    pub open spec fn client_message(self) -> Seq<char> {
        match self {
            AppErrorView::AuthError => "Authentication failed"@,
            AppErrorView::AuthorizationError => "Authorization failed"@,
            AppErrorView::DatabaseError(_) => "Database error"@,
            AppErrorView::ValidationError(m) => m,
            AppErrorView::NotFound(m) => m,
            AppErrorView::PaymentError(m) => m,
            AppErrorView::InternalError => "Internal server error"@,
        }
    }
}

/// Mathematical value of a result whose success is a plain value.
pub open spec fn reported<T>(result: Result<T, AppError>) -> Result<T, AppErrorView> {
    match result {
        Ok(value) => Ok(value),
        Err(error) => Err(error@),
    }
}

/// Mathematical value of a result whose success has a value of its own.
pub open spec fn reported_view<T: View>(result: Result<T, AppError>) -> Result<T::V, AppErrorView> {
    match result {
        Ok(value) => Ok(value@),
        Err(error) => Err(error@),
    }
}

/// Owned copy of `prefix` followed by `rest`.
fn prefixed(prefix: &str, rest: &str) -> (out: String)
    ensures
        out@ == prefix@ + rest@,
{
    String::from_str(prefix).concat(rest)
}

impl AppError {
    /// HTTP status under which the failure is reported.
    pub fn status_code(&self) -> (code: u16)
        ensures
            code == self@.status(),
    {
        match self {
            AppError::AuthError => 401,
            AppError::AuthorizationError => 403,
            AppError::DatabaseError(_) => 500,
            AppError::ValidationError(_) => 400,
            AppError::NotFound(_) => 404,
            AppError::PaymentError(_) => 402,
            AppError::InternalError => 500,
        }
    }

    /// Full description of the failure, as written to the server log.
    pub fn describe(&self) -> (text: String)
        ensures
            text@ == self@.description(),
    {
        match self {
            AppError::AuthError => String::from_str("Authentication failed"),
            AppError::AuthorizationError => String::from_str("Authorization failed"),
            AppError::DatabaseError(m) => prefixed("Database error: ", m.as_str()),
            AppError::ValidationError(m) => prefixed("Validation error: ", m.as_str()),
            AppError::NotFound(m) => prefixed("Not found: ", m.as_str()),
            AppError::PaymentError(m) => prefixed("Payment error: ", m.as_str()),
            AppError::InternalError => String::from_str("Internal server error"),
        }
    }

    /// Status and client-facing text of the failure. The body of the HTTP
    /// response is an object with the text under the key `error`.
    pub fn response_parts(&self) -> (parts: (u16, String))
        ensures
            parts.0 == self@.status(),
            parts.1@ == self@.client_message(),
    {
        let text = match self {
            AppError::AuthError => String::from_str("Authentication failed"),
            AppError::AuthorizationError => String::from_str("Authorization failed"),
            AppError::DatabaseError(_) => String::from_str("Database error"),
            AppError::ValidationError(m) => m.clone(),
            AppError::NotFound(m) => m.clone(),
            AppError::PaymentError(m) => m.clone(),
            AppError::InternalError => String::from_str("Internal server error"),
        };
        (self.status_code(), text)
    }
}

/// A payment failure is reported under a status that no failure of another
/// class is reported under, whatever the two messages are.
pub proof fn law_payment_failures_are_told_apart(payment: AppErrorView, other: AppErrorView)
    requires
        payment is PaymentError,
        !(other is PaymentError),
    ensures
        payment.status() != other.status(),
{
}

/// Authentication, authorization, validation and missing rows are each
/// reported under a status of their own as well; only datastore and internal
/// failures share one, and both are reported without detail.
pub proof fn law_classes_are_told_apart(one: AppErrorView, other: AppErrorView)
    requires
        one.status() == other.status(),
    ensures
        one is AuthError <==> other is AuthError,
        one is AuthorizationError <==> other is AuthorizationError,
        one is ValidationError <==> other is ValidationError,
        one is NotFound <==> other is NotFound,
        one is PaymentError <==> other is PaymentError,
        one is DatabaseError || one is InternalError <==> other is DatabaseError
            || other is InternalError,
{
}

} // verus!
