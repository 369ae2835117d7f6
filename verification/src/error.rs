//! Errors of the Klafs API client.
use vstd::prelude::*;
use vstd::string::*;
use crate::text::{int_string, int_text, to_owned_string};

verus! {

/// Errors that can occur when interacting with the Klafs API.
#[derive(Debug, Clone)]
pub enum KlafsError {
    /// Authentication failed (wrong credentials or account locked).
    AuthenticationFailed { message: String },
    /// Account is locked after too many failed attempts.
    AccountLocked,
    /// Session expired or invalid.
    SessionExpired,
    /// Invalid PIN for power control.
    InvalidPin,
    /// Sauna not found.
    SaunaNotFound { sauna_id: String },
    /// Sauna is not connected/reachable.
    SaunaNotConnected,
    /// Invalid parameter value.
    InvalidParameter { message: String },
    /// API returned an error.
    ApiError { status_code: u16, message: String },
    /// Network error, with the transport's description of it.
    Network(String),
    /// The response could not be parsed, with the parser's description of why.
    Parse(String),
    /// Failed to extract verification token.
    VerificationTokenNotFound,
    /// Unexpected response format.
    UnexpectedResponse { message: String },
}

/// The abstract content of a [`KlafsError`].
pub enum KlafsErrorView {
    AuthenticationFailed { message: Seq<char> },
    AccountLocked,
    SessionExpired,
    InvalidPin,
    SaunaNotFound { sauna_id: Seq<char> },
    SaunaNotConnected,
    InvalidParameter { message: Seq<char> },
    ApiError { status_code: u16, message: Seq<char> },
    Network(Seq<char>),
    Parse(Seq<char>),
    VerificationTokenNotFound,
    UnexpectedResponse { message: Seq<char> },
}

impl View for KlafsError {
    type V = KlafsErrorView;

    open spec fn view(&self) -> KlafsErrorView {
        match self {
            KlafsError::AuthenticationFailed { message } => KlafsErrorView::AuthenticationFailed {
                message: message@,
            },
            KlafsError::AccountLocked => KlafsErrorView::AccountLocked,
            KlafsError::SessionExpired => KlafsErrorView::SessionExpired,
            KlafsError::InvalidPin => KlafsErrorView::InvalidPin,
            KlafsError::SaunaNotFound { sauna_id } => KlafsErrorView::SaunaNotFound {
                sauna_id: sauna_id@,
            },
            KlafsError::SaunaNotConnected => KlafsErrorView::SaunaNotConnected,
            KlafsError::InvalidParameter { message } => KlafsErrorView::InvalidParameter {
                message: message@,
            },
            KlafsError::ApiError { status_code, message } => KlafsErrorView::ApiError {
                status_code: *status_code,
                message: message@,
            },
            KlafsError::Network(m) => KlafsErrorView::Network(m@),
            KlafsError::Parse(m) => KlafsErrorView::Parse(m@),
            KlafsError::VerificationTokenNotFound => KlafsErrorView::VerificationTokenNotFound,
            KlafsError::UnexpectedResponse { message } => KlafsErrorView::UnexpectedResponse {
                message: message@,
            },
        }
    }
}

/// The human-readable description of an error.
pub open spec fn error_text(e: KlafsErrorView) -> Seq<char> {
    match e {
        KlafsErrorView::AuthenticationFailed { message } => "Authentication failed: "@ + message,
        KlafsErrorView::AccountLocked => "Account locked: Klafs locks accounts after 3 failed login attempts. Please wait or contact support."@,
        KlafsErrorView::SessionExpired => "Session expired or invalid. Please login again."@,
        KlafsErrorView::InvalidPin => "Invalid PIN provided"@,
        KlafsErrorView::SaunaNotFound { sauna_id } => "Sauna with ID "@ + sauna_id + " not found"@,
        KlafsErrorView::SaunaNotConnected => "Sauna is not connected. Check your sauna's network connection."@,
        KlafsErrorView::InvalidParameter { message } => "Invalid parameter: "@ + message,
        KlafsErrorView::ApiError { status_code, message } => "API error: "@ + int_text(
            status_code as int,
        ) + " - "@ + message,
        KlafsErrorView::Network(m) => "Network error: "@ + m,
        KlafsErrorView::Parse(m) => "Failed to parse response: "@ + m,
        KlafsErrorView::VerificationTokenNotFound => "Failed to extract verification token from response"@,
        KlafsErrorView::UnexpectedResponse { message } => "Unexpected response: "@ + message,
    }
}

impl KlafsError {
    /// The human-readable description of this error.
    pub fn message(&self) -> (s: String)
        ensures
            s@ == error_text(self@),
    {
        match self {
            KlafsError::AuthenticationFailed { message } => {
                let mut s = to_owned_string("Authentication failed: ");
                s.append(message.as_str());
                s
            },
            KlafsError::AccountLocked => to_owned_string(
                "Account locked: Klafs locks accounts after 3 failed login attempts. Please wait or contact support.",
            ),
            KlafsError::SessionExpired => to_owned_string(
                "Session expired or invalid. Please login again.",
            ),
            KlafsError::InvalidPin => to_owned_string("Invalid PIN provided"),
            KlafsError::SaunaNotFound { sauna_id } => {
                let mut s = to_owned_string("Sauna with ID ");
                s.append(sauna_id.as_str());
                s.append(" not found");
                s
            },
            KlafsError::SaunaNotConnected => to_owned_string(
                "Sauna is not connected. Check your sauna's network connection.",
            ),
            KlafsError::InvalidParameter { message } => {
                let mut s = to_owned_string("Invalid parameter: ");
                s.append(message.as_str());
                s
            },
            KlafsError::ApiError { status_code, message } => {
                let mut s = to_owned_string("API error: ");
                let n = int_string(*status_code as i64);
                s.append(n.as_str());
                s.append(" - ");
                s.append(message.as_str());
                s
            },
            KlafsError::Network(m) => {
                let mut s = to_owned_string("Network error: ");
                s.append(m.as_str());
                s
            },
            KlafsError::Parse(m) => {
                let mut s = to_owned_string("Failed to parse response: ");
                s.append(m.as_str());
                s
            },
            KlafsError::VerificationTokenNotFound => to_owned_string(
                "Failed to extract verification token from response",
            ),
            KlafsError::UnexpectedResponse { message } => {
                let mut s = to_owned_string("Unexpected response: ");
                s.append(message.as_str());
                s
            },
        }
    }
}

} // verus!
