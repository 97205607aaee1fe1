//! The errors of the client and of the record decoders, with the text each
//! one reads as.

use vstd::prelude::*;
use vstd::string::*;

verus! {

#[derive(Debug, Clone, PartialEq, Eq)]
pub enum ErrorType {
    CertificateIdentityError { pkcs12_path: String, message: String },
    FailToConfigureHttpClient { message: String },
    ValidationError { message: String },
    FetchSubTasksError { message: String },
    FetchTaskError { message: String },
    ParseError { message: String },
}

/// The text that an error reads as.
pub open spec fn error_text(e: ErrorType) -> Seq<char> {
    match e {
        ErrorType::CertificateIdentityError { pkcs12_path, message } => "Certificate identity path: "@
            + pkcs12_path@ + ", error: "@ + message@,
        ErrorType::FailToConfigureHttpClient { message } => "Fail to configure http client, error: "@
            + message@,
        ErrorType::ValidationError { message } => "Validation error: "@ + message@,
        ErrorType::FetchSubTasksError { message } => "Fetch sub tasks error: "@ + message@,
        ErrorType::FetchTaskError { message } => "Fetch task error: "@ + message@,
        ErrorType::ParseError { message } => "Parse error: "@ + message@,
    }
}

fn prefixed(prefix: &str, rest: &String) -> (r: String)
    ensures
        r@ == prefix@ + rest@,
{
    let mut s = String::from_str(prefix);
    s.append(rest.as_str());
    s
}

impl ErrorType {
    /// The text that this error reads as.
    pub fn to_message(&self) -> (r: String)
        ensures
            r@ == error_text(*self),
    {
        match self {
            ErrorType::CertificateIdentityError { pkcs12_path, message } => {
                let mut s = prefixed("Certificate identity path: ", pkcs12_path);
                s.append(", error: ");
                s.append(message.as_str());
                s
            },
            ErrorType::FailToConfigureHttpClient { message } => prefixed(
                "Fail to configure http client, error: ",
                message,
            ),
            ErrorType::ValidationError { message } => prefixed("Validation error: ", message),
            ErrorType::FetchSubTasksError { message } => prefixed(
                "Fetch sub tasks error: ",
                message,
            ),
            ErrorType::FetchTaskError { message } => prefixed("Fetch task error: ", message),
            ErrorType::ParseError { message } => prefixed("Parse error: ", message),
        }
    }
}

} // verus!
