use vstd::prelude::*;
use vstd::string::*;

verus! {

/// What a failed call to the Kubernetes API reported.
#[derive(Debug, Clone)]
pub struct KubeFailure {
    /// The HTTP status code, when the API server itself answered with an error.
    pub api_code: Option<u16>,
    /// A human-readable description of the failure.
    pub message: String,
}

/// HTTP status that the API server answers for an object that does not exist.
pub const NOT_FOUND: u16 = 404;

impl KubeFailure {
    /// The API server answered that the object does not exist.
    pub open spec fn not_found(self) -> bool {
        self.api_code == Some(NOT_FOUND)
    }

    /// Whether the API server answered that the object does not exist.
    pub fn is_not_found(&self) -> (b: bool)
        ensures
            b == self.not_found(),
    {
        match self.api_code {
            Some(code) => code == NOT_FOUND,
            None => false,
        }
    }
}

/// Why a reconciliation step failed.
#[derive(Debug, Clone)]
pub enum Error {
    /// A call to the Kubernetes API failed.
    KubeError(KubeFailure),
    /// An object could not be (de)serialised.
    SerializationError(String),
    /// The controller refused to go on.
    ReconcileError(String),
}

/// The text in which `error` is reported.
pub open spec fn error_message(error: Error) -> Seq<char> {
    match error {
        Error::KubeError(failure) => "Kubernetes API error: "@ + failure.message@,
        Error::SerializationError(message) => "Serialization error: "@ + message@,
        Error::ReconcileError(message) => "Reconciliation failed: "@ + message@,
    }
}

impl Error {
    /// The text in which this error is reported.
    pub fn message(&self) -> (text: String)
        ensures
            text@ == error_message(*self),
    {
        let (mut text, detail) = match self {
            Error::KubeError(failure) => (String::from_str("Kubernetes API error: "), &failure.message),
            Error::SerializationError(message) => (String::from_str("Serialization error: "), message),
            Error::ReconcileError(message) => (String::from_str("Reconciliation failed: "), message),
        };
        text.append(detail.as_str());
        text
    }
}

} // verus!
