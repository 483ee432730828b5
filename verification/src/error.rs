//! The errors an evaluation can surface: a closed set of error kinds,
//! always returned as values, never as an abnormal termination.

use vstd::prelude::*;

verus! {

/// An enumerated error code.
#[derive(PartialEq, Eq, Debug)]
pub enum EvaluationErrorCode {
    /// The value was resolved before the provider was initialized.
    ProviderNotReady,
    /// The flag could not be found.
    FlagNotFound,
    /// An error was encountered parsing data, such as a flag configuration.
    ParseError,
    /// The type of the flag value does not match the expected type.
    TypeMismatch,
    /// The provider requires a targeting key and one was not provided in the
    /// evaluation context.
    TargetingKeyMissing,
    /// The evaluation context does not meet provider requirements.
    InvalidContext,
    /// The error was for a reason not enumerated above.
    General(String),
}

impl EvaluationErrorCode {
    /// The code, rendered as the conventional upper-case name; a general
    /// error renders as its message.
    pub fn to_string(&self) -> (r: String)
        ensures
            r@ == self.spec_name(),
    {
        match self {
            Self::ProviderNotReady => "PROVIDER_NOT_READY".to_owned(),
            Self::FlagNotFound => "FLAG_NOT_FOUND".to_owned(),
            Self::ParseError => "PARSE_ERROR".to_owned(),
            Self::TypeMismatch => "TYPE_MISMATCH".to_owned(),
            Self::TargetingKeyMissing => "TARGETING_KEY_MISSING".to_owned(),
            Self::InvalidContext => "INVALID_CONTEXT".to_owned(),
            Self::General(message) => message.clone(),
        }
    }

    /// The characters [`EvaluationErrorCode::to_string`] renders to.
    pub open spec fn spec_name(self) -> Seq<char> {
        match self {
            Self::ProviderNotReady => "PROVIDER_NOT_READY"@,
            Self::FlagNotFound => "FLAG_NOT_FOUND"@,
            Self::ParseError => "PARSE_ERROR"@,
            Self::TypeMismatch => "TYPE_MISMATCH"@,
            Self::TargetingKeyMissing => "TARGETING_KEY_MISSING"@,
            Self::InvalidContext => "INVALID_CONTEXT"@,
            Self::General(message) => message@,
        }
    }
}

impl Clone for EvaluationErrorCode {
    /// Cloning keeps the code.
    fn clone(&self) -> (r: Self)
        ensures
            r == *self,
    {
        match self {
            Self::ProviderNotReady => Self::ProviderNotReady,
            Self::FlagNotFound => Self::FlagNotFound,
            Self::ParseError => Self::ParseError,
            Self::TypeMismatch => Self::TypeMismatch,
            Self::TargetingKeyMissing => Self::TargetingKeyMissing,
            Self::InvalidContext => Self::InvalidContext,
            Self::General(message) => Self::General(message.clone()),
        }
    }
}

/// The error of an abnormal evaluation: a code and an optional message
/// supplied by whoever raised it.
#[derive(PartialEq, Eq, Debug)]
pub struct EvaluationError {
    /// The error code of abnormal evaluation.
    pub code: EvaluationErrorCode,

    /// The custom error message returned by the provider.
    pub message: Option<String>,
}

impl EvaluationError {
    /// Create an error out of a code and a message.
    pub fn new(code: EvaluationErrorCode, message: &str) -> (r: Self)
        ensures
            r.code == code,
            r.message matches Some(m) && m@ == message@,
    {
        EvaluationError { code, message: Some(message.to_owned()) }
    }
}

impl Clone for EvaluationError {
    /// Cloning keeps the code and the message.
    fn clone(&self) -> (r: Self)
        ensures
            r == *self,
    {
        let message = match &self.message {
            Some(m) => Some(m.clone()),
            None => None,
        };
        EvaluationError { code: self.code.clone(), message }
    }
}

} // verus!
