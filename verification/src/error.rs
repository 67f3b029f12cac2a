//! What can end a run.

use vstd::prelude::*;

verus! {

/// Why a run ended early. Every error is final: nothing is retried.
#[derive(Clone, Debug)]
pub enum DdLogsError {
    /// The search service failed or refused; the text describes how.
    DatadogError(String),
    /// A record could not be written as JSON; the text is the encoder's.
    SerdeError(String),
    /// The API key or the application key is not configured.
    MissingCredentials,
    /// Reading or writing on the local machine failed.
    IoError(String),
    /// The configuration could not be written as TOML.
    TomlError(String),
}

/// The contents of a [`DdLogsError`].
pub enum ErrorModel {
    DatadogError(Seq<char>),
    SerdeError(Seq<char>),
    MissingCredentials,
    IoError(Seq<char>),
    TomlError(Seq<char>),
}

impl View for DdLogsError {
    type V = ErrorModel;

    open spec fn view(&self) -> ErrorModel {
        match self {
            DdLogsError::DatadogError(m) => ErrorModel::DatadogError(m@),
            DdLogsError::SerdeError(m) => ErrorModel::SerdeError(m@),
            DdLogsError::MissingCredentials => ErrorModel::MissingCredentials,
            DdLogsError::IoError(m) => ErrorModel::IoError(m@),
            DdLogsError::TomlError(m) => ErrorModel::TomlError(m@),
        }
    }
}

impl ErrorModel {
    /// The text shown to the user for this error.
    pub open spec fn message(self) -> Seq<char> {
        match self {
            ErrorModel::DatadogError(m) => "Datadog API error: "@ + m,
            ErrorModel::SerdeError(m) => "Serialization error: "@ + m,
            ErrorModel::MissingCredentials =>
                "Missing API credentials. Set DD_API_KEY and DD_APP_KEY environment variables"@,
            ErrorModel::IoError(m) => "IO error: "@ + m,
            ErrorModel::TomlError(m) => "TOML serialization error: "@ + m,
        }
    }
}

/// `prefix` followed by `detail`.
fn prefixed(prefix: &str, detail: &String) -> (text: String)
    ensures
        text@ == prefix@ + detail@,
{
    let mut text = String::from_str(prefix);
    text.append(detail.as_str());
    text
}

impl DdLogsError {
    /// The text shown to the user for this error.
    pub fn message(&self) -> (text: String)
        ensures
            text@ == self@.message(),
    {
        match self {
            DdLogsError::DatadogError(m) => prefixed("Datadog API error: ", m),
            DdLogsError::SerdeError(m) => prefixed("Serialization error: ", m),
            DdLogsError::MissingCredentials => String::from_str(
                "Missing API credentials. Set DD_API_KEY and DD_APP_KEY environment variables",
            ),
            DdLogsError::IoError(m) => prefixed("IO error: ", m),
            DdLogsError::TomlError(m) => prefixed("TOML serialization error: ", m),
        }
    }
}

} // verus!
