//! Classified failures and their rendering as text.
//!
//! A failure stays a tagged value for as long as the library holds it; text is
//! made of it only on request.

use vstd::prelude::*;

verus! {

/// The failure category that the platform reports with a failed call.
///
/// The categories that are told apart by name are listed; every other one is
/// `Other`, with the platform's own name for it.
#[derive(Clone, Debug, PartialEq, Eq)]
pub enum SteamErrorCode {
    Generic,
    NoConnection,
    InvalidPassword,
    InvalidParameter,
    FileNotFound,
    Busy,
    InvalidState,
    InvalidName,
    InvalidEmail,
    Other(String),
}

/// A failure as the platform reported it: its category, and the platform's
/// own sentence for it.
#[derive(Clone, Debug, PartialEq, Eq)]
pub struct SteamFailure {
    pub code: SteamErrorCode,
    pub text: String,
}

/// The asynchronous operations that the bridge runs.
#[derive(Clone, Copy, Debug, PartialEq, Eq, Structural)]
pub enum Operation {
    Query,
    Subscribe,
    Unsubscribe,
}

/// Why an operation of the bridge gave no result.
#[derive(Clone, Debug, PartialEq, Eq)]
pub enum BridgeError {
    /// The platform refused the query before any asynchronous work began;
    /// `text` is what the platform said of it.
    CreateQuery { text: String },
    /// The callback delivered a failure.
    Sdk { operation: Operation, failure: SteamFailure },
}

/// The name of a failure category.
pub open spec fn code_name(code: SteamErrorCode) -> Seq<char> {
    match code {
        SteamErrorCode::Generic => "Generic"@,
        SteamErrorCode::NoConnection => "NoConnection"@,
        SteamErrorCode::InvalidPassword => "InvalidPassword"@,
        SteamErrorCode::InvalidParameter => "InvalidParameter"@,
        SteamErrorCode::FileNotFound => "FileNotFound"@,
        SteamErrorCode::Busy => "Busy"@,
        SteamErrorCode::InvalidState => "InvalidState"@,
        SteamErrorCode::InvalidName => "InvalidName"@,
        SteamErrorCode::InvalidEmail => "InvalidEmail"@,
        SteamErrorCode::Other(name) => name@,
    }
}

/// The sentence that describes a failure category to a reader.
pub open spec fn steam_error_text(code: SteamErrorCode) -> Seq<char> {
    match code {
        SteamErrorCode::Generic => "Steamworks: Generic error"@,
        SteamErrorCode::NoConnection => "Steamworks: No connection to Steam"@,
        SteamErrorCode::InvalidPassword => "Steamworks: Invalid password or ticket"@,
        SteamErrorCode::InvalidParameter => "Steamworks: Invalid parameter"@,
        SteamErrorCode::FileNotFound => "Steamworks: File not found"@,
        SteamErrorCode::Busy => "Steamworks: Method busy"@,
        SteamErrorCode::InvalidState => "Steamworks: Invalid state"@,
        SteamErrorCode::InvalidName => "Steamworks: Invalid name"@,
        SteamErrorCode::InvalidEmail => "Steamworks: Invalid email"@,
        SteamErrorCode::Other(name) => "Steamworks: Unknown error: "@ + name@,
    }
}

impl SteamErrorCode {
    /// The name of this failure category.
    pub fn name(&self) -> (text: String)
        ensures
            text@ == code_name(*self),
    {
        match self {
            SteamErrorCode::Generic => "Generic".to_owned(),
            SteamErrorCode::NoConnection => "NoConnection".to_owned(),
            SteamErrorCode::InvalidPassword => "InvalidPassword".to_owned(),
            SteamErrorCode::InvalidParameter => "InvalidParameter".to_owned(),
            SteamErrorCode::FileNotFound => "FileNotFound".to_owned(),
            SteamErrorCode::Busy => "Busy".to_owned(),
            SteamErrorCode::InvalidState => "InvalidState".to_owned(),
            SteamErrorCode::InvalidName => "InvalidName".to_owned(),
            SteamErrorCode::InvalidEmail => "InvalidEmail".to_owned(),
            SteamErrorCode::Other(name) => name.clone(),
        }
    }
}

/// Describes a failure category in a sentence.
pub fn steam_error_to_napi(err: &SteamErrorCode) -> (message: String)
    ensures
        message@ == steam_error_text(*err),
{
    match err {
        SteamErrorCode::Generic => "Steamworks: Generic error".to_owned(),
        SteamErrorCode::NoConnection => "Steamworks: No connection to Steam".to_owned(),
        SteamErrorCode::InvalidPassword => "Steamworks: Invalid password or ticket".to_owned(),
        SteamErrorCode::InvalidParameter => "Steamworks: Invalid parameter".to_owned(),
        SteamErrorCode::FileNotFound => "Steamworks: File not found".to_owned(),
        SteamErrorCode::Busy => "Steamworks: Method busy".to_owned(),
        SteamErrorCode::InvalidState => "Steamworks: Invalid state".to_owned(),
        SteamErrorCode::InvalidName => "Steamworks: Invalid name".to_owned(),
        SteamErrorCode::InvalidEmail => "Steamworks: Invalid email".to_owned(),
        SteamErrorCode::Other(name) => "Steamworks: Unknown error: ".to_owned().concat(
            name.as_str(),
        ),
    }
}

/// A reported failure as text: the name of its category, then the platform's
/// own sentence.
pub open spec fn failure_text(failure: SteamFailure) -> Seq<char> {
    code_name(failure.code) + ": "@ + failure.text@
}

impl SteamFailure {
    /// This failure as text: the name of its category, then the platform's
    /// own sentence.
    pub fn describe(&self) -> (text: String)
        ensures
            text@ == failure_text(*self),
    {
        let text = self.code.name().concat(": ").concat(self.text.as_str());
        assert(text@ =~= failure_text(*self));
        text
    }
}

impl Operation {
    /// Whether the operation is a query, with records for a result.
    pub open spec fn is_query(self) -> bool {
        self is Query
    }
}

impl BridgeError {
    /// The text under which this failure is shown. A refused query is shown
    /// by what the platform said of the refusal. A reported failure is
    /// shown with the name of its category and the platform's own sentence:
    /// for a query after the sentence for the category, for subscribing and
    /// for ending a subscription after a heading that the two share.
    pub open spec fn spec_message(self) -> Seq<char> {
        match self {
            BridgeError::CreateQuery { text } => text@,
            BridgeError::Sdk { operation, failure } => if operation.is_query() {
                steam_error_text(failure.code) + " ("@ + failure_text(failure) + ")"@
            } else {
                "Steamworks: Failed to subscribe to item: "@ + failure_text(failure)
            },
        }
    }

    /// Renders this failure as text.
    pub fn message(&self) -> (text: String)
        ensures
            text@ == self.spec_message(),
    {
        match self {
            BridgeError::CreateQuery { text } => text.clone(),
            BridgeError::Sdk { operation, failure } => {
                let described = failure.describe();
                match operation {
                    Operation::Query => {
                        let text = steam_error_to_napi(&failure.code).concat(" (").concat(
                            described.as_str(),
                        ).concat(")");
                        assert(text@ =~= self.spec_message());
                        text
                    },
                    Operation::Subscribe
                    | Operation::Unsubscribe => "Steamworks: Failed to subscribe to item: ".to_owned().concat(
                        described.as_str(),
                    ),
                }
            },
        }
    }
}

/// The text of a reported failure holds the name of the failure's category
/// and the platform's own sentence, whatever the operation.
pub proof fn lemma_message_holds_failure_text(operation: Operation, failure: SteamFailure)
    ensures
        exists|before: Seq<char>, after: Seq<char>|
            (BridgeError::Sdk { operation, failure }).spec_message() == before + code_name(
                failure.code,
            ) + ": "@ + failure.text@ + after,
{
    let message = (BridgeError::Sdk { operation, failure }).spec_message();
    let before = if operation.is_query() {
        steam_error_text(failure.code) + " ("@
    } else {
        "Steamworks: Failed to subscribe to item: "@
    };
    let after = if operation.is_query() {
        ")"@
    } else {
        Seq::<char>::empty()
    };
    assert(message =~= before + code_name(failure.code) + ": "@ + failure.text@ + after);
}

} // verus!
