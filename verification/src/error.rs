//! The engine's error type.  Failures of outside collaborators arrive as
//! plain rendered text and are carried, not interpreted.
use vstd::prelude::*;
use vstd::string::*;

verus! {

/// Ghost model of a [`BotError`].
#[verifier::ext_equal]
pub enum BotErrorModel {
    Disconnect { source: Seq<char> },
    Redaction { key: Seq<char> },
    InvalidHeader { expected: Seq<char>, found: Seq<char> },
    UnvialabelFromData,
    Unknown,
}

/// What can go wrong around the data store: a lost connection (with the
/// underlying failure rendered as text), missing data for a key, a
/// malformed header, an absent value, or something unknown.
#[derive(Debug)]
pub enum BotError {
    Disconnect(String),
    Redaction(String),
    InvalidHeader { expected: String, found: String },
    UnvialabelFromData,
    Unknown,
}

impl View for BotError {
    type V = BotErrorModel;

    open spec fn view(&self) -> BotErrorModel {
        match self {
            BotError::Disconnect(source) => BotErrorModel::Disconnect { source: source@ },
            BotError::Redaction(key) => BotErrorModel::Redaction { key: key@ },
            BotError::InvalidHeader { expected, found } => BotErrorModel::InvalidHeader {
                expected: expected@,
                found: found@,
            },
            BotError::UnvialabelFromData => BotErrorModel::UnvialabelFromData,
            BotError::Unknown => BotErrorModel::Unknown,
        }
    }
}

/// The rendered form of each error.
pub open spec fn spec_error_message(e: BotErrorModel) -> Seq<char> {
    match e {
        BotErrorModel::Disconnect { source } => "data store disconnected"@,
        BotErrorModel::Redaction { key } => "the data for key `"@ + key + "` is not available"@,
        BotErrorModel::InvalidHeader { expected, found } => "invalid header (expected \""@
            + expected + "\", found \""@ + found + "\")"@,
        BotErrorModel::UnvialabelFromData => "None option while return message from data"@,
        BotErrorModel::Unknown => "unknown data store error"@,
    }
}

impl BotError {
    /// Render the error for logs and user-facing failure notes.
    pub fn message(&self) -> (r: String)
        ensures
            r@ == spec_error_message(self@),
    {
        match self {
            BotError::Disconnect(_) => String::from_str("data store disconnected"),
            BotError::Redaction(key) => {
                let mut out = String::from_str("the data for key `");
                out.append(key.as_str());
                out.append("` is not available");
                out
            },
            BotError::InvalidHeader { expected, found } => {
                let mut out = String::from_str("invalid header (expected \"");
                out.append(expected.as_str());
                out.append("\", found \"");
                out.append(found.as_str());
                out.append("\")");
                out
            },
            BotError::UnvialabelFromData => String::from_str(
                "None option while return message from data",
            ),
            BotError::Unknown => String::from_str("unknown data store error"),
        }
    }
}

} // verus!
