//! The document-store user model: accounts, answer requests and chat
//! history.  Object identifiers and timestamps are generated by outside
//! collaborators and handed in as plain values (an identifier as text, a
//! timestamp in milliseconds).
use vstd::prelude::*;
use vstd::string::*;

verus! {

/// Access level of a document-store account.
#[derive(Clone, Copy, Debug, PartialEq, Eq, Structural)]
pub enum Role {
    DEFAULT,
    MODER,
    ADMIN,
}

impl Role {
    pub open spec fn spec_name(self) -> Seq<char> {
        match self {
            Role::DEFAULT => "DEFAULT"@,
            Role::MODER => "MODER"@,
            Role::ADMIN => "ADMIN"@,
        }
    }

    /// The role's wire name.
    pub fn role_name(&self) -> (r: &'static str)
        ensures
            r@ == self.spec_name(),
    {
        match self {
            Role::DEFAULT => "DEFAULT",
            Role::MODER => "MODER",
            Role::ADMIN => "ADMIN",
        }
    }
}

/// A document-store account.
#[derive(Debug)]
pub struct User {
    pub id: String,
    pub telegram_id: i64,
    pub username: Option<String>,
    pub role: Role,
    pub created_at: i64,
}

impl User {
    /// Capture a new account record.  The caller supplies the freshly
    /// generated object identifier and the current time.
    pub fn new(telegram_id: i64, username: Option<String>, role: Role, id: String, now: i64) -> (r:
        Self)
        ensures
            r.id@ == id@,
            r.telegram_id == telegram_id,
            match (r.username, username) {
                (Some(a), Some(b)) => a@ == b@,
                (None, None) => true,
                _ => false,
            },
            r.role == role,
            r.created_at == now,
    {
        let ghost u = username;
        User { id, telegram_id, username, role, created_at: now }
    }
}

/// Review status of an answer request.
#[derive(Clone, Copy, Debug, PartialEq, Eq, Structural)]
pub enum AnswerStatus {
    ACCEPTED,
    REVIEWED,
}

/// A user's request awaiting an administrator's answer.
#[derive(Debug)]
pub struct AnswerRequest {
    pub id: String,
    pub telegram_id: i64,
    pub text: String,
    pub status: AnswerStatus,
    pub timestamp: i64,
}

impl AnswerRequest {
    /// Capture a new request; it always starts out `ACCEPTED`.
    pub fn new(telegram_id: i64, text: String, id: String, now: i64) -> (r: Self)
        ensures
            r.id@ == id@,
            r.telegram_id == telegram_id,
            r.text@ == text@,
            r.status == AnswerStatus::ACCEPTED,
            r.timestamp == now,
    {
        let ghost t = text@;
        AnswerRequest { id, telegram_id, text, status: AnswerStatus::ACCEPTED, timestamp: now }
    }
}

/// One message of a conversation history.
#[derive(Debug)]
pub struct HistoryMessage {
    pub role: String,
    pub content: String,
    pub timestamp: i64,
}

/// A conversation's chat history with the assistant.
#[derive(Debug)]
pub struct UserHistory {
    pub id: String,
    pub telegram_id: i64,
    pub messages: Vec<HistoryMessage>,
}

impl UserHistory {
    /// Start a history: exactly one message, the system prompt.
    pub fn new(telegram_id: i64, system_prompt: String, id: String, now: i64) -> (r: Self)
        ensures
            r.id@ == id@,
            r.telegram_id == telegram_id,
            r.messages@.len() == 1,
            r.messages@[0].role@ == "system"@,
            r.messages@[0].content@ == system_prompt@,
            r.messages@[0].timestamp == now,
    {
        let ghost p = system_prompt@;
        let mut messages: Vec<HistoryMessage> = Vec::new();
        messages.push(
            HistoryMessage {
                role: String::from_str("system"),
                content: system_prompt,
                timestamp: now,
            },
        );
        UserHistory { id, telegram_id, messages }
    }
}

/// Ghost model of a [`StatusCode`].
#[verifier::ext_equal]
pub enum StatusCodeModel {
    Exist,
    ObjectIdError,
    UserId { id: Seq<char> },
    GroupId { id: Seq<char> },
}

/// What storing a new account concluded: the account already existed, the
/// store handed back no object identifier, or the freshly created user's
/// (or group's) identifier.
#[derive(Debug)]
pub enum StatusCode {
    Exist,
    ObjectIdError,
    UserId(String),
    GroupId(String),
}

impl View for StatusCode {
    type V = StatusCodeModel;

    open spec fn view(&self) -> StatusCodeModel {
        match self {
            StatusCode::Exist => StatusCodeModel::Exist,
            StatusCode::ObjectIdError => StatusCodeModel::ObjectIdError,
            StatusCode::UserId(id) => StatusCodeModel::UserId { id: id@ },
            StatusCode::GroupId(id) => StatusCodeModel::GroupId { id: id@ },
        }
    }
}

/// Conclude an attempted account insertion from what the store reported:
/// whether an account with the same conversation identifier already
/// existed, and the inserted object identifier, if one came back.
pub fn add_user_status(existing: bool, inserted_id: Option<String>) -> (r: StatusCode)
    ensures
        existing ==> r@ == StatusCodeModel::Exist,
        !existing ==> match inserted_id {
            Some(ref id) => r@ == (StatusCodeModel::UserId { id: id@ }),
            None => r@ == StatusCodeModel::ObjectIdError,
        },
{
    if existing {
        StatusCode::Exist
    } else {
        match inserted_id {
            Some(id) => StatusCode::UserId(id),
            None => StatusCode::ObjectIdError,
        }
    }
}

} // verus!
