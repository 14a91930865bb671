//! The record model: a user-submitted message tracked with a lifecycle
//! status, and the repository-side user account.  Records are owned by the
//! external store; the engine only ever works on snapshots of them, so the
//! fields here are plain values (identifiers and timestamps as text).
use vstd::prelude::*;

verus! {

/// Access level of a stored user account.
#[derive(Clone, Copy, Debug, PartialEq, Eq, Structural)]
pub enum UserRole {
    Default,
    Admin,
    WithAccess,
}

/// Decide a role check from what the store reported.  An absent account is
/// surfaced as `None` instead of silently standing in as the base role:
/// the caller chooses whether absence may pass.
pub fn check_role(found: Option<UserRole>, required: UserRole) -> (r: Option<bool>)
    ensures
        match found {
            Some(role) => r == Some(role == required),
            None => r is None,
        },
{
    match found {
        Some(role) => Some(role == required),
        None => None,
    }
}

/// Lifecycle status of a stored message.
#[derive(Clone, Copy, Debug, PartialEq, Eq, Structural)]
pub enum MessageStatus {
    Pending,
    Accepted,
    Answered,
}

impl MessageStatus {
    /// Human-readable status label shown in the single-message view.
    pub open spec fn spec_text(self) -> Seq<char> {
        match self {
            MessageStatus::Pending => "Ожидает рассмотрения"@,
            MessageStatus::Accepted => "Принято в работу"@,
            MessageStatus::Answered => "Ответ дан"@,
        }
    }

    pub fn status_text(&self) -> (r: &'static str)
        ensures
            r@ == self.spec_text(),
    {
        match self {
            MessageStatus::Pending => "Ожидает рассмотрения",
            MessageStatus::Accepted => "Принято в работу",
            MessageStatus::Answered => "Ответ дан",
        }
    }
}

/// Ghost model of a [`Message`]: every field as a mathematical value.
#[verifier::ext_equal]
pub struct MessageModel {
    pub id: Seq<char>,
    pub telegram_id: int,
    pub text: Seq<char>,
    pub status: MessageStatus,
    pub answer: Option<Seq<char>>,
    pub created_at: Seq<char>,
    pub updated_at: Seq<char>,
}

/// Snapshot of one stored message.  The stable unique identifier and the
/// timestamps are carried as text, exactly as they are rendered into
/// callback payloads and message bodies.
#[derive(Debug)]
pub struct Message {
    pub id: String,
    pub telegram_id: i64,
    pub text: String,
    pub status: MessageStatus,
    pub answer: Option<String>,
    pub created_at: String,
    pub updated_at: String,
}

impl View for Message {
    type V = MessageModel;

    open spec fn view(&self) -> MessageModel {
        MessageModel {
            id: self.id@,
            telegram_id: self.telegram_id as int,
            text: self.text@,
            status: self.status,
            answer: match self.answer {
                Some(ref a) => Some(a@),
                None => None,
            },
            created_at: self.created_at@,
            updated_at: self.updated_at@,
        }
    }
}

impl Clone for Message {
    fn clone(&self) -> (r: Self)
        ensures
            r@ == self@,
    {
        Message {
            id: self.id.clone(),
            telegram_id: self.telegram_id,
            text: self.text.clone(),
            status: self.status,
            answer: match &self.answer {
                Some(a) => Some(a.clone()),
                None => None,
            },
            created_at: self.created_at.clone(),
            updated_at: self.updated_at.clone(),
        }
    }
}

/// The sequence of models of a message snapshot list.
pub open spec fn models_of(msgs: Seq<Message>) -> Seq<MessageModel> {
    msgs.map_values(|m: Message| m@)
}

/// Clone a snapshot list, preserving every record model.
pub fn clone_messages(msgs: &Vec<Message>) -> (r: Vec<Message>)
    ensures
        models_of(r@) == models_of(msgs@),
{
    let mut out: Vec<Message> = Vec::new();
    let mut i: usize = 0;
    while i < msgs.len()
        invariant
            i <= msgs@.len(),
            out@.len() == i,
            forall|j: int| 0 <= j < i ==> out@[j]@ == msgs@[j]@,
        decreases msgs@.len() - i,
    {
        out.push(msgs[i].clone());
        i += 1;
    }
    proof {
        assert(models_of(out@) =~= models_of(msgs@));
    }
    out
}

/// A stored user account, as the repository hands it back.
#[derive(Debug)]
pub struct User {
    pub telegram_id: i64,
    pub username: Option<String>,
    pub uuid: String,
    pub role: UserRole,
}

/// Checked addition on `u64`; the caller rules out overflow.
pub fn add(left: u64, right: u64) -> (r: u64)
    requires
        left + right <= u64::MAX,
    ensures
        r == left + right,
{
    left + right
}

} // verus!
