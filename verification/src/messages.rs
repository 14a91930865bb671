//! The plain-message flow: a text message arriving while the conversation
//! waits for a question triggers a submission to the compute collaborator;
//! any other plain message is ignored.
use crate::correlator::{
    spec_compute_system_prompt, submit, ComputeRequest, CorrelationModel, PendingCorrelation,
};
use crate::handlers::{Action, ActionModel};
use crate::state::{State, StateModel};
use crate::texts::spec_thinking_text;
use vstd::prelude::*;

verus! {

/// What one plain message decides: nothing, or one submission — the
/// interim notification, the single-use correlation, and the compute
/// request for the caller to run.
#[derive(Debug)]
pub enum MessageDecision {
    Ignored,
    AskAssistant { interim: Action, pending: PendingCorrelation, request: ComputeRequest },
}

/// Decide one inbound plain message for a conversation in `state`.
pub fn default_messages(chat_id: i64, state: &State, text: Option<String>) -> (r: MessageDecision)
    ensures
        (state@ is WaitQuestion && text is Some) <==> r is AskAssistant,
        r matches MessageDecision::AskAssistant { interim, pending, request } ==> {
            &&& interim@ == (ActionModel::SendText { text: spec_thinking_text(), keyboard: None })
            &&& pending@ == (CorrelationModel { destination: chat_id as int, consumed: false })
            &&& request.system_prompt@ == spec_compute_system_prompt()
            &&& text matches Some(t) && request.user_prompt@ == t@
        },
{
    match state {
        State::WaitQuestion => match text {
            Some(question) => {
                let (interim, pending, request) = submit(chat_id, question);
                MessageDecision::AskAssistant { interim, pending, request }
            },
            None => MessageDecision::Ignored,
        },
        _ => MessageDecision::Ignored,
    }
}

} // verus!
