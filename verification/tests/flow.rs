use axiobot::correlator::{classify_outcome, submit, Outcome};
use axiobot::handlers::{
    callback_handler, Action, CallbackOutcome, CallbackQuery, Dispatch,
};
use axiobot::messages::{default_messages, MessageDecision};
use axiobot::records::{Message, MessageStatus};
use axiobot::router::CallbackHandlerFactory;
use axiobot::state::{State, StateStore};

fn msg(id: &str, text: &str) -> Message {
    Message {
        id: String::from(id),
        telegram_id: 7,
        text: String::from(text),
        status: MessageStatus::Answered,
        answer: Some(String::from("ответ")),
        created_at: String::from("2024-01-01 00:00:00 UTC"),
        updated_at: String::from("2024-01-01 00:00:00 UTC"),
    }
}

fn numbered(n: usize) -> Vec<Message> {
    let mut v = Vec::new();
    let mut i = 0;
    while i < n {
        v.push(msg(&format!("id{}", i), &format!("text {}", i)));
        i += 1;
    }
    v
}

fn query(from: i64, data: &str) -> CallbackQuery {
    CallbackQuery {
        from_id: from,
        first_name: String::from("Ann"),
        data: Some(String::from(data)),
    }
}

#[test]
fn initial_load_fetches_then_enters_list() {
    let factory = CallbackHandlerFactory::new();
    let mut store = StateStore::new();
    let q = query(7, "all_requests");
    match callback_handler(&factory, &mut store, &q, None) {
        CallbackOutcome::NeedMessages { owner } => assert_eq!(owner, 7),
        _ => panic!("expected a fetch request"),
    }
    match callback_handler(&factory, &mut store, &q, Some(numbered(12))) {
        CallbackOutcome::Acted { actions } => assert_eq!(actions.len(), 1),
        _ => panic!("expected actions"),
    }
    match store.get(7) {
        State::ViewingMessages { messages, current_page } => {
            assert_eq!(messages.len(), 12);
            assert_eq!(current_page, 0);
        }
        _ => panic!("expected the list view"),
    }
}

#[test]
fn select_then_back_restores_the_page() {
    // ViewingList(page=1) -> select item -> back -> ViewingList(page=1)
    let factory = CallbackHandlerFactory::new();
    let mut store = StateStore::new();
    store.replace(
        7,
        State::ViewingMessages { messages: numbered(12), current_page: 1 },
    );
    let select = query(7, "msg_id11");
    match callback_handler(&factory, &mut store, &select, None) {
        CallbackOutcome::Acted { actions } => assert_eq!(actions.len(), 1),
        _ => panic!("expected actions"),
    }
    match store.get(7) {
        State::ViewingSingleMessage { message, back_page } => {
            assert_eq!(message.id, "id11");
            assert_eq!(back_page, 1);
        }
        _ => panic!("expected the single view"),
    }
    let back = query(7, "back_to_page_1");
    match callback_handler(&factory, &mut store, &back, None) {
        CallbackOutcome::NeedMessages { owner } => assert_eq!(owner, 7),
        _ => panic!("expected a refetch"),
    }
    match callback_handler(&factory, &mut store, &back, Some(numbered(12))) {
        CallbackOutcome::Acted { actions } => assert_eq!(actions.len(), 1),
        _ => panic!("expected actions"),
    }
    match store.get(7) {
        State::ViewingMessages { messages, current_page } => {
            assert_eq!(messages.len(), 12);
            assert_eq!(current_page, 1);
        }
        _ => panic!("expected the list view again"),
    }
}

#[test]
fn stale_selection_changes_nothing() {
    // payload "msg_abc" with no item id "abc" in the snapshot: state
    // unchanged, no transition, no crash
    let factory = CallbackHandlerFactory::new();
    let mut store = StateStore::new();
    store.replace(
        7,
        State::ViewingMessages { messages: numbered(3), current_page: 0 },
    );
    let q = query(7, "msg_abc");
    match callback_handler(&factory, &mut store, &q, None) {
        CallbackOutcome::Acted { actions } => assert!(actions.is_empty()),
        _ => panic!("expected an empty, silent decision"),
    }
    match store.get(7) {
        State::ViewingMessages { messages, current_page } => {
            assert_eq!(messages.len(), 3);
            assert_eq!(current_page, 0);
        }
        _ => panic!("state must be unchanged"),
    }
}

#[test]
fn page_callback_in_wrong_state_is_ignored() {
    let factory = CallbackHandlerFactory::new();
    let mut store = StateStore::new();
    let q = query(7, "page_2");
    match callback_handler(&factory, &mut store, &q, None) {
        CallbackOutcome::Ignored => {}
        _ => panic!("a page callback outside the list view is ignored"),
    }
}

#[test]
fn page_change_clamps_and_updates_state() {
    let factory = CallbackHandlerFactory::new();
    let mut store = StateStore::new();
    store.replace(
        7,
        State::ViewingMessages { messages: numbered(25), current_page: 0 },
    );
    let q = query(7, "page_5");
    match callback_handler(&factory, &mut store, &q, None) {
        CallbackOutcome::Acted { actions } => {
            assert_eq!(actions.len(), 1);
            assert!(matches!(actions[0], Action::EditSourceMarkup { .. }));
        }
        _ => panic!("expected actions"),
    }
    match store.get(7) {
        State::ViewingMessages { current_page, .. } => assert_eq!(current_page, 2),
        _ => panic!("expected the list view"),
    }
}

#[test]
fn unparsable_page_number_keeps_the_current_page() {
    let factory = CallbackHandlerFactory::new();
    let mut store = StateStore::new();
    store.replace(
        7,
        State::ViewingMessages { messages: numbered(25), current_page: 1 },
    );
    let q = query(7, "page_zzz");
    match callback_handler(&factory, &mut store, &q, None) {
        CallbackOutcome::Acted { .. } => {}
        _ => panic!("expected actions"),
    }
    match store.get(7) {
        State::ViewingMessages { current_page, .. } => assert_eq!(current_page, 1),
        _ => panic!("expected the list view"),
    }
}

#[test]
fn last_writer_wins_without_serialization() {
    // two replace calls on the same conversation: the later write lands,
    // whichever order they arrive in
    let mut store = StateStore::new();
    store.replace(7, State::ViewingMessages { messages: numbered(12), current_page: 1 });
    store.replace(7, State::ViewingMessages { messages: numbered(12), current_page: 2 });
    match store.get(7) {
        State::ViewingMessages { current_page, .. } => assert_eq!(current_page, 2),
        _ => panic!("expected the list view"),
    }
    // the interleaving with B first and A last ends on A: the race is real
    let mut store = StateStore::new();
    store.replace(7, State::ViewingMessages { messages: numbered(12), current_page: 2 });
    store.replace(7, State::ViewingMessages { messages: numbered(12), current_page: 1 });
    match store.get(7) {
        State::ViewingMessages { current_page, .. } => assert_eq!(current_page, 1),
        _ => panic!("expected the list view"),
    }
}

#[test]
fn serialized_writes_preserve_causal_order() {
    // a caller that serializes its calls per conversation always observes
    // the causally last write
    let mut store = StateStore::new();
    for page in 0..3 {
        store.replace(7, State::ViewingMessages { messages: numbered(25), current_page: page });
        match store.get(7) {
            State::ViewingMessages { current_page, .. } => assert_eq!(current_page, page),
            _ => panic!("expected the list view"),
        }
    }
}

#[test]
fn unknown_conversations_read_as_waiting() {
    let store = StateStore::new();
    assert!(matches!(store.get(99), State::OnWaiting));
}

#[test]
fn error_outcome_is_delivered_exactly_once() {
    // the compute call fails with "quota exceeded": exactly one follow-up
    // carries that text, never two
    let (_interim, mut pending, _request) = submit(7, String::from("question"));
    let outcome = classify_outcome(Some(Err(String::from("quota exceeded"))));
    let first = pending.complete(outcome);
    match first {
        Some(Action::SendText { text, keyboard }) => {
            assert_eq!(text, "quota exceeded");
            assert!(keyboard.is_none());
        }
        _ => panic!("the first completion must deliver the error"),
    }
    let again = pending.complete(classify_outcome(Some(Err(String::from("quota exceeded")))));
    assert!(again.is_none());
}

#[test]
fn closed_channel_yields_the_sentinel() {
    let (_interim, mut pending, _request) = submit(7, String::from("q"));
    match pending.complete(classify_outcome(None)) {
        Some(Action::SendText { text, .. }) => {
            assert_eq!(text, "Ошибка связи с сервером")
        }
        _ => panic!("expected the sentinel follow-up"),
    }
}

#[test]
fn success_text_is_passed_through() {
    let (_interim, mut pending, _request) = submit(7, String::from("q"));
    match pending.complete(classify_outcome(Some(Ok(String::from("answer"))))) {
        Some(Action::SendText { text, .. }) => assert_eq!(text, "answer"),
        _ => panic!("expected the answer follow-up"),
    }
}

#[test]
fn waiting_state_triggers_a_submission() {
    let decision = default_messages(7, &State::WaitQuestion, Some(String::from("why?")));
    match decision {
        MessageDecision::AskAssistant { interim, pending: _, request } => {
            assert!(matches!(interim, Action::SendText { .. }));
            assert_eq!(request.user_prompt, "why?");
            assert!(!request.system_prompt.is_empty());
        }
        _ => panic!("expected a submission"),
    }
    assert!(matches!(
        default_messages(7, &State::OnWaiting, Some(String::from("hi"))),
        MessageDecision::Ignored
    ));
    assert!(matches!(
        default_messages(7, &State::WaitQuestion, None),
        MessageDecision::Ignored
    ));
}

#[test]
fn events_without_payload_are_ignored() {
    let factory = CallbackHandlerFactory::new();
    let mut store = StateStore::new();
    let q = CallbackQuery { from_id: 7, first_name: String::from("Ann"), data: None };
    assert!(matches!(
        callback_handler(&factory, &mut store, &q, None),
        CallbackOutcome::Ignored
    ));
}

#[test]
fn faq_callback_starts_waiting() {
    let factory = CallbackHandlerFactory::new();
    let mut store = StateStore::new();
    let q = query(7, "faq");
    match callback_handler(&factory, &mut store, &q, None) {
        CallbackOutcome::Acted { actions } => {
            assert_eq!(actions.len(), 2);
            assert!(matches!(actions[0], Action::DeleteSource));
            assert!(matches!(actions[1], Action::SendText { .. }));
        }
        _ => panic!("expected actions"),
    }
    assert!(matches!(store.get(7), State::WaitQuestion));
}

#[test]
fn handlers_leave_other_conversations_alone() {
    let factory = CallbackHandlerFactory::new();
    let mut store = StateStore::new();
    store.replace(8, State::Send);
    let q = query(7, "faq");
    callback_handler(&factory, &mut store, &q, None);
    assert!(matches!(store.get(8), State::Send));
}

#[test]
fn dispatch_variants_carry_their_payloads() {
    match (Dispatch::NeedMessages { owner: 3 }) {
        Dispatch::NeedMessages { owner } => assert_eq!(owner, 3),
        _ => unreachable!(),
    }
    assert!(matches!(classify_outcome(None), Outcome::ChannelClosed));
}
