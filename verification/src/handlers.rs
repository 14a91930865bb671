//! Callback handlers and the callback dispatcher.
//!
//! Every handler is a pure decision: from the inbound query, the current
//! dialogue state and (where a refetch is involved) the records the caller
//! fetched, it computes the next state and the outbound actions.  Handlers
//! never perform I/O themselves; a handler that needs the record store
//! answers `NeedMessages`, and the caller comes back with the fetched
//! snapshot.
use crate::keyboards::{
    all_messages, faq, history, menu, profits, spec_all_messages_kb, spec_button, spec_faq_kb,
    spec_history_kb, spec_menu_kb, spec_profits_kb, ButtonModel, InlineButton, Keyboard,
};
use crate::numeric::{parse_usize, spec_parse_usize, spec_render_usize};
use crate::pagination::{effective_page, spec_effective_page, spec_total_pages};
use crate::records::{clone_messages, models_of, Message, MessageModel};
use crate::router::{spec_resolve, CallbackHandlerFactory, HandlerKind};
use crate::state::{state_wf, State, StateModel, StateStore};
use crate::text::{has_prefix, spec_has_prefix, str_eq, suffix_after};
use crate::texts::{
    choose_text, faq_send_text, greeting_text, message_details_text, q1_text,
    spec_choose_text, spec_faq_send_text, spec_greeting_text, spec_message_details_text,
    spec_q1_text,
};
use vstd::prelude::*;
use vstd::string::*;

verus! {

/// Ghost model of a [`CallbackQuery`].
#[verifier::ext_equal]
pub struct QueryModel {
    pub from_id: int,
    pub first_name: Seq<char>,
    pub data: Option<Seq<char>>,
}

/// One inbound callback event, reduced to the plain values the engine
/// reads: the originating conversation, the user's display name, and the
/// opaque payload (absent on bare events).
pub struct CallbackQuery {
    pub from_id: i64,
    pub first_name: String,
    pub data: Option<String>,
}

impl View for CallbackQuery {
    type V = QueryModel;

    open spec fn view(&self) -> QueryModel {
        QueryModel {
            from_id: self.from_id as int,
            first_name: self.first_name@,
            data: match self.data {
                Some(ref d) => Some(d@),
                None => None,
            },
        }
    }
}

/// Ghost model of an [`Action`].
#[verifier::ext_equal]
pub enum ActionModel {
    DeleteSource,
    SendText { text: Seq<char>, keyboard: Option<Seq<Seq<ButtonModel>>> },
    SendPhoto { caption: Seq<char>, keyboard: Seq<Seq<ButtonModel>> },
    EditSourceText { text: Seq<char>, keyboard: Option<Seq<Seq<ButtonModel>>> },
    EditSourceMarkup { keyboard: Seq<Seq<ButtonModel>> },
}

/// One outbound effect for the transport collaborator to perform in the
/// originating conversation.  "Source" is the message the activated control
/// was attached to.
#[derive(Debug)]
pub enum Action {
    DeleteSource,
    SendText { text: String, keyboard: Option<Keyboard> },
    SendPhoto { caption: String, keyboard: Keyboard },
    EditSourceText { text: String, keyboard: Option<Keyboard> },
    EditSourceMarkup { keyboard: Keyboard },
}

impl View for Action {
    type V = ActionModel;

    open spec fn view(&self) -> ActionModel {
        match self {
            Action::DeleteSource => ActionModel::DeleteSource,
            Action::SendText { text, keyboard } => ActionModel::SendText {
                text: text@,
                keyboard: match keyboard {
                    Some(k) => Some(k@),
                    None => None,
                },
            },
            Action::SendPhoto { caption, keyboard } => ActionModel::SendPhoto {
                caption: caption@,
                keyboard: keyboard@,
            },
            Action::EditSourceText { text, keyboard } => ActionModel::EditSourceText {
                text: text@,
                keyboard: match keyboard {
                    Some(k) => Some(k@),
                    None => None,
                },
            },
            Action::EditSourceMarkup { keyboard } => ActionModel::EditSourceMarkup {
                keyboard: keyboard@,
            },
        }
    }
}

pub open spec fn actions_of(s: Seq<Action>) -> Seq<ActionModel> {
    s.map_values(|a: Action| a@)
}

/// Ghost model of a [`Dispatch`].
#[verifier::ext_equal]
pub enum DispatchModel {
    Done { new_state: Option<StateModel>, actions: Seq<ActionModel> },
    NeedMessages { owner: int },
    Ignored,
}

/// What a handler decided: a finished decision (a state to store, if any,
/// and the outbound actions), a request for the owner's records, or an
/// ignored event.
#[derive(Debug)]
pub enum Dispatch {
    Done { new_state: Option<State>, actions: Vec<Action> },
    NeedMessages { owner: i64 },
    Ignored,
}

impl View for Dispatch {
    type V = DispatchModel;

    open spec fn view(&self) -> DispatchModel {
        match self {
            Dispatch::Done { new_state, actions } => DispatchModel::Done {
                new_state: match new_state {
                    Some(s) => Some(s@),
                    None => None,
                },
                actions: actions_of(actions@),
            },
            Dispatch::NeedMessages { owner } => DispatchModel::NeedMessages {
                owner: *owner as int,
            },
            Dispatch::Ignored => DispatchModel::Ignored,
        }
    }
}

/// Opens the FAQ from a callback control and starts waiting for a
/// question.
pub struct FaqSend;

/// Shows the one stocked FAQ answer.
pub struct Q1;

/// Returns to the main menu.
pub struct BackToMenu;

/// Opens the request-history entry keyboard.
pub struct MyRequests;

/// Enters the paginated list view and turns `page_<uint>` payloads into
/// page changes.
pub struct AllMessages;

/// Opens one record from the current snapshot (`msg_<id>` payloads).
pub struct MessageHandler;

/// Returns from the single-record view to the list, refreshing the
/// snapshot (`back_to_page_<uint>` payloads).
pub struct BackToPageHandler;

pub open spec fn spec_faq_send(first_name: Seq<char>) -> DispatchModel {
    DispatchModel::Done {
        new_state: Some(StateModel::WaitQuestion),
        actions: seq![
            ActionModel::DeleteSource,
            ActionModel::SendText {
                text: spec_faq_send_text(first_name),
                keyboard: Some(spec_faq_kb()),
            },
        ],
    }
}

impl FaqSend {
    pub fn handle(&self, q: &CallbackQuery) -> (r: Dispatch)
        ensures
            r@ == spec_faq_send(q.first_name@),
    {
        let mut actions: Vec<Action> = Vec::new();
        actions.push(Action::DeleteSource);
        actions.push(
            Action::SendText { text: faq_send_text(q.first_name.as_str()), keyboard: Some(faq()) },
        );
        let r = Dispatch::Done { new_state: Some(State::WaitQuestion), actions };
        proof {
            assert(r@ =~~= spec_faq_send(q.first_name@));
        }
        r
    }
}

pub open spec fn spec_q1() -> DispatchModel {
    DispatchModel::Done {
        new_state: None,
        actions: seq![
            ActionModel::DeleteSource,
            ActionModel::SendText { text: spec_q1_text(), keyboard: Some(spec_profits_kb()) },
        ],
    }
}

impl Q1 {
    pub fn handle(&self) -> (r: Dispatch)
        ensures
            r@ == spec_q1(),
    {
        let mut actions: Vec<Action> = Vec::new();
        actions.push(Action::DeleteSource);
        actions.push(Action::SendText { text: q1_text(), keyboard: Some(profits()) });
        let r = Dispatch::Done { new_state: None, actions };
        proof {
            assert(r@ =~~= spec_q1());
        }
        r
    }
}

pub open spec fn spec_back_to_menu(first_name: Seq<char>) -> DispatchModel {
    DispatchModel::Done {
        new_state: None,
        actions: seq![
            ActionModel::DeleteSource,
            ActionModel::SendPhoto {
                caption: spec_greeting_text(first_name),
                keyboard: spec_menu_kb(),
            },
        ],
    }
}

impl BackToMenu {
    pub fn handle(&self, q: &CallbackQuery) -> (r: Dispatch)
        ensures
            r@ == spec_back_to_menu(q.first_name@),
    {
        let mut actions: Vec<Action> = Vec::new();
        actions.push(Action::DeleteSource);
        actions.push(
            Action::SendPhoto { caption: greeting_text(q.first_name.as_str()), keyboard: menu() },
        );
        let r = Dispatch::Done { new_state: None, actions };
        proof {
            assert(r@ =~~= spec_back_to_menu(q.first_name@));
        }
        r
    }
}

pub open spec fn spec_my_requests() -> DispatchModel {
    DispatchModel::Done {
        new_state: None,
        actions: seq![
            ActionModel::DeleteSource,
            ActionModel::SendText { text: spec_choose_text(), keyboard: Some(spec_history_kb()) },
        ],
    }
}

impl MyRequests {
    pub fn handle(&self) -> (r: Dispatch)
        ensures
            r@ == spec_my_requests(),
    {
        let mut actions: Vec<Action> = Vec::new();
        actions.push(Action::DeleteSource);
        actions.push(Action::SendText { text: choose_text(), keyboard: Some(history()) });
        let r = Dispatch::Done { new_state: None, actions };
        proof {
            assert(r@ =~~= spec_my_requests());
        }
        r
    }
}

/// The page a `page_<uint>` payload asks for: the embedded number, or the
/// current page when the suffix does not parse.
pub open spec fn spec_requested_page(data: Seq<char>, current_page: int) -> int {
    match spec_parse_usize(data.subrange("page_"@.len() as int, data.len() as int)) {
        Some(v) => v,
        None => current_page,
    }
}

pub open spec fn spec_all_messages(
    from: int,
    data: Seq<char>,
    state: StateModel,
    fetched: Option<Seq<MessageModel>>,
) -> DispatchModel {
    if data == "all_requests"@ {
        match fetched {
            None => DispatchModel::NeedMessages { owner: from },
            Some(msgs) => DispatchModel::Done {
                new_state: Some(StateModel::ViewingMessages { messages: msgs, current_page: 0 }),
                actions: seq![
                    ActionModel::EditSourceMarkup { keyboard: spec_all_messages_kb(msgs, 0) },
                ],
            },
        }
    } else if spec_has_prefix(data, "page_"@) {
        match state {
            StateModel::ViewingMessages { messages, current_page } => {
                let requested = spec_requested_page(data, current_page);
                let clamped = if requested >= 0 {
                    requested as nat
                } else {
                    0
                };
                let valid = spec_effective_page(clamped, messages.len());
                DispatchModel::Done {
                    new_state: Some(
                        StateModel::ViewingMessages {
                            messages,
                            current_page: valid as int,
                        },
                    ),
                    actions: seq![
                        ActionModel::EditSourceMarkup {
                            keyboard: spec_all_messages_kb(messages, valid),
                        },
                    ],
                }
            },
            _ => DispatchModel::Ignored,
        }
    } else {
        DispatchModel::Ignored
    }
}

impl AllMessages {
    /// Initial load (`all_requests`) needs the owner's records; a page
    /// change works on the snapshot already in the state.
    pub fn handle(
        &self,
        q: &CallbackQuery,
        data: &String,
        state: &State,
        fetched: Option<Vec<Message>>,
    ) -> (r: Dispatch)
        ensures
            r@ == spec_all_messages(
                q.from_id as int,
                data@,
                state@,
                match fetched {
                    Some(ref v) => Some(models_of(v@)),
                    None => None,
                },
            ),
    {
        if str_eq(data.as_str(), "all_requests") {
            match fetched {
                None => Dispatch::NeedMessages { owner: q.from_id },
                Some(msgs) => {
                    let ghost fetched_models = models_of(msgs@);
                    let kb = all_messages(clone_messages(&msgs), 0);
                    let mut actions: Vec<Action> = Vec::new();
                    actions.push(Action::EditSourceMarkup { keyboard: kb });
                    let r = Dispatch::Done {
                        new_state: Some(
                            State::ViewingMessages { messages: msgs, current_page: 0 },
                        ),
                        actions,
                    };
                    proof {
                        assert(r@ =~~= spec_all_messages(
                            q.from_id as int,
                            data@,
                            state@,
                            Some(fetched_models),
                        ));
                    }
                    r
                },
            }
        } else if has_prefix(data.as_str(), "page_") {
            match state {
                State::ViewingMessages { messages, current_page } => {
                    proof {
                        reveal_strlit("page_");
                    }
                    let suffix = suffix_after(data.as_str(), 5);
                    let requested = match parse_usize(suffix) {
                        Some(v) => v,
                        None => *current_page,
                    };
                    let valid = effective_page(requested, messages.len());
                    let snapshot = clone_messages(messages);
                    let kb = all_messages(clone_messages(&snapshot), valid);
                    let mut actions: Vec<Action> = Vec::new();
                    actions.push(Action::EditSourceMarkup { keyboard: kb });
                    let r = Dispatch::Done {
                        new_state: Some(
                            State::ViewingMessages { messages: snapshot, current_page: valid },
                        ),
                        actions,
                    };
                    proof {
                        assert(r@ =~~= spec_all_messages(
                            q.from_id as int,
                            data@,
                            state@,
                            match fetched {
                                Some(ref v) => Some(models_of(v@)),
                                None => None,
                            },
                        ));
                    }
                    r
                },
                _ => Dispatch::Ignored,
            }
        } else {
            Dispatch::Ignored
        }
    }
}

/// Index of the first record with the given identifier, if any.
pub open spec fn spec_find_message(msgs: Seq<MessageModel>, id: Seq<char>) -> Option<int>
    decreases msgs.len(),
{
    if msgs.len() == 0 {
        None
    } else if msgs[0].id == id {
        Some(0)
    } else {
        match spec_find_message(msgs.drop_first(), id) {
            Some(i) => Some(i + 1),
            None => None,
        }
    }
}

/// The back control of the single-record view.
pub open spec fn spec_back_kb(page: int) -> Seq<Seq<ButtonModel>> {
    seq![seq![spec_button("⬅️ Назад"@, "back_to_page_"@ + spec_render_usize(page))]]
}

pub open spec fn spec_message_handler(data: Seq<char>, state: StateModel) -> DispatchModel {
    if spec_has_prefix(data, "msg_"@) {
        let id = data.subrange("msg_"@.len() as int, data.len() as int);
        match state {
            StateModel::ViewingMessages { messages, current_page } => {
                match spec_find_message(messages, id) {
                    Some(i) => DispatchModel::Done {
                        new_state: Some(
                            StateModel::ViewingSingleMessage {
                                message: messages[i],
                                back_page: current_page,
                            },
                        ),
                        actions: seq![
                            ActionModel::EditSourceText {
                                text: spec_message_details_text(messages[i]),
                                keyboard: Some(spec_back_kb(current_page)),
                            },
                        ],
                    },
                    // stale snapshot: the transition is skipped silently
                    None => DispatchModel::Done { new_state: None, actions: seq![] },
                }
            },
            _ => DispatchModel::Ignored,
        }
    } else {
        DispatchModel::Ignored
    }
}

impl MessageHandler {
    pub fn handle(&self, data: &String, state: &State) -> (r: Dispatch)
        ensures
            r@ == spec_message_handler(data@, state@),
    {
        if has_prefix(data.as_str(), "msg_") {
            proof {
                reveal_strlit("msg_");
            }
            let id = suffix_after(data.as_str(), 4);
            match state {
                State::ViewingMessages { messages, current_page } => {
                    match find_message(messages, id) {
                        Some(i) => {
                            let m = &messages[i];
                            let mut kb_rows: Vec<Vec<InlineButton>> = Vec::new();
                            let mut row: Vec<InlineButton> = Vec::new();
                            let mut payload = String::from_str("back_to_page_");
                            payload.append(
                                crate::numeric::render_usize(*current_page).as_str(),
                            );
                            row.push(
                                InlineButton { label: String::from_str("⬅️ Назад"), payload },
                            );
                            kb_rows.push(row);
                            let kb = Keyboard { rows: kb_rows };
                            proof {
                                assert(kb@ =~~= spec_back_kb(*current_page as int));
                            }
                            let mut actions: Vec<Action> = Vec::new();
                            actions.push(
                                Action::EditSourceText {
                                    text: message_details_text(m),
                                    keyboard: Some(kb),
                                },
                            );
                            let r = Dispatch::Done {
                                new_state: Some(
                                    State::ViewingSingleMessage {
                                        message: m.clone(),
                                        back_page: *current_page,
                                    },
                                ),
                                actions,
                            };
                            proof {
                                assert(r@ =~~= spec_message_handler(data@, state@));
                            }
                            r
                        },
                        None => {
                            let r = Dispatch::Done { new_state: None, actions: Vec::new() };
                            proof {
                                assert(r@ =~~= spec_message_handler(data@, state@));
                            }
                            r
                        },
                    }
                },
                _ => Dispatch::Ignored,
            }
        } else {
            Dispatch::Ignored
        }
    }
}

/// Scan the snapshot for the first record with the given identifier.
fn find_message(msgs: &Vec<Message>, id: &str) -> (r: Option<usize>)
    ensures
        match r {
            Some(i) => spec_find_message(models_of(msgs@), id@) == Some(i as int) && i
                < msgs@.len(),
            None => spec_find_message(models_of(msgs@), id@) is None,
        },
{
    let ghost ms = models_of(msgs@);
    let mut i: usize = 0;
    while i < msgs.len()
        invariant
            i <= msgs@.len(),
            ms == models_of(msgs@),
            forall|j: int| 0 <= j < i ==> ms[j].id != id@,
        decreases msgs@.len() - i,
    {
        if str_eq(msgs[i].id.as_str(), id) {
            proof {
                lemma_find_message_skip(ms, id@, i as int);
                assert(ms.skip(i as int)[0] == ms[i as int]);
            }
            return Some(i);
        }
        i += 1;
    }
    proof {
        lemma_find_message_skip(ms, id@, i as int);
        assert(ms.skip(i as int) =~= Seq::<MessageModel>::empty());
    }
    None
}

proof fn lemma_find_message_skip(msgs: Seq<MessageModel>, id: Seq<char>, i: int)
    requires
        0 <= i <= msgs.len(),
        forall|j: int| 0 <= j < i ==> msgs[j].id != id,
    ensures
        spec_find_message(msgs, id) == match spec_find_message(msgs.skip(i), id) {
            Some(k) => Some(k + i),
            None => None::<int>,
        },
    decreases i,
{
    if i > 0 {
        lemma_find_message_skip(msgs.drop_first(), id, i - 1);
        assert(msgs.drop_first().skip(i - 1) =~= msgs.skip(i));
    } else {
        assert(msgs.skip(0) =~= msgs);
    }
}

pub open spec fn spec_back_to_page(
    from: int,
    data: Seq<char>,
    state: StateModel,
    fetched: Option<Seq<MessageModel>>,
) -> DispatchModel {
    if spec_has_prefix(data, "back_to_page_"@) {
        match state {
            StateModel::ViewingSingleMessage { message, back_page } => {
                match fetched {
                    None => DispatchModel::NeedMessages { owner: from },
                    Some(msgs) => {
                        let clamped = if back_page >= 0 {
                            back_page as nat
                        } else {
                            0
                        };
                        let valid = spec_effective_page(clamped, msgs.len());
                        DispatchModel::Done {
                            new_state: Some(
                                StateModel::ViewingMessages {
                                    messages: msgs,
                                    current_page: valid as int,
                                },
                            ),
                            actions: seq![
                                ActionModel::EditSourceText {
                                    text: spec_choose_text(),
                                    keyboard: Some(spec_all_messages_kb(msgs, valid)),
                                },
                            ],
                        }
                    },
                }
            },
            _ => DispatchModel::Ignored,
        }
    } else {
        DispatchModel::Ignored
    }
}

impl BackToPageHandler {
    /// Return to the list at the remembered page, on a fresh snapshot.
    /// The page embedded in the payload is informational; the remembered
    /// `back_page` decides, clamped into range for the fresh snapshot.
    pub fn handle(
        &self,
        q: &CallbackQuery,
        data: &String,
        state: &State,
        fetched: Option<Vec<Message>>,
    ) -> (r: Dispatch)
        ensures
            r@ == spec_back_to_page(
                q.from_id as int,
                data@,
                state@,
                match fetched {
                    Some(ref v) => Some(models_of(v@)),
                    None => None,
                },
            ),
    {
        if has_prefix(data.as_str(), "back_to_page_") {
            match state {
                State::ViewingSingleMessage { back_page, .. } => {
                    match fetched {
                        None => Dispatch::NeedMessages { owner: q.from_id },
                        Some(msgs) => {
                            let ghost fetched_models = models_of(msgs@);
                            let valid = effective_page(*back_page, msgs.len());
                            let kb = all_messages(clone_messages(&msgs), valid);
                            let mut actions: Vec<Action> = Vec::new();
                            actions.push(
                                Action::EditSourceText {
                                    text: choose_text(),
                                    keyboard: Some(kb),
                                },
                            );
                            let r = Dispatch::Done {
                                new_state: Some(
                                    State::ViewingMessages {
                                        messages: msgs,
                                        current_page: valid,
                                    },
                                ),
                                actions,
                            };
                            proof {
                                assert(r@ =~~= spec_back_to_page(
                                    q.from_id as int,
                                    data@,
                                    state@,
                                    Some(fetched_models),
                                ));
                            }
                            r
                        },
                    }
                },
                _ => Dispatch::Ignored,
            }
        } else {
            Dispatch::Ignored
        }
    }
}

/// What one callback event decides, given the registry, the query, the
/// conversation's current state, and — when a handler asked for them — the
/// owner's fetched records.
pub open spec fn spec_callback_step(
    entries: Seq<(Seq<char>, HandlerKind)>,
    q: QueryModel,
    state: StateModel,
    fetched: Option<Seq<MessageModel>>,
) -> DispatchModel {
    match q.data {
        None => DispatchModel::Ignored,
        Some(d) => match spec_resolve(entries, d) {
            None => DispatchModel::Ignored,
            Some(h) => match h {
                HandlerKind::FaqSend => spec_faq_send(q.first_name),
                HandlerKind::Q1 => spec_q1(),
                HandlerKind::BackToMenu => spec_back_to_menu(q.first_name),
                HandlerKind::MyRequests => spec_my_requests(),
                HandlerKind::AllMessages => spec_all_messages(q.from_id, d, state, fetched),
                HandlerKind::MessageHandler => spec_message_handler(d, state),
                HandlerKind::BackToPageHandler => spec_back_to_page(q.from_id, d, state, fetched),
            },
        },
    }
}

/// What the dispatcher hands back to the caller: the outbound actions of a
/// finished decision, a request to fetch the owner's records and call
/// again, or nothing (a routing miss or a stale-state event; not an
/// error).
#[derive(Debug)]
pub enum CallbackOutcome {
    Acted { actions: Vec<Action> },
    NeedMessages { owner: i64 },
    Ignored,
}

/// Dispatch one callback event: resolve the payload, run the handler on
/// the conversation's current state, store the state it decided on, and
/// hand back the outbound actions.
///
/// The embedded state read and write are not compare-and-swap: two racing
/// calls for the same conversation end in whichever write lands last.
pub fn callback_handler(
    factory: &CallbackHandlerFactory,
    store: &mut StateStore,
    q: &CallbackQuery,
    fetched: Option<Vec<Message>>,
) -> (r: CallbackOutcome)
    ensures
        ({
            let step = spec_callback_step(
                factory.spec_entries(),
                q@,
                old(store).spec_state(q.from_id),
                match fetched {
                    Some(ref v) => Some(models_of(v@)),
                    None => None,
                },
            );
            &&& (step matches DispatchModel::Done { new_state, actions } ==> {
                &&& (r matches CallbackOutcome::Acted { actions: a } && actions_of(a@) == actions)
                &&& (new_state matches Some(s) ==> final(store).spec_get(q.from_id) == Some(s)
                    && (forall|other: i64|
                        other != q.from_id ==> final(store).spec_get(other) == old(
                            store,
                        ).spec_get(other)))
                &&& (new_state is None ==> (forall|id: i64|
                    final(store).spec_get(id) == old(store).spec_get(id)))
            })
            &&& (step matches DispatchModel::NeedMessages { owner } ==> {
                &&& (r matches CallbackOutcome::NeedMessages { owner: o } && o as int == owner)
                &&& (forall|id: i64| final(store).spec_get(id) == old(store).spec_get(id))
            })
            &&& (step is Ignored ==> r is Ignored && (forall|id: i64|
                final(store).spec_get(id) == old(store).spec_get(id)))
            &&& (step matches DispatchModel::Done { new_state: Some(s), .. } ==> state_wf(s))
        }),
{
    proof {
        lemma_step_preserves_wf(
            factory.spec_entries(),
            q@,
            old(store).spec_state(q.from_id),
            match fetched {
                Some(ref v) => Some(models_of(v@)),
                None => None,
            },
        );
    }
    let data_ref = match &q.data {
        Some(d) => d,
        None => {
            return CallbackOutcome::Ignored;
        },
    };
    let handler = match factory.resolve(data_ref.as_str()) {
        Some(h) => h,
        None => {
            return CallbackOutcome::Ignored;
        },
    };
    let state = store.get(q.from_id);
    let d = match handler {
        HandlerKind::FaqSend => FaqSend.handle(q),
        HandlerKind::Q1 => Q1.handle(),
        HandlerKind::BackToMenu => BackToMenu.handle(q),
        HandlerKind::MyRequests => MyRequests.handle(),
        HandlerKind::AllMessages => AllMessages.handle(q, data_ref, &state, fetched),
        HandlerKind::MessageHandler => MessageHandler.handle(data_ref, &state),
        HandlerKind::BackToPageHandler => BackToPageHandler.handle(q, data_ref, &state, fetched),
    };
    match d {
        Dispatch::Done { new_state, actions } => {
            match new_state {
                Some(s) => {
                    store.replace(q.from_id, s);
                },
                None => {},
            }
            CallbackOutcome::Acted { actions }
        },
        Dispatch::NeedMessages { owner } => CallbackOutcome::NeedMessages { owner },
        Dispatch::Ignored => CallbackOutcome::Ignored,
    }
}

/// Every state a callback decision stores satisfies the state-machine
/// invariant: a list view's page always lies within `[0, totalPages - 1]`
/// for its own snapshot.
pub proof fn lemma_step_preserves_wf(
    entries: Seq<(Seq<char>, HandlerKind)>,
    q: QueryModel,
    state: StateModel,
    fetched: Option<Seq<MessageModel>>,
)
    ensures
        spec_callback_step(entries, q, state, fetched) matches DispatchModel::Done {
            new_state: Some(s),
            ..
        } ==> state_wf(s),
{
    let step = spec_callback_step(entries, q, state, fetched);
    match step {
        DispatchModel::Done { new_state, .. } => match new_state {
            Some(s) => match s {
                StateModel::ViewingMessages { messages, current_page } => {
                    crate::pagination::lemma_effective_page_in_range(0, messages.len());
                    assert(spec_total_pages(messages.len()) >= 1);
                },
                _ => {},
            },
            None => {},
        },
        _ => {},
    }
}

/// Selecting a record and going back restores the same effective page:
/// from `ViewingMessages` at page `k`, a `msg_<id>` selection of a record
/// present in the snapshot followed by a `back_to_page_<k>` return on a
/// fresh snapshot of unchanged length lands on `ViewingMessages` at page
/// `k` again.
pub proof fn lemma_select_back_round_trip(
    messages: Seq<MessageModel>,
    k: int,
    id: Seq<char>,
    from: int,
    refetched: Seq<MessageModel>,
)
    requires
        state_wf(StateModel::ViewingMessages { messages, current_page: k }),
        spec_find_message(messages, id) is Some,
        refetched.len() == messages.len(),
    ensures
        ({
            let selected = spec_message_handler(
                "msg_"@ + id,
                StateModel::ViewingMessages { messages, current_page: k },
            );
            &&& selected matches DispatchModel::Done { new_state: Some(mid_state), .. }
            &&& mid_state matches StateModel::ViewingSingleMessage { back_page, .. }
                && back_page == k
            &&& spec_back_to_page(
                from,
                "back_to_page_"@ + spec_render_usize(k),
                mid_state,
                Some(refetched),
            ) matches DispatchModel::Done { new_state: Some(back_state), .. } && back_state
                == (StateModel::ViewingMessages { messages: refetched, current_page: k })
        }),
{
    let sel_data = "msg_"@ + id;
    reveal_strlit("msg_");
    assert(sel_data.subrange(0, 4) =~= "msg_"@);
    assert(spec_has_prefix(sel_data, "msg_"@));
    assert(sel_data.subrange(4, sel_data.len() as int) =~= id);
    let back_data = "back_to_page_"@ + spec_render_usize(k);
    reveal_strlit("back_to_page_");
    assert(back_data.subrange(0, 13) =~= "back_to_page_"@);
    assert(spec_has_prefix(back_data, "back_to_page_"@));
    assert(0 <= k < spec_total_pages(messages.len()));
    assert(spec_effective_page(k as nat, refetched.len()) == k);
}

} // verus!
