//! Inline keyboards: rows of labelled controls, each carrying an opaque
//! callback payload.  The transport collaborator renders them; this module
//! only decides which controls exist, in what order, and with which
//! payloads — in particular the navigation row of the paginated list view.
use crate::numeric::spec_render_usize;
use crate::pagination::{
    effective_page, page_window, spec_effective_page, spec_total_pages, spec_window, total_pages,
};
use crate::records::{models_of, Message, MessageModel};
use crate::text::push_char;
use vstd::prelude::*;
use vstd::string::*;

verus! {

/// Ghost model of an [`InlineButton`].
#[verifier::ext_equal]
pub struct ButtonModel {
    pub label: Seq<char>,
    pub payload: Seq<char>,
}

/// One inline control: a visible label and the callback payload the
/// transport sends back when the control is activated.
#[derive(Debug)]
pub struct InlineButton {
    pub label: String,
    pub payload: String,
}

impl View for InlineButton {
    type V = ButtonModel;

    open spec fn view(&self) -> ButtonModel {
        ButtonModel { label: self.label@, payload: self.payload@ }
    }
}

/// Build one callback control.
pub fn callback_button(label: &str, payload: &str) -> (r: InlineButton)
    ensures
        r@ == (ButtonModel { label: label@, payload: payload@ }),
{
    InlineButton { label: String::from_str(label), payload: String::from_str(payload) }
}

pub open spec fn buttons_of(row: Seq<InlineButton>) -> Seq<ButtonModel> {
    row.map_values(|b: InlineButton| b@)
}

pub open spec fn rows_of(rows: Seq<Vec<InlineButton>>) -> Seq<Seq<ButtonModel>> {
    rows.map_values(|r: Vec<InlineButton>| buttons_of(r@))
}

/// An inline keyboard: an ordered list of rows of controls.
#[derive(Debug)]
pub struct Keyboard {
    pub rows: Vec<Vec<InlineButton>>,
}

impl View for Keyboard {
    type V = Seq<Seq<ButtonModel>>;

    open spec fn view(&self) -> Seq<Seq<ButtonModel>> {
        rows_of(self.rows@)
    }
}

pub open spec fn spec_button(label: Seq<char>, payload: Seq<char>) -> ButtonModel {
    ButtonModel { label, payload }
}

/// The main menu keyboard.
pub open spec fn spec_menu_kb() -> Seq<Seq<ButtonModel>> {
    seq![
        seq![
            spec_button("Обменник 🔁"@, "file_sharing"@),
            spec_button("Мои обращения 📖"@, "my_requests"@),
        ],
        seq![spec_button("⚙️"@, "settings"@), spec_button("FAQ ℹ️"@, "faq"@)],
    ]
}

pub fn menu() -> (r: Keyboard)
    ensures
        r@ == spec_menu_kb(),
{
    let file_sharing = callback_button("Обменник 🔁", "file_sharing");
    let my_requests = callback_button("Мои обращения 📖", "my_requests");
    let settings = callback_button("⚙️", "settings");
    let faq_btn = callback_button("FAQ ℹ️", "faq");
    let mut rows: Vec<Vec<InlineButton>> = Vec::new();
    let mut row1: Vec<InlineButton> = Vec::new();
    row1.push(file_sharing);
    row1.push(my_requests);
    rows.push(row1);
    let mut row2: Vec<InlineButton> = Vec::new();
    row2.push(settings);
    row2.push(faq_btn);
    rows.push(row2);
    let r = Keyboard { rows };
    proof {
        assert(r@ =~~= spec_menu_kb());
    }
    r
}

/// The FAQ keyboard: the one question, and a way back to the menu.
pub open spec fn spec_faq_kb() -> Seq<Seq<ButtonModel>> {
    seq![
        seq![spec_button("🤔 Чем полезен этот бот?"@, "profits"@)],
        seq![spec_button("⬅️"@, "back_to_menu"@)],
    ]
}

pub fn faq() -> (r: Keyboard)
    ensures
        r@ == spec_faq_kb(),
{
    let q1 = callback_button("🤔 Чем полезен этот бот?", "profits");
    let back = callback_button("⬅️", "back_to_menu");
    let mut rows: Vec<Vec<InlineButton>> = Vec::new();
    let mut row1: Vec<InlineButton> = Vec::new();
    row1.push(q1);
    rows.push(row1);
    let mut row2: Vec<InlineButton> = Vec::new();
    row2.push(back);
    rows.push(row2);
    let r = Keyboard { rows };
    proof {
        assert(r@ =~~= spec_faq_kb());
    }
    r
}

/// Yes/no feedback controls under an assistant answer.
pub open spec fn spec_feedback_ai_kb() -> Seq<Seq<ButtonModel>> {
    seq![
        seq![spec_button("✅"@, "fb_yes"@), spec_button("⛔"@, "fb_no"@)],
        seq![spec_button("⬅️"@, "back_to_faq"@)],
    ]
}

pub fn feedback_ai() -> (r: Keyboard)
    ensures
        r@ == spec_feedback_ai_kb(),
{
    let yes = callback_button("✅", "fb_yes");
    let no = callback_button("⛔", "fb_no");
    let back = callback_button("⬅️", "back_to_faq");
    let mut rows: Vec<Vec<InlineButton>> = Vec::new();
    let mut row1: Vec<InlineButton> = Vec::new();
    row1.push(yes);
    row1.push(no);
    rows.push(row1);
    let mut row2: Vec<InlineButton> = Vec::new();
    row2.push(back);
    rows.push(row2);
    let r = Keyboard { rows };
    proof {
        assert(r@ =~~= spec_feedback_ai_kb());
    }
    r
}

/// The single-question answer view: only a way back to the FAQ.
pub open spec fn spec_profits_kb() -> Seq<Seq<ButtonModel>> {
    seq![seq![spec_button("⬅️"@, "back_to_faq"@)]]
}

pub fn profits() -> (r: Keyboard)
    ensures
        r@ == spec_profits_kb(),
{
    let back = callback_button("⬅️", "back_to_faq");
    let mut rows: Vec<Vec<InlineButton>> = Vec::new();
    let mut row1: Vec<InlineButton> = Vec::new();
    row1.push(back);
    rows.push(row1);
    let r = Keyboard { rows };
    proof {
        assert(r@ =~~= spec_profits_kb());
    }
    r
}

/// The request-history entry keyboard.
pub open spec fn spec_history_kb() -> Seq<Seq<ButtonModel>> {
    seq![
        seq![spec_button("Все собщения"@, "all_requests"@)],
        seq![
            spec_button("С ответом"@, "answered_requests"@),
            spec_button("Принятые"@, "accepted_requests"@),
        ],
    ]
}

pub fn history() -> (r: Keyboard)
    ensures
        r@ == spec_history_kb(),
{
    let all = callback_button("Все собщения", "all_requests");
    let answered = callback_button("С ответом", "answered_requests");
    let accepted = callback_button("Принятые", "accepted_requests");
    let mut rows: Vec<Vec<InlineButton>> = Vec::new();
    let mut row1: Vec<InlineButton> = Vec::new();
    row1.push(all);
    rows.push(row1);
    let mut row2: Vec<InlineButton> = Vec::new();
    row2.push(answered);
    row2.push(accepted);
    rows.push(row2);
    let r = Keyboard { rows };
    proof {
        assert(r@ =~~= spec_history_kb());
    }
    r
}

/// Button label for one record: its text, cut to ten characters with a
/// trailing ellipsis when longer.
pub open spec fn spec_truncated_label(text: Seq<char>) -> Seq<char> {
    if text.len() > 10 {
        text.subrange(0, 10) + "..."@
    } else {
        text
    }
}

/// One row per visible record, carrying the `msg_<id>` payload.
pub open spec fn spec_message_rows(window: Seq<MessageModel>) -> Seq<Seq<ButtonModel>> {
    Seq::new(
        window.len(),
        |i: int| seq![spec_button(spec_truncated_label(window[i].text), "msg_"@ + window[i].id)],
    )
}

/// The navigation row: a "previous" control iff the page is not the first,
/// the inert `page + 1 / total` indicator, and a "next" control iff the
/// page is not the last.
pub open spec fn spec_nav_row(current_page: nat, total_pages: nat) -> Seq<ButtonModel> {
    let prev: Seq<ButtonModel> = if current_page > 0 {
        seq![spec_button("⬅️"@, "page_"@ + spec_render_usize(current_page - 1 as int))]
    } else {
        seq![]
    };
    let indicator = spec_button(
        spec_render_usize(current_page + 1 as int) + "/"@ + spec_render_usize(total_pages as int),
        "current_page"@,
    );
    let next: Seq<ButtonModel> = if current_page + 1 < total_pages {
        seq![spec_button("➡️"@, "page_"@ + spec_render_usize(current_page + 1 as int))]
    } else {
        seq![]
    };
    prev + seq![indicator] + next
}

/// The whole keyboard of the paginated list view: the visible window's
/// record rows, then — only when there is more than one page — the
/// navigation row.
pub open spec fn spec_all_messages_kb(msgs: Seq<MessageModel>, requested: nat) -> Seq<
    Seq<ButtonModel>,
> {
    let rows = spec_message_rows(spec_window(msgs, requested));
    if spec_total_pages(msgs.len()) > 1 {
        rows.push(spec_nav_row(spec_effective_page(requested, msgs.len()), spec_total_pages(msgs.len())))
    } else {
        rows
    }
}

/// Build the navigation row.
pub fn create_navigation_row(current_page: usize, total_pages: usize) -> (r: Vec<InlineButton>)
    requires
        1 <= total_pages,
        current_page < total_pages,
    ensures
        buttons_of(r@) == spec_nav_row(current_page as nat, total_pages as nat),
{
    let mut buttons: Vec<InlineButton> = Vec::new();
    if current_page > 0 {
        let mut payload = String::from_str("page_");
        payload.append(render_usize_str(current_page - 1).as_str());
        buttons.push(InlineButton { label: String::from_str("⬅️"), payload });
    }
    let mut indicator = render_usize_str(current_page + 1);
    push_char(&mut indicator, '/');
    indicator.append(render_usize_str(total_pages).as_str());
    buttons.push(InlineButton { label: indicator, payload: String::from_str("current_page") });
    if current_page < total_pages - 1 {
        let mut payload = String::from_str("page_");
        payload.append(render_usize_str(current_page + 1).as_str());
        buttons.push(InlineButton { label: String::from_str("➡️"), payload });
    }
    proof {
        assert("/"@ =~= seq!['/']) by {
            reveal_strlit("/");
        }
        assert(buttons_of(buttons@) =~~= spec_nav_row(current_page as nat, total_pages as nat));
    }
    buttons
}

/// Decimal rendering, as a `String`.
fn render_usize_str(n: usize) -> (r: String)
    ensures
        r@ == spec_render_usize(n as int),
{
    crate::numeric::render_usize(n)
}

/// Build the list-view keyboard for a snapshot and a requested page.
pub fn all_messages(messages: Vec<Message>, current_page: usize) -> (r: Keyboard)
    ensures
        r@ == spec_all_messages_kb(models_of(messages@), current_page as nat),
{
    let ghost msg_models = models_of(messages@);
    let total = total_pages(messages.len());
    let eff = effective_page(current_page, messages.len());
    let window = page_window(&messages, current_page);
    let mut rows: Vec<Vec<InlineButton>> = Vec::new();
    let mut i: usize = 0;
    while i < window.len()
        invariant
            i <= window@.len(),
            rows@.len() == i,
            models_of(window@) == spec_window(msg_models, current_page as nat),
            forall|j: int|
                0 <= j < i ==> buttons_of(rows@[j]@) == spec_message_rows(
                    models_of(window@),
                )[j],
        decreases window@.len() - i,
    {
        let m = &window[i];
        let label = truncated_label(&m.text);
        let mut payload = String::from_str("msg_");
        payload.append(m.id.as_str());
        let mut row: Vec<InlineButton> = Vec::new();
        row.push(InlineButton { label, payload });
        rows.push(row);
        proof {
            assert(buttons_of(rows@[i as int]@) =~= spec_message_rows(models_of(window@))[i as int]);
        }
        i += 1;
    }
    if total > 1 {
        let nav = create_navigation_row(eff, total);
        rows.push(nav);
    }
    let r = Keyboard { rows };
    proof {
        assert(r@ =~~= spec_all_messages_kb(msg_models, current_page as nat));
    }
    r
}

/// Cut a record text down to its button label.
fn truncated_label(text: &String) -> (r: String)
    ensures
        r@ == spec_truncated_label(text@),
{
    let len = text.as_str().unicode_len();
    if len > 10 {
        let head = text.as_str().substring_char(0, 10);
        let mut out = String::from_str(head);
        out.append("...");
        out
    } else {
        text.clone()
    }
}

/// Building the list keyboard twice from identical inputs yields the
/// identical window and navigation: the pagination engine is pure.
pub proof fn lemma_pagination_idempotent(
    a: Seq<MessageModel>,
    b: Seq<MessageModel>,
    p: nat,
    q: nat,
)
    requires
        a == b,
        p == q,
    ensures
        spec_window(a, p) == spec_window(b, q),
        spec_all_messages_kb(a, p) == spec_all_messages_kb(b, q),
{
}

} // verus!
