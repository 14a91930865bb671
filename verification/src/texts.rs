//! The texts the engine sends, and the MarkdownV2 escaping they need.
//!
//! Escaping prefixes every character Telegram's MarkdownV2 treats as markup
//! with a backslash; everything interpolated from untrusted or stored data
//! runs through it.
use crate::records::{Message, MessageModel};
use crate::text::push_char;
use vstd::prelude::*;
use vstd::string::*;

verus! {

/// Characters MarkdownV2 treats as markup.
pub open spec fn is_md_special(c: char) -> bool {
    ||| c == '_'
    ||| c == '*'
    ||| c == '['
    ||| c == ']'
    ||| c == '('
    ||| c == ')'
    ||| c == '~'
    ||| c == '`'
    ||| c == '>'
    ||| c == '#'
    ||| c == '+'
    ||| c == '-'
    ||| c == '='
    ||| c == '|'
    ||| c == '{'
    ||| c == '}'
    ||| c == '.'
    ||| c == '!'
}

pub open spec fn spec_escape_char(c: char) -> Seq<char> {
    if is_md_special(c) {
        seq!['\\', c]
    } else {
        seq![c]
    }
}

/// The escaped form of a text: each character, markup ones behind `\`.
pub open spec fn spec_escape(s: Seq<char>) -> Seq<char>
    decreases s.len(),
{
    if s.len() == 0 {
        Seq::empty()
    } else {
        spec_escape(s.drop_last()) + spec_escape_char(s.last())
    }
}

fn is_md_special_exec(c: char) -> (r: bool)
    ensures
        r == is_md_special(c),
{
    c == '_' || c == '*' || c == '[' || c == ']' || c == '(' || c == ')' || c == '~' || c == '`'
        || c == '>' || c == '#' || c == '+' || c == '-' || c == '=' || c == '|' || c == '{'
        || c == '}' || c == '.' || c == '!'
}

/// Escape a text for MarkdownV2.
pub fn escape_markdown(s: &str) -> (r: String)
    ensures
        r@ == spec_escape(s@),
{
    let len = s.unicode_len();
    let mut out = String::new();
    let mut i: usize = 0;
    while i < len
        invariant
            i <= len,
            len == s@.len(),
            out@ == spec_escape(s@.subrange(0, i as int)),
        decreases len - i,
    {
        let c = s.get_char(i);
        if is_md_special_exec(c) {
            push_char(&mut out, '\\');
        }
        push_char(&mut out, c);
        proof {
            let pre = s@.subrange(0, i + 1);
            assert(pre.drop_last() =~= s@.subrange(0, i as int));
            assert(pre.last() == s@[i as int]);
        }
        i += 1;
    }
    proof {
        assert(s@.subrange(0, len as int) =~= s@);
    }
    out
}

/// The greeting caption: the user's name, escaped, then the project blurb.
pub open spec fn spec_greeting_text(first_name: Seq<char>) -> Seq<char> {
    "*"@ + spec_escape(first_name)
        + "* привет\nМы команда разработчиков *Axiowel*, занимаемся разработкой эффективного и отказоустойчевого программного обеспечения основоного на ИИ модели *Axiowel AI*\n\nНаш бот достататочно функционален, можете подробнее узнать в /faq"@
}

pub fn greeting_text(first_name: &str) -> (r: String)
    ensures
        r@ == spec_greeting_text(first_name@),
{
    let mut out = String::from_str("*");
    out.append(escape_markdown(first_name).as_str());
    out.append(
        "* привет\nМы команда разработчиков *Axiowel*, занимаемся разработкой эффективного и отказоустойчевого программного обеспечения основоного на ИИ модели *Axiowel AI*\n\nНаш бот достататочно функционален, можете подробнее узнать в /faq",
    );
    out
}

/// The escaped name followed by one space, or nothing when the name is
/// empty.
pub open spec fn spec_name_part(first_name: Seq<char>) -> Seq<char> {
    if spec_escape(first_name).len() > 0 {
        spec_escape(first_name) + " "@
    } else {
        spec_escape(first_name)
    }
}

fn name_part(first_name: &str) -> (r: String)
    ensures
        r@ == spec_name_part(first_name@),
{
    let mut escaped = escape_markdown(first_name);
    if escaped.as_str().unicode_len() > 0 {
        push_char(&mut escaped, ' ');
        proof {
            assert(escaped@ =~= spec_name_part(first_name@)) by {
                assert(" "@ =~= seq![' ']) by {
                    reveal_strlit(" ");
                }
            }
        }
    }
    escaped
}

/// The FAQ text shown when the FAQ is opened from a callback control.
pub open spec fn spec_faq_send_text(first_name: Seq<char>) -> Seq<char> {
    "*FAQ ℹ️*\n\n*"@ + spec_name_part(first_name)
        + "*Если вы не нашли ответ на свой вопрос 🫥, то можете написать прямо сюда в чат 💭 и наш помощник 🤖 поможет ответить на ваш вопрос 😊"@
}

pub fn faq_send_text(first_name: &str) -> (r: String)
    ensures
        r@ == spec_faq_send_text(first_name@),
{
    let mut out = String::from_str("*FAQ ℹ️*\n\n*");
    out.append(name_part(first_name).as_str());
    out.append(
        "*Если вы не нашли ответ на свой вопрос 🫥, то можете написать прямо сюда в чат 💭 и наш помощник 🤖 поможет ответить на ваш вопрос 😊",
    );
    out
}

/// The FAQ text shown for the slash command.
pub open spec fn spec_faq_command_text(first_name: Seq<char>) -> Seq<char> {
    "*FAQ ℹ️*\n\n*"@ + spec_name_part(first_name)
        + "*Если вы не нашли ответ на свой вопрос, то можете написать прямо сюда в чат 💭 и *Axiobot* 🤖 поможет ответить на ваш вопрос 😊"@
}

pub fn faq_command_text(first_name: &str) -> (r: String)
    ensures
        r@ == spec_faq_command_text(first_name@),
{
    let mut out = String::from_str("*FAQ ℹ️*\n\n*");
    out.append(name_part(first_name).as_str());
    out.append(
        "*Если вы не нашли ответ на свой вопрос, то можете написать прямо сюда в чат 💭 и *Axiobot* 🤖 поможет ответить на ваш вопрос 😊",
    );
    out
}

/// The one stocked FAQ answer.
pub open spec fn spec_q1_text() -> Seq<char> {
    "*🤔 Чем полезен этот бот?*\n"@ + spec_escape("Да всем..."@)
}

pub fn q1_text() -> (r: String)
    ensures
        r@ == spec_q1_text(),
{
    let mut out = String::from_str("*🤔 Чем полезен этот бот?*\n");
    out.append(escape_markdown("Да всем...").as_str());
    out
}

/// Prompt above the request-history keyboard.
pub open spec fn spec_choose_text() -> Seq<char> {
    "*Выберете:*"@
}

pub fn choose_text() -> (r: String)
    ensures
        r@ == spec_choose_text(),
{
    String::from_str("*Выберете:*")
}

/// The single-record view: text, identifier, submission time and status,
/// each escaped.
pub open spec fn spec_message_details_text(m: MessageModel) -> Seq<char> {
    "**Сообщение:**\n"@ + spec_escape(m.text) + "\n*UID:* `"@ + spec_escape(m.id)
        + "`\n*Время обращения:* "@ + spec_escape(m.created_at) + "\n*Статус:* "@ + spec_escape(
        m.status.spec_text(),
    )
}

pub fn message_details_text(m: &Message) -> (r: String)
    ensures
        r@ == spec_message_details_text(m@),
{
    let mut out = String::from_str("**Сообщение:**\n");
    out.append(escape_markdown(m.text.as_str()).as_str());
    out.append("\n*UID:* `");
    out.append(escape_markdown(m.id.as_str()).as_str());
    out.append("`\n*Время обращения:* ");
    out.append(escape_markdown(m.created_at.as_str()).as_str());
    out.append("\n*Статус:* ");
    out.append(escape_markdown(m.status.status_text()).as_str());
    out
}

/// Interim notification while the compute collaborator is working.
pub open spec fn spec_thinking_text() -> Seq<char> {
    "*Qortex AI*\n_Думаю над ответом\\.\\.\\._"@
}

pub fn thinking_text() -> (r: String)
    ensures
        r@ == spec_thinking_text(),
{
    String::from_str("*Qortex AI*\n_Думаю над ответом\\.\\.\\._")
}

/// Confirmation for a stored request, quoting its unique number.
pub open spec fn spec_confirmation_text(uuid: Seq<char>) -> Seq<char> {
    "Сообщение с уникальным номером: `"@ + spec_escape(uuid)
        + "` отправлено, ожидвйте ответа\\!"@
}

pub fn confirmation_text(uuid: &str) -> (r: String)
    ensures
        r@ == spec_confirmation_text(uuid@),
{
    let mut out = String::from_str("Сообщение с уникальным номером: `");
    out.append(escape_markdown(uuid).as_str());
    out.append("` отправлено, ожидвйте ответа\\!");
    out
}

} // verus!
