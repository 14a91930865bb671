//! The async request correlator.
//!
//! A submission immediately yields an interim "processing" notification,
//! a single-use pending correlation, and the request for the external
//! compute collaborator.  The caller runs the slow call however it likes;
//! whatever comes back — a result, an application error, or nothing at all
//! (closed channel, transport failure) — is classified into a terminal
//! [`Outcome`] and handed to [`PendingCorrelation::complete`], which
//! produces the follow-up action for the originating conversation exactly
//! once: completing an already-consumed correlation yields nothing.
//!
//! The correlator itself performs no retries and promises no ordering
//! across concurrent submissions.
use crate::handlers::{Action, ActionModel};
use crate::texts::{spec_thinking_text, thinking_text};
use vstd::prelude::*;
use vstd::string::*;

verus! {

/// Ghost model of a [`PendingCorrelation`].
#[verifier::ext_equal]
pub struct CorrelationModel {
    pub destination: int,
    pub consumed: bool,
}

/// One in-flight submission: the conversation the outcome belongs to, and
/// whether the single-use completion has already been consumed.
#[derive(Debug)]
pub struct PendingCorrelation {
    destination: i64,
    consumed: bool,
}

impl View for PendingCorrelation {
    type V = CorrelationModel;

    closed spec fn view(&self) -> CorrelationModel {
        CorrelationModel { destination: self.destination as int, consumed: self.consumed }
    }
}

/// Ghost model of an [`Outcome`].
#[verifier::ext_equal]
pub enum OutcomeModel {
    Success { text: Seq<char> },
    Failure { error: Seq<char> },
    ChannelClosed,
}

/// A terminal outcome of one submission: the generated text, a propagated
/// application error, or the communication-failure sentinel.
#[derive(Debug)]
pub enum Outcome {
    Success { text: String },
    Failure { error: String },
    ChannelClosed,
}

impl View for Outcome {
    type V = OutcomeModel;

    open spec fn view(&self) -> OutcomeModel {
        match self {
            Outcome::Success { text } => OutcomeModel::Success { text: text@ },
            Outcome::Failure { error } => OutcomeModel::Failure { error: error@ },
            Outcome::ChannelClosed => OutcomeModel::ChannelClosed,
        }
    }
}

/// What the caller received from the compute call, as a plain value:
/// `None` when the completion channel closed without an answer.
pub fn classify_outcome(received: Option<Result<String, String>>) -> (r: Outcome)
    ensures
        r@ == match received {
            Some(Ok(ref t)) => OutcomeModel::Success { text: t@ },
            Some(Err(ref e)) => OutcomeModel::Failure { error: e@ },
            None => OutcomeModel::ChannelClosed,
        },
{
    match received {
        Some(Ok(t)) => Outcome::Success { text: t },
        Some(Err(e)) => Outcome::Failure { error: e },
        None => Outcome::ChannelClosed,
    }
}

/// The text of the follow-up the conversation receives.
pub open spec fn spec_follow_up_text(o: OutcomeModel) -> Seq<char> {
    match o {
        OutcomeModel::Success { text } => text,
        OutcomeModel::Failure { error } => error,
        OutcomeModel::ChannelClosed => "Ошибка связи с сервером"@,
    }
}

fn follow_up_text(outcome: Outcome) -> (r: String)
    ensures
        r@ == spec_follow_up_text(outcome@),
{
    match outcome {
        Outcome::Success { text } => text,
        Outcome::Failure { error } => error,
        Outcome::ChannelClosed => String::from_str("Ошибка связи с сервером"),
    }
}

/// Consuming a correlation: nothing happens to one already consumed; a
/// fresh one is marked consumed and yields the follow-up text.
pub open spec fn spec_complete(c: CorrelationModel, text: Seq<char>) -> (
    CorrelationModel,
    Option<Seq<char>>,
) {
    if c.consumed {
        (c, None)
    } else {
        (CorrelationModel { destination: c.destination, consumed: true }, Some(text))
    }
}

impl PendingCorrelation {
    /// A fresh, unconsumed correlation for one conversation.
    pub fn new(destination: i64) -> (r: Self)
        ensures
            r@ == (CorrelationModel { destination: destination as int, consumed: false }),
    {
        PendingCorrelation { destination, consumed: false }
    }

    /// Deliver a terminal outcome.  Exactly once per correlation: the
    /// first call yields the follow-up action for the destination
    /// conversation, every later call yields nothing and changes nothing.
    pub fn complete(&mut self, outcome: Outcome) -> (r: Option<Action>)
        ensures
            ({
                let (c, text) = spec_complete(old(self)@, spec_follow_up_text(outcome@));
                &&& final(self)@ == c
                &&& match text {
                    Some(t) => r matches Some(a) && a@ == (ActionModel::SendText {
                        text: t,
                        keyboard: None,
                    }),
                    None => r is None,
                }
            }),
    {
        if self.consumed {
            None
        } else {
            self.consumed = true;
            Some(Action::SendText { text: follow_up_text(outcome), keyboard: None })
        }
    }
}

/// The instruction text sent to the compute collaborator with every
/// request.
pub open spec fn spec_compute_system_prompt() -> Seq<char> {
    "\nТы — ассистент, который отвечает в plain-тексте. Соблюдай правила:\n1. **Запрещено любое форматирование**:\n   - Никаких Markdown, HTML, LaTeX.\n   - Никаких ```code blocks```, `inline_code`, > цитат.\n   - Никаких *курсива*, **жирного**, ~зачёркивания~.\n   - Никаких таблиц, списков с пунктами (1., - [x] и т.д.).\n2. **Разрешено только**:\n   - Пустые строки для разделения логических блоков.\n   - Эмодзи (например, ✅, 🔥, ❗) для акцента.\n   - Специальные символы\n3. **Если просят оформить текст**:\n   - Попробуй найти обходной путь, форматируй по инструкции.\n   - Вежливо откажи, если через чур сильно простя отформатировать: \"Извините, я работаю только с plain-текстом\".\n4. Если пользователь просит написать, сгенерировать, обхяснить как что-то написать на каком-то языке, то вежливо откажи.\n6. Если ты понимаешь, что без форматирования не сможешь, то не надо писать пользователю по типу \"Извините, я работаю только с plaun-текстом\". Найти обходной путь, используй спец символы.\n7. **Пример корректного ответа**:\n   \"Сегодня солнечно ☀️  \n   \n   Рекомендую прогулку в парк.  \n   Не забудьте воду 💧\n            "@
}

/// One request for the external compute collaborator.  The numeric
/// sampling parameters are the transport's concern and are attached at
/// the edge.
#[derive(Debug)]
pub struct ComputeRequest {
    pub system_prompt: String,
    pub user_prompt: String,
}

/// Accept one submission: the interim notification for the conversation,
/// the single-use correlation, and the compute request, all at once and
/// without blocking.
pub fn submit(conversation: i64, question: String) -> (r: (Action, PendingCorrelation, ComputeRequest))
    ensures
        r.0@ == (ActionModel::SendText { text: spec_thinking_text(), keyboard: None }),
        r.1@ == (CorrelationModel { destination: conversation as int, consumed: false }),
        r.2.system_prompt@ == spec_compute_system_prompt(),
        r.2.user_prompt@ == question@,
{
    let ghost q = question@;
    let interim = Action::SendText { text: thinking_text(), keyboard: None };
    let pending = PendingCorrelation::new(conversation);
    let request = ComputeRequest {
        system_prompt: String::from_str(
            "\nТы — ассистент, который отвечает в plain-тексте. Соблюдай правила:\n1. **Запрещено любое форматирование**:\n   - Никаких Markdown, HTML, LaTeX.\n   - Никаких ```code blocks```, `inline_code`, > цитат.\n   - Никаких *курсива*, **жирного**, ~зачёркивания~.\n   - Никаких таблиц, списков с пунктами (1., - [x] и т.д.).\n2. **Разрешено только**:\n   - Пустые строки для разделения логических блоков.\n   - Эмодзи (например, ✅, 🔥, ❗) для акцента.\n   - Специальные символы\n3. **Если просят оформить текст**:\n   - Попробуй найти обходной путь, форматируй по инструкции.\n   - Вежливо откажи, если через чур сильно простя отформатировать: \"Извините, я работаю только с plain-текстом\".\n4. Если пользователь просит написать, сгенерировать, обхяснить как что-то написать на каком-то языке, то вежливо откажи.\n6. Если ты понимаешь, что без форматирования не сможешь, то не надо писать пользователю по типу \"Извините, я работаю только с plaun-текстом\". Найти обходной путь, используй спец символы.\n7. **Пример корректного ответа**:\n   \"Сегодня солнечно ☀️  \n   \n   Рекомендую прогулку в парк.  \n   Не забудьте воду 💧\n            ",
        ),
        user_prompt: question,
    };
    (interim, pending, request)
}

/// Each submission produces exactly one terminal follow-up: the first
/// completion of a fresh correlation yields it, and any completion after
/// that — whatever outcome it carries — yields nothing.
pub proof fn lemma_exactly_one_outcome(c: CorrelationModel, t1: Seq<char>, t2: Seq<char>)
    requires
        !c.consumed,
    ensures
        ({
            let (c1, r1) = spec_complete(c, t1);
            let (c2, r2) = spec_complete(c1, t2);
            &&& r1 == Some(t1)
            &&& r2 is None
            &&& c2 == c1
            &&& c1.destination == c.destination
        }),
{
}

} // verus!
