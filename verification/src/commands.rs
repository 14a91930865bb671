//! Slash commands: the fixed vocabulary, its parser, and the command
//! handler's decision.
//!
//! Commands only act in a private conversation — when the chat is not the
//! sender's own, the event is ignored.  Persistence and transport effects
//! are handed back as plain values for the caller to perform.
use crate::handlers::{Action, ActionModel};
use crate::keyboards::{faq, menu, spec_faq_kb, spec_menu_kb};
use crate::state::{State, StateModel};
use crate::text::{has_prefix, spec_has_prefix, str_eq, suffix_after};
use crate::texts::{faq_command_text, greeting_text, spec_faq_command_text, spec_greeting_text};
use vstd::prelude::*;
use vstd::string::*;

verus! {

/// Ghost model of a [`Commander`].
#[verifier::ext_equal]
pub enum CommanderModel {
    Help,
    Start,
    Send { text: Seq<char> },
    Faq,
}

/// The supported commands.
#[derive(Clone, Debug)]
pub enum Commander {
    Help,
    Start,
    Send(String),
    Faq,
}

impl View for Commander {
    type V = CommanderModel;

    open spec fn view(&self) -> CommanderModel {
        match self {
            Commander::Help => CommanderModel::Help,
            Commander::Start => CommanderModel::Start,
            Commander::Send(text) => CommanderModel::Send { text: text@ },
            Commander::Faq => CommanderModel::Faq,
        }
    }
}

/// Which command a message text spells, if any: one of the literal
/// commands, or `/send ` followed by the message to pass on.
pub open spec fn spec_parse_command(s: Seq<char>) -> Option<CommanderModel> {
    if s == "/help"@ {
        Some(CommanderModel::Help)
    } else if s == "/start"@ {
        Some(CommanderModel::Start)
    } else if s == "/faq"@ {
        Some(CommanderModel::Faq)
    } else if spec_has_prefix(s, "/send "@) {
        Some(CommanderModel::Send { text: s.subrange("/send "@.len() as int, s.len() as int) })
    } else {
        None
    }
}

/// Parse a message text as a command; `None` when it is a plain message.
pub fn parse_command(text: &str) -> (r: Option<Commander>)
    ensures
        match r {
            Some(c) => spec_parse_command(text@) == Some(c@),
            None => spec_parse_command(text@) is None,
        },
{
    if str_eq(text, "/help") {
        Some(Commander::Help)
    } else if str_eq(text, "/start") {
        Some(Commander::Start)
    } else if str_eq(text, "/faq") {
        Some(Commander::Faq)
    } else if has_prefix(text, "/send ") {
        proof {
            reveal_strlit("/send ");
        }
        let rest = suffix_after(text, 6);
        Some(Commander::Send(String::from_str(rest)))
    } else {
        None
    }
}

/// The `/help` summary of the command vocabulary.
pub open spec fn spec_descriptions_text() -> Seq<char> {
    "These commands are supported:\n/help — /faq - вам поможет\n/start — Запуск бота\n/send — Оставить сообщение администратору\n/faq — FAQ ℹ️ бота"@
}

pub fn descriptions_text() -> (r: String)
    ensures
        r@ == spec_descriptions_text(),
{
    String::from_str(
        "These commands are supported:\n/help — /faq - вам поможет\n/start — Запуск бота\n/send — Оставить сообщение администратору\n/faq — FAQ ℹ️ бота",
    )
}

/// Ghost model of a [`CommandOutcome`].
#[verifier::ext_equal]
pub enum CommandOutcomeModel {
    Ignored,
    Reply { new_state: Option<StateModel>, actions: Seq<ActionModel> },
    RegisterAndGreet { telegram_id: int, username: Option<Seq<char>>, greeting: ActionModel },
    SubmitMessage { text: Seq<char> },
}

/// What a command decides: nothing (wrong chat), a reply (and possibly a
/// state change), a user registration followed by the greeting, or a
/// message to store — the caller then confirms it with
/// [`crate::texts::confirmation_text`] under the stored record's number.
#[derive(Debug)]
pub enum CommandOutcome {
    Ignored,
    Reply { new_state: Option<State>, actions: Vec<Action> },
    RegisterAndGreet { telegram_id: i64, username: Option<String>, greeting: Action },
    SubmitMessage { text: String },
}

impl View for CommandOutcome {
    type V = CommandOutcomeModel;

    open spec fn view(&self) -> CommandOutcomeModel {
        match self {
            CommandOutcome::Ignored => CommandOutcomeModel::Ignored,
            CommandOutcome::Reply { new_state, actions } => CommandOutcomeModel::Reply {
                new_state: match new_state {
                    Some(s) => Some(s@),
                    None => None,
                },
                actions: crate::handlers::actions_of(actions@),
            },
            CommandOutcome::RegisterAndGreet { telegram_id, username, greeting } => {
                CommandOutcomeModel::RegisterAndGreet {
                    telegram_id: *telegram_id as int,
                    username: match username {
                        Some(u) => Some(u@),
                        None => None,
                    },
                    greeting: greeting@,
                }
            },
            CommandOutcome::SubmitMessage { text } => CommandOutcomeModel::SubmitMessage {
                text: text@,
            },
        }
    }
}

pub open spec fn spec_command_handler(
    chat_id: int,
    from_id: int,
    username: Option<Seq<char>>,
    first_name: Seq<char>,
    cmd: CommanderModel,
) -> CommandOutcomeModel {
    if chat_id != from_id {
        CommandOutcomeModel::Ignored
    } else {
        match cmd {
            CommanderModel::Help => CommandOutcomeModel::Reply {
                new_state: None,
                actions: seq![
                    ActionModel::SendText { text: spec_descriptions_text(), keyboard: None },
                ],
            },
            CommanderModel::Start => CommandOutcomeModel::RegisterAndGreet {
                telegram_id: chat_id,
                username,
                greeting: ActionModel::SendPhoto {
                    caption: spec_greeting_text(first_name),
                    keyboard: spec_menu_kb(),
                },
            },
            CommanderModel::Send { text } => CommandOutcomeModel::SubmitMessage { text },
            CommanderModel::Faq => CommandOutcomeModel::Reply {
                new_state: Some(StateModel::WaitQuestion),
                actions: seq![
                    ActionModel::SendText {
                        text: spec_faq_command_text(first_name),
                        keyboard: Some(spec_faq_kb()),
                    },
                ],
            },
        }
    }
}

/// Decide one command for the chat it arrived in.
pub fn command_handler(
    chat_id: i64,
    from_id: i64,
    username: Option<String>,
    first_name: &String,
    cmd: Commander,
) -> (r: CommandOutcome)
    ensures
        r@ == spec_command_handler(
            chat_id as int,
            from_id as int,
            match username {
                Some(ref u) => Some(u@),
                None => None,
            },
            first_name@,
            cmd@,
        ),
{
    let ghost uname = match username {
        Some(ref u) => Some(u@),
        None => None::<Seq<char>>,
    };
    if chat_id != from_id {
        return CommandOutcome::Ignored;
    }
    match cmd {
        Commander::Help => {
            let mut actions: Vec<Action> = Vec::new();
            actions.push(Action::SendText { text: descriptions_text(), keyboard: None });
            let r = CommandOutcome::Reply { new_state: None, actions };
            proof {
                assert(r@ =~~= spec_command_handler(
                    chat_id as int,
                    from_id as int,
                    uname,
                    first_name@,
                    CommanderModel::Help,
                ));
            }
            r
        },
        Commander::Start => CommandOutcome::RegisterAndGreet {
            telegram_id: chat_id,
            username,
            greeting: Action::SendPhoto {
                caption: greeting_text(first_name.as_str()),
                keyboard: menu(),
            },
        },
        Commander::Send(text) => CommandOutcome::SubmitMessage { text },
        Commander::Faq => {
            let mut actions: Vec<Action> = Vec::new();
            actions.push(
                Action::SendText {
                    text: faq_command_text(first_name.as_str()),
                    keyboard: Some(faq()),
                },
            );
            let r = CommandOutcome::Reply { new_state: Some(State::WaitQuestion), actions };
            proof {
                assert(r@ =~~= spec_command_handler(
                    chat_id as int,
                    from_id as int,
                    uname,
                    first_name@,
                    CommanderModel::Faq,
                ));
            }
            r
        },
    }
}

} // verus!
