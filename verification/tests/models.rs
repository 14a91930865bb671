use axiobot::commands::{command_handler, parse_command, CommandOutcome, Commander};
use axiobot::error::BotError;
use axiobot::file_manager::FileManager;
use axiobot::handlers::Action;
use axiobot::mistral::{build_query_messages, first_choice, MistralResponse};
use axiobot::records::{check_role, MessageStatus, UserRole};
use axiobot::service::MyUserSevice;
use axiobot::state::State;
use axiobot::texts::message_details_text;
use axiobot::users::{add_user_status, AnswerRequest, AnswerStatus, Role, StatusCode, UserHistory};

#[test]
fn command_parsing() {
    assert!(matches!(parse_command("/help"), Some(Commander::Help)));
    assert!(matches!(parse_command("/start"), Some(Commander::Start)));
    assert!(matches!(parse_command("/faq"), Some(Commander::Faq)));
    match parse_command("/send hello world") {
        Some(Commander::Send(text)) => assert_eq!(text, "hello world"),
        _ => panic!("expected the send command"),
    }
    assert!(parse_command("/send").is_none());
    assert!(parse_command("hello").is_none());
    assert!(parse_command("").is_none());
}

#[test]
fn commands_outside_private_chats_are_ignored() {
    let r = command_handler(-100, 7, None, &String::from("Ann"), Commander::Help);
    assert!(matches!(r, CommandOutcome::Ignored));
}

#[test]
fn faq_command_waits_for_a_question() {
    let r = command_handler(7, 7, None, &String::from("Ann"), Commander::Faq);
    match r {
        CommandOutcome::Reply { new_state, actions } => {
            assert!(matches!(new_state, Some(State::WaitQuestion)));
            assert_eq!(actions.len(), 1);
        }
        _ => panic!("expected a reply"),
    }
}

#[test]
fn start_registers_and_greets() {
    let r = command_handler(
        7,
        7,
        Some(String::from("ann")),
        &String::from("Ann"),
        Commander::Start,
    );
    match r {
        CommandOutcome::RegisterAndGreet { telegram_id, username, greeting } => {
            assert_eq!(telegram_id, 7);
            assert_eq!(username.as_deref(), Some("ann"));
            assert!(matches!(greeting, Action::SendPhoto { .. }));
        }
        _ => panic!("expected a registration"),
    }
}

#[test]
fn send_hands_the_text_on() {
    let r = command_handler(
        7,
        7,
        None,
        &String::from("Ann"),
        Commander::Send(String::from("note")),
    );
    match r {
        CommandOutcome::SubmitMessage { text } => assert_eq!(text, "note"),
        _ => panic!("expected a submission"),
    }
}

#[test]
fn first_choice_errs_only_on_empty() {
    let empty: Vec<MistralResponse> = Vec::new();
    assert_eq!(first_choice(&empty), Err(String::from("No choices in the response")));
    let some = vec![
        MistralResponse { content: String::from("first") },
        MistralResponse { content: String::from("second") },
    ];
    assert_eq!(first_choice(&some), Ok(String::from("first")));
}

#[test]
fn query_messages_carry_the_question() {
    let msgs = build_query_messages("how?");
    assert_eq!(msgs.len(), 2);
    assert_eq!(msgs[0].role, "system");
    assert_eq!(msgs[1].role, "user");
    assert_eq!(msgs[1].content, "how?");
}

#[test]
fn error_messages_render() {
    assert_eq!(BotError::Unknown.message(), "unknown data store error");
    assert_eq!(
        BotError::Redaction(String::from("k")).message(),
        "the data for key `k` is not available"
    );
    assert_eq!(
        BotError::Disconnect(String::from("timed out")).message(),
        "data store disconnected"
    );
    assert_eq!(
        BotError::InvalidHeader {
            expected: String::from("a"),
            found: String::from("b")
        }
        .message(),
        "invalid header (expected \"a\", found \"b\")"
    );
    assert_eq!(
        BotError::UnvialabelFromData.message(),
        "None option while return message from data"
    );
}

#[test]
fn status_texts_render() {
    assert_eq!(MessageStatus::Pending.status_text(), "Ожидает рассмотрения");
    assert_eq!(MessageStatus::Accepted.status_text(), "Принято в работу");
    assert_eq!(MessageStatus::Answered.status_text(), "Ответ дан");
    assert_eq!(Role::DEFAULT.role_name(), "DEFAULT");
    assert_eq!(Role::ADMIN.role_name(), "ADMIN");
}

#[test]
fn message_details_escape_fields() {
    let m = axiobot::records::Message {
        id: String::from("u-1"),
        telegram_id: 7,
        text: String::from("hi!"),
        status: MessageStatus::Pending,
        answer: None,
        created_at: String::from("2024-01-01"),
        updated_at: String::from("2024-01-01"),
    };
    let text = message_details_text(&m);
    assert!(text.starts_with("**Сообщение:**\nhi\\!"));
    assert!(text.contains("*UID:* `u\\-1`"));
    assert!(text.contains("2024\\-01\\-01"));
}

#[test]
fn new_answer_requests_start_accepted() {
    let r = AnswerRequest::new(7, String::from("text"), String::from("oid"), 123);
    assert_eq!(r.status, AnswerStatus::ACCEPTED);
    assert_eq!(r.telegram_id, 7);
    assert_eq!(r.timestamp, 123);
}

#[test]
fn new_histories_hold_the_system_prompt() {
    let h = UserHistory::new(7, String::from("be kind"), String::from("oid"), 5);
    assert_eq!(h.messages.len(), 1);
    assert_eq!(h.messages[0].role, "system");
    assert_eq!(h.messages[0].content, "be kind");
}

#[test]
fn user_insertion_status() {
    assert!(matches!(add_user_status(true, None), StatusCode::Exist));
    assert!(matches!(
        add_user_status(true, Some(String::from("x"))),
        StatusCode::Exist
    ));
    match add_user_status(false, Some(String::from("oid"))) {
        StatusCode::UserId(id) => assert_eq!(id, "oid"),
        _ => panic!("expected the created identifier"),
    }
    assert!(matches!(add_user_status(false, None), StatusCode::ObjectIdError));
}

#[test]
fn the_stub_service_lists_two_users() {
    let users = MyUserSevice::default().get_all_users();
    assert_eq!(users.len(), 2);
    assert_eq!(users[0].name, "Alice");
    assert_eq!(users[1].email, "bob@example.com");
}

#[test]
fn share_links_round_trip() {
    let mut fm = FileManager::new();
    let link = fm
        .generate_share_link(
            7,
            String::from("/data/7/a.txt"),
            String::from("a.txt"),
            String::from("tok"),
            true,
        )
        .unwrap();
    assert_eq!(link, "https://yourdomain.com/share/ tok");
    assert_eq!(
        fm.handle_shared_link("tok"),
        Ok(String::from("Файл от пользователя 7"))
    );
    assert_eq!(
        fm.handle_shared_link("other"),
        Err(String::from("Ссылка недействительна или истекло время действия"))
    );
    fm.cleanup_expired_links();
    assert!(fm.handle_shared_link("tok").is_ok());
}

#[test]
fn missing_files_are_not_shared() {
    let mut fm = FileManager::new();
    let r = fm.generate_share_link(
        7,
        String::from("/data/7/a.txt"),
        String::from("a.txt"),
        String::from("tok"),
        false,
    );
    assert_eq!(r, Err(String::from("File not found")));
    assert!(fm.handle_shared_link("tok").is_err());
}

#[test]
fn role_checks_surface_missing_accounts() {
    assert_eq!(check_role(Some(UserRole::Admin), UserRole::Admin), Some(true));
    assert_eq!(check_role(Some(UserRole::Default), UserRole::Admin), Some(false));
    assert_eq!(check_role(None, UserRole::Admin), None);
}
