use axiobot::numeric::{parse_usize, render_i64, render_usize};
use axiobot::router::{CallbackHandlerFactory, HandlerKind};
use axiobot::texts::{confirmation_text, escape_markdown};

#[test]
fn prefix_families_resolve_first() {
    let factory = CallbackHandlerFactory::new();
    // prefix families take precedence over exact lookup
    assert_eq!(factory.resolve("page_3"), Some(HandlerKind::AllMessages));
    assert_eq!(factory.resolve("page_"), Some(HandlerKind::AllMessages));
    assert_eq!(factory.resolve("msg_abc"), Some(HandlerKind::MessageHandler));
    assert_eq!(
        factory.resolve("back_to_page_0"),
        Some(HandlerKind::BackToPageHandler)
    );
}

#[test]
fn exact_tokens_resolve() {
    let factory = CallbackHandlerFactory::new();
    assert_eq!(factory.resolve("faq"), Some(HandlerKind::FaqSend));
    assert_eq!(factory.resolve("back_to_faq"), Some(HandlerKind::FaqSend));
    assert_eq!(factory.resolve("profits"), Some(HandlerKind::Q1));
    assert_eq!(factory.resolve("all_requests"), Some(HandlerKind::AllMessages));
    assert_eq!(factory.resolve("my_requests"), Some(HandlerKind::MyRequests));
    assert_eq!(factory.resolve("back_to_menu"), Some(HandlerKind::BackToMenu));
}

#[test]
fn unknown_payloads_resolve_to_nothing() {
    let factory = CallbackHandlerFactory::new();
    assert_eq!(factory.resolve("settings"), None);
    // the page indicator is inert: its payload resolves to no handler
    assert_eq!(factory.resolve("current_page"), None);
    assert_eq!(factory.resolve(""), None);
    assert_eq!(factory.resolve("pag e_3"), None);
}

#[test]
fn exact_lookup_alone_skips_prefixes() {
    let factory = CallbackHandlerFactory::new();
    assert_eq!(factory.get_handler("page_3"), None);
    assert_eq!(factory.get_handler("msg_"), Some(HandlerKind::MessageHandler));
    assert_eq!(factory.get_handler("faq"), Some(HandlerKind::FaqSend));
}

#[test]
fn page_numbers_parse_like_std() {
    assert_eq!(parse_usize("0"), Some(0));
    assert_eq!(parse_usize("37"), Some(37));
    assert_eq!(parse_usize("+3"), Some(3));
    assert_eq!(parse_usize(""), None);
    assert_eq!(parse_usize("+"), None);
    assert_eq!(parse_usize("12a"), None);
    assert_eq!(parse_usize("-1"), None);
    assert_eq!(parse_usize("99999999999999999999999999"), None);
    assert_eq!("37".parse::<usize>().ok(), parse_usize("37"));
    assert_eq!("+3".parse::<usize>().ok(), parse_usize("+3"));
    assert_eq!("".parse::<usize>().ok(), parse_usize(""));
}

#[test]
fn page_numbers_render_in_decimal() {
    assert_eq!(render_usize(0), "0");
    assert_eq!(render_usize(7), "7");
    assert_eq!(render_usize(37), "37");
    assert_eq!(render_usize(1000), "1000");
    assert_eq!(render_i64(-42), "-42");
    assert_eq!(render_i64(42), "42");
}

#[test]
fn render_parse_round_trip() {
    for n in [0usize, 1, 9, 10, 99, 12345] {
        assert_eq!(parse_usize(&render_usize(n)), Some(n));
    }
}

#[test]
fn markdown_escaping() {
    assert_eq!(escape_markdown("a.b!c"), "a\\.b\\!c");
    assert_eq!(escape_markdown("plain"), "plain");
    assert_eq!(escape_markdown("(x)_*"), "\\(x\\)\\_\\*");
    assert_eq!(escape_markdown(""), "");
}

#[test]
fn confirmation_quotes_the_number() {
    assert_eq!(
        confirmation_text("abc"),
        "Сообщение с уникальным номером: `abc` отправлено, ожидвйте ответа\\!"
    );
}
