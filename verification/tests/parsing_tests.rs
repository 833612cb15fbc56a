use chatbot_core::escape::escape_markdown_v2_reversed_chars;
use chatbot_core::options::{get_lang_and_text, parse_name_and_persona, split_options_and_body};
use chatbot_core::router::{classify, Command};
use chatbot_core::text::u64_to_string;

#[test]
fn option_flag_with_value() {
    let (lang, text) = split_options_and_body(
        "-len hello world".to_string(),
        "Chinese".to_string(),
        'l',
    );
    assert_eq!(lang, "en");
    assert_eq!(text, "hello world");
}

#[test]
fn option_flag_absent_uses_default() {
    let (lang, text) =
        split_options_and_body("hello world".to_string(), "Chinese".to_string(), 'l');
    assert_eq!(lang, "Chinese");
    assert_eq!(text, "hello world");
}

#[test]
fn option_flag_single_token_is_payload() {
    let (lang, text) = split_options_and_body("-l".to_string(), "Chinese".to_string(), 'l');
    assert_eq!(lang, "Chinese");
    assert_eq!(text, "-l");
}

#[test]
fn option_flag_empty_value_uses_default() {
    let (lang, text) = split_options_and_body("-l hello".to_string(), "Chinese".to_string(), 'l');
    assert_eq!(lang, "Chinese");
    assert_eq!(text, "hello");
}

#[test]
fn lang_and_text_defaults_to_english() {
    let (lang, text) = get_lang_and_text("hi there".to_string());
    assert_eq!(lang, "english");
    assert_eq!(text, "hi there");
    let (lang, text) = get_lang_and_text("-lfr bonjour le monde".to_string());
    assert_eq!(lang, "fr");
    assert_eq!(text, "bonjour le monde");
}

#[test]
fn name_persona_splits_on_first_colon() {
    let p = parse_name_and_persona("Tutor:You are a tutor: be kind").unwrap();
    assert_eq!(p.0, "Tutor");
    assert_eq!(p.1, "You are a tutor: be kind");
    assert!(parse_name_and_persona("no colon here").is_none());
}

#[test]
fn escape_marks_every_reserved_char() {
    let out = escape_markdown_v2_reversed_chars("[]()~>#+-=|{}.!abc");
    assert_eq!(out, "\\[\\]\\(\\)\\~\\>\\#\\+\\-\\=\\|\\{\\}\\.\\!abc");
    assert_eq!(escape_markdown_v2_reversed_chars("plain"), "plain");
    assert_eq!(escape_markdown_v2_reversed_chars(""), "");
}

#[test]
fn decimal_rendering() {
    assert_eq!(u64_to_string(0), "0");
    assert_eq!(u64_to_string(7), "7");
    assert_eq!(u64_to_string(42), "42");
    assert_eq!(u64_to_string(1000), "1000");
    assert_eq!(u64_to_string(u64::MAX), "18446744073709551615");
}

#[test]
fn classify_recognizes_commands() {
    assert!(matches!(classify("/test"), Some(Command::Test)));
    assert!(matches!(classify("/clear"), Some(Command::Clear)));
    assert!(matches!(classify("/list-roles"), Some(Command::ListRoles)));
    match classify("/switch-role Tutor") {
        Some(Command::SwitchRole { args }) => assert_eq!(args, "Tutor"),
        _ => panic!("expected a switch-role command"),
    }
    match classify("/translate -len hello world") {
        Some(Command::Translate { args }) => assert_eq!(args, "-len hello world"),
        _ => panic!("expected a translate command"),
    }
    match classify("/new-role") {
        Some(Command::NewRole { args }) => assert_eq!(args, ""),
        _ => panic!("expected a new-role command"),
    }
}

#[test]
fn classify_treats_everything_else_as_free_text() {
    assert!(classify("hello there").is_none());
    assert!(classify("").is_none());
    assert!(classify("/unknown-command x").is_none());
    assert!(classify("test").is_none());
}
