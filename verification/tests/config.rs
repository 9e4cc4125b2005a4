use mabel::config::{
    color_choice_from_string, is_color_output_disabled, is_color_output_force_enabled,
    ColorChoice, Config, GlobalConfig, InnerConfig, InterpreterModeConfig,
};
use mabel::error::{io_error_kind_to_string, io_error_to_string, Error, ErrorKind, IoErrorKind};
use mabel::common::ExitCode;
use mabel::locale::{locale_from_lang, locale_from_name, SupportedLocale};
use mabel::message::{Message, MessageArg, MessageValue};

#[test]
fn test_color_choice_from_string() {
    assert_eq!(color_choice_from_string("always".to_owned()), ColorChoice::Always);
    assert_eq!(color_choice_from_string("never".to_owned()), ColorChoice::Never);
    assert_eq!(color_choice_from_string("auto".to_owned()), ColorChoice::Auto);
    assert_eq!(color_choice_from_string("".to_owned()), ColorChoice::Auto);
    assert_eq!(color_choice_from_string("invalid".to_owned()), ColorChoice::Auto);
    assert_eq!(color_choice_from_string("ALWAYS".to_owned()), ColorChoice::Always);
}

#[test]
fn a_word_in_lower_case_is_taken_as_it_is() {
    assert_eq!(ColorChoice::from_lowercase("never"), ColorChoice::Never);
    assert_eq!(ColorChoice::from_lowercase("Never"), ColorChoice::Auto);
}

#[test]
fn test_default_config() {
    let config = Config::default();
    assert_eq!(config.global_config.debug_level, 0);
    assert_eq!(config.global_config.color_choice, ColorChoice::Auto);
    assert!(config.inner.is_none());
}

#[test]
fn test_config_new() {
    let global_config = GlobalConfig::default();
    let inner = InnerConfig::Interpreter(Default::default());
    let config = Config::new(global_config, inner);
    assert_eq!(config.global_config.debug_level, 0);
    assert_eq!(config.global_config.color_choice, ColorChoice::Auto);
    assert!(matches!(
        config.inner,
        Some(InnerConfig::Interpreter(InterpreterModeConfig { jit_enabled: true }))
    ));
}

#[test]
fn test_global_config_default() {
    let config = GlobalConfig::default();
    assert_eq!(config.debug_level, 0);
    assert_eq!(config.color_choice, ColorChoice::Auto);
}

#[test]
fn test_force_color_output_enabled() {
    assert!(is_color_output_force_enabled(&Some("always".to_owned())));
    assert!(!is_color_output_force_enabled(&Some("Always".to_owned())));
    assert!(!is_color_output_force_enabled(&Some("never".to_owned())));
    assert!(!is_color_output_force_enabled(&None));
}

#[test]
fn test_force_color_output_disabled() {
    let some = |text: &str| Some(text.to_owned());
    assert!(is_color_output_disabled(true, &None, &None, true));
    assert!(is_color_output_disabled(true, &some("always"), &None, true));
    assert!(!is_color_output_disabled(false, &some("always"), &some("dumb"), false));
    assert!(is_color_output_disabled(false, &some("never"), &None, true));
    assert!(is_color_output_disabled(false, &None, &some("dumb"), true));
    assert!(is_color_output_disabled(false, &None, &some("xterm"), false));
    assert!(!is_color_output_disabled(false, &None, &some("xterm"), true));
    assert!(!is_color_output_disabled(false, &some("auto"), &None, true));
}

#[test]
fn the_streams_are_coloured_as_asked_unless_the_environment_decides() {
    assert_eq!(ColorChoice::for_streams(true, true, Some(ColorChoice::Always)), ColorChoice::Never);
    assert_eq!(ColorChoice::for_streams(false, true, Some(ColorChoice::Never)), ColorChoice::Always);
    assert_eq!(ColorChoice::for_streams(false, false, Some(ColorChoice::Never)), ColorChoice::Never);
    assert_eq!(ColorChoice::for_streams(false, false, None), ColorChoice::Auto);
}

fn locale_for_lang(lang: &str) -> SupportedLocale {
    mabel::locale::get_os_locale(&Some(lang.to_owned()), &None)
}

#[test]
fn get_os_locale() {
    assert_eq!(locale_for_lang("en-US.UTF-8"), SupportedLocale::EnUs);
    assert_eq!(locale_for_lang("my-MM.UTF-8"), SupportedLocale::MyMm);
}

#[test]
fn fallback_os_locale() {
    assert_eq!(locale_for_lang("en-GB.UTF-8"), SupportedLocale::EnUs);
    assert_eq!(locale_for_lang("my-TH.UTF-8"), SupportedLocale::MyMm);
    assert_eq!(locale_for_lang(".UTF-8"), SupportedLocale::EnUs);
    assert_eq!(locale_for_lang(""), SupportedLocale::EnUs);
    assert_eq!(locale_for_lang("invalid"), SupportedLocale::EnUs);
    assert_eq!(mabel::locale::get_os_locale(&None, &None), SupportedLocale::EnUs);
}

#[test]
fn locale_of_lang() {
    assert_eq!(locale_from_lang("my_MM.UTF-8"), SupportedLocale::MyMm);
    assert_eq!(locale_from_lang("MY"), SupportedLocale::MyMm);
    assert_eq!(locale_from_lang("my.UTF-8"), SupportedLocale::MyMm);
    assert_eq!(locale_from_lang("My-mm"), SupportedLocale::MyMm);
    assert_eq!(locale_from_lang("mya"), SupportedLocale::EnUs);
    assert_eq!(locale_from_lang("m.y"), SupportedLocale::EnUs);
    assert_eq!(locale_from_lang("-y"), SupportedLocale::EnUs);
    assert_eq!(locale_from_lang("m"), SupportedLocale::EnUs);
}

#[test]
fn locale_of_the_system() {
    assert_eq!(locale_from_name("my-MM"), SupportedLocale::MyMm);
    assert_eq!(locale_from_name("my_MM"), SupportedLocale::EnUs);
    assert_eq!(locale_from_name("en-US"), SupportedLocale::EnUs);
    assert_eq!(
        mabel::locale::get_os_locale(&Some("en_US".to_owned()), &Some("my-MM".to_owned())),
        SupportedLocale::EnUs
    );
    assert_eq!(
        mabel::locale::get_os_locale(&None, &Some("my-MM".to_owned())),
        SupportedLocale::MyMm
    );
}

fn entry(key: &str, name: &str, value: Message) -> Message {
    Message::Entry {
        key: key.to_owned(),
        args: vec![MessageArg { name: name.to_owned(), value: MessageValue::Message(value) }],
        default_value: None,
    }
}

#[test]
fn test_io_error_to_string() {
    for (kind, key) in [
        (std::io::ErrorKind::NotFound, "utils-source-code-read-error.not-found"),
        (std::io::ErrorKind::IsADirectory, "utils-source-code-read-error.is-directory"),
        (std::io::ErrorKind::PermissionDenied, "utils-source-code-read-error.permission-denied"),
        (std::io::ErrorKind::Other, "utils-source-code-read-error.generic"),
        (std::io::ErrorKind::InvalidInput, "utils-source-code-read-error.generic"),
    ] {
        let error = std::io::Error::new(kind, "test");
        assert_eq!(
            io_error_to_string(&error, "test.mbl".to_owned()),
            entry(key, "path", Message::Text("test.mbl".to_owned()))
        );
    }
    assert_eq!(
        io_error_kind_to_string(IoErrorKind::NotFound, "a".to_owned()),
        entry("utils-source-code-read-error.not-found", "path", Message::Text("a".to_owned()))
    );
}

#[test]
fn errors_without_a_place_are_shown_as_a_line() {
    let error = Error::new(ErrorKind::BasicError("test".to_owned()), ExitCode::ERROR());
    assert_eq!(
        error.line(),
        Some(entry("utils-error.template", "error", Message::Text("test".to_owned())))
    );
    let error = Error::new(
        ErrorKind::IOError(std::io::Error::from(std::io::ErrorKind::NotFound), "x.mbl".to_owned()),
        ExitCode::IO_ERROR(),
    );
    assert_eq!(
        error.line(),
        Some(entry(
            "utils-error.template",
            "error",
            entry("utils-source-code-read-error.not-found", "path", Message::Text("x.mbl".to_owned()))
        ))
    );
    let error = mabel::compiler::check_source(&"s".to_owned(), &"-1u".to_owned()).unwrap_err();
    assert_eq!(error.line(), None);
}
