use mabel::common::ExitCode;
use mabel::compiler::check_source;
use mabel::diagnostic::{Diagnostic, LabelStyle};
use mabel::error::{Error, ErrorKind};
use mabel::lexer::model::LexerErrorCode;
use mabel::lexer::LexerError;
use mabel::message::{Message, MessageArg, MessageValue};
use mabel::parser::model::ParserErrorCode;
use mabel::parser::ParserError;
use mabel::span::{Location, Position, Span};
use std::ops::Range;

fn text(text: &str) -> Message {
    Message::Text(text.to_owned())
}

fn line(message: Message) -> Message {
    Message::Joined(Box::new(message), Box::new(text("\n")))
}

#[test]
fn test_create_and_print_diagnostic() {
    let lexer_error = LexerError {
        code: LexerErrorCode::UnexpectedCharacter,
        message: text("Unexpected character"),
        hint: Some(text("Check the character")),
        location: Location::Position(Position { line: 1, column: 1, offset: 0, char_index: 0 }),
        source_id: "mabel://stdin".to_owned(),
    };

    let diagnostic = lexer_error.create_diagnostic();

    assert_eq!(diagnostic.code, "UnexpectedCharacter");
    assert_eq!(diagnostic.message, line(text("Unexpected character")));
    assert_eq!(diagnostic.labels.len(), 1);
    assert_eq!(diagnostic.labels[0].0, LabelStyle::Primary);
    assert_eq!(diagnostic.labels[0].2, text("Unexpected character"));
    assert_eq!(Range::<usize>::from(diagnostic.labels[0].1), 0..0);
    assert_eq!(diagnostic.notes.len(), 1);
    assert_eq!(diagnostic.notes[0], text("Check the character"));
    assert_eq!(diagnostic.source_id, "mabel://stdin");
}

#[test]
fn every_code_has_its_name() {
    let named = |code: LexerErrorCode| {
        LexerError {
            code,
            message: text(""),
            hint: None,
            location: Location::Span(Span::default()),
            source_id: String::new(),
        }
        .create_diagnostic()
    };
    assert_eq!(named(LexerErrorCode::UnexpectedCharacter).code, "UnexpectedCharacter");
    assert_eq!(named(LexerErrorCode::InvalidNumberLiteralWidth).code, "InvalidNumberLiteralWidth");
    assert_eq!(named(LexerErrorCode::UnimplementedFeature).code, "UnimplementedFeature");
    assert!(named(LexerErrorCode::UnimplementedFeature).notes.is_empty());
}

#[test]
fn a_parser_error_has_one_primary_label() {
    let span = Span {
        start: Position { line: 2, column: 3, char_index: 7, offset: 9 },
        end: Position { line: 2, column: 5, char_index: 9, offset: 12 },
    };
    let error = ParserError {
        code: ParserErrorCode::ExpectedExpression,
        message: text("expected an expression"),
        hint: None,
        location: Location::Span(span),
        source_id: "mabel://REPL".to_owned(),
    };
    assert_eq!(
        error.create_diagnostic(),
        Diagnostic {
            code: "ExpectedExpression".to_owned(),
            message: line(text("expected an expression")),
            labels: vec![(LabelStyle::Primary, Location::Span(span), text("expected an expression"))],
            notes: vec![],
            source_id: "mabel://REPL".to_owned(),
        }
    );
    assert_eq!(Range::<usize>::from(error.create_diagnostic().labels[0].1), 9..12);
}

#[test]
fn a_checker_error_keeps_its_labels() {
    let error = check_source(&"mabel://stdin".to_owned(), &"echo 1u8 + 2i8".to_owned()).unwrap_err();
    let checker_error = match &error.kind {
        ErrorKind::SemanticCheckerError(error) => error,
        other => panic!("expected a checker error, found {:?}", other),
    };
    let diagnostic = error.diagnostic().unwrap();
    assert_eq!(diagnostic.code, "InvalidOperand");
    assert_eq!(diagnostic.labels, checker_error.labels);
    assert_eq!(diagnostic.labels.len(), 3);
    assert_eq!(diagnostic.message, line(checker_error.message.clone()));
    assert_eq!(diagnostic.notes, vec![checker_error.hint.clone().unwrap()]);
    assert_eq!(diagnostic.source_id, "mabel://stdin");
    assert_eq!(checker_error.create_diagnostic(), diagnostic);
    assert_eq!(error.line(), None);
}

#[test]
fn errors_of_the_stages_are_diagnostics_and_the_others_are_lines() {
    let id = "mabel://stdin".to_owned();
    for source in ["\\", "1 +", "-1u"] {
        let error = check_source(&id, &source.to_owned()).unwrap_err();
        assert!(error.diagnostic().is_some());
        assert!(error.line().is_none());
    }
    let error = Error::new(ErrorKind::BasicError("test".to_owned()), ExitCode::ERROR());
    assert!(error.diagnostic().is_none());
    assert!(error.line().is_some());
}

#[test]
fn a_message_is_cloned_with_all_its_parts() {
    let message = Message::Joined(
        Box::new(text("a")),
        Box::new(Message::Entry {
            key: "key".to_owned(),
            args: vec![
                MessageArg { name: "x".to_owned(), value: MessageValue::Absent },
                MessageArg { name: "y".to_owned(), value: MessageValue::Number(7) },
                MessageArg {
                    name: "z".to_owned(),
                    value: MessageValue::Message(Message::Entry {
                        key: "inner".to_owned(),
                        args: vec![MessageArg {
                            name: "w".to_owned(),
                            value: MessageValue::Message(text("deep")),
                        }],
                        default_value: None,
                    }),
                },
            ],
            default_value: Some("default".to_owned()),
        }),
    );
    assert_eq!(message.clone(), message);
}
