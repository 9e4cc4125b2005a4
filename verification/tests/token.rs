use mabel::message::{Message, MessageArg, MessageValue};
use mabel::span::{Position, Span};
use mabel::token::{
    clone_token, FloatLiteralToken, IntegerLiteralToken, LiteralTokenKind, NumberBase, Token,
    TokenKind,
};

fn integer_kind() -> TokenKind {
    TokenKind::Literal {
        kind: LiteralTokenKind::Integer(IntegerLiteralToken {
            base: NumberBase::Decimal,
            has_integer_part: true,
        }),
        suffix_start: None,
    }
}

fn float_kind() -> TokenKind {
    TokenKind::Literal {
        kind: LiteralTokenKind::Float(FloatLiteralToken {
            base: NumberBase::Decimal,
            has_exponent_part: false,
        }),
        suffix_start: None,
    }
}

fn token(kind: TokenKind, lexeme: &str) -> Token {
    Token::new(
        kind,
        Span::new(
            Position { line: 1, column: 1, char_index: 0, offset: 0 },
            Position { line: 1, column: 2, char_index: 1, offset: 1 },
        ),
        lexeme.to_owned(),
        "mabel://stdin".to_owned(),
    )
}

fn text(name: &str, text: &str) -> MessageArg {
    MessageArg { name: name.to_owned(), value: MessageValue::Message(Message::Text(text.to_owned())) }
}

fn described(key: &str, value: &str, capitalization: &str, count: usize, show_count: bool, show_value: bool) -> Message {
    Message::Entry {
        key: key.to_owned(),
        args: vec![
            text("value", value),
            text("capitalization", capitalization),
            MessageArg { name: "count".to_owned(), value: MessageValue::Number(count) },
            text("show_count", if show_count { "true" } else { "false" }),
            text("show_value", if show_value { "true" } else { "false" }),
        ],
        default_value: None,
    }
}

#[test]
fn test_token_new() {
    let token = token(integer_kind(), "1");
    assert_eq!(token.kind, integer_kind());
    assert_eq!(
        token.span,
        Span::new(
            Position { line: 1, column: 1, char_index: 0, offset: 0 },
            Position { line: 1, column: 2, char_index: 1, offset: 1 }
        )
    );
    assert_eq!(token.lexeme, "1");
    assert_eq!(token.source_id, "mabel://stdin");
}

#[test]
fn test_token_description() {
    for (kind, lexeme, key) in [
        (integer_kind(), "1", "token-description-int"),
        (float_kind(), "1.0", "token-description-float"),
        (TokenKind::Identifier, "foo", "token-description-identifier"),
        (TokenKind::Add, "+", "token-description-operator"),
        (TokenKind::SubtractOrNegate, "-", "token-description-operator"),
        (TokenKind::Multiply, "*", "token-description-operator"),
        (TokenKind::Divide, "/", "token-description-operator"),
        (TokenKind::Modulo, "%", "token-description-operator"),
        (TokenKind::Exponent, "**", "token-description-operator"),
        (TokenKind::Echo, "echo", "token-description-keyword"),
        (TokenKind::Function, "function", "token-description-keyword"),
        (TokenKind::SemiColon, ";", "token-description-semicolon"),
        (TokenKind::Colon, ":", "token-description-colon"),
        (TokenKind::LeftParen, "(", "token-description-left-paren"),
        (TokenKind::RightParen, ")", "token-description-right-paren"),
        (TokenKind::SingleLineComment, "// x", "token-description-single-line-comment"),
        (TokenKind::Whitespace, " ", "token-description-whitespace"),
        (TokenKind::Tab, "\t", "token-description-tab"),
        (TokenKind::NewLine, "\n", "token-description-newline"),
        (TokenKind::EndOfInput, "", "token-description-eoi"),
    ] {
        let quoted = match lexeme {
            "\t" => "\"\\t\"".to_owned(),
            "\n" => "\"\\n\"".to_owned(),
            other => format!("\"{other}\""),
        };
        assert_eq!(
            token(kind, lexeme).description(1, "lowercase", None, false, false),
            described(key, &quoted, "lowercase", 1, false, false)
        );
    }
}

#[test]
fn description_shows_a_given_value_in_place_of_the_text() {
    assert_eq!(
        token(integer_kind(), "1").description(3, "uppercase", Some("one".to_owned()), true, true),
        described("token-description-int", "\"one\"", "uppercase", 3, true, true)
    );
}

#[test]
fn values_are_written_as_json_strings() {
    let value = |text: &str| {
        match token(TokenKind::Identifier, text).description(1, "lowercase", None, false, true) {
            Message::Entry { mut args, .. } => match args.remove(0).value {
                MessageValue::Message(Message::Text(text)) => text,
                other => panic!("expected a text, found {:?}", other),
            },
            other => panic!("expected an entry, found {:?}", other),
        }
    };
    assert_eq!(value(""), "\"\"");
    assert_eq!(value("a\"b"), "\"a\\\"b\"");
    assert_eq!(value("a\\b"), "\"a\\\\b\"");
    assert_eq!(value("\u{8}\t\n\u{c}\r"), "\"\\b\\t\\n\\f\\r\"");
    assert_eq!(value("\u{0}\u{1}\u{b}\u{1f}"), "\"\\u0000\\u0001\\u000b\\u001f\"");
    assert_eq!(value(" \u{7f}/'"), "\" \u{7f}/'\"");
    assert_eq!(value("caf\u{e9} \u{1f1f7}\u{1f1fa}"), "\"caf\u{e9} \u{1f1f7}\u{1f1fa}\"");
}

#[test]
fn a_token_is_cloned_with_all_its_parts() {
    let original = token(float_kind(), "1.5");
    assert_eq!(original.clone(), original);
    assert_eq!(clone_token(&Some(original.clone())), Some(original));
    assert_eq!(clone_token(&None), None);
}
