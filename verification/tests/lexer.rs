use mabel::lexer::model::LexerErrorCode;
use mabel::lexer::{is_digit, is_newline, is_skipable, Lexer};
use mabel::message::{Message, MessageArg, MessageValue};
use mabel::span::{Location, Position, Span};
use mabel::token::{
    FloatLiteralToken, IntegerLiteralToken, LiteralTokenKind, NumberBase, Token, TokenKind,
};

fn tokens_of(source: &str) -> Vec<Token> {
    let tokens = Lexer::tokenize("string".into(), source.into());
    assert!(tokens.is_ok());
    tokens.unwrap()
}

fn scan_individual_token(source: &str, expected_kind: TokenKind) {
    let tokens = tokens_of(source);
    assert_eq!(tokens.len(), 2);
    assert_eq!(tokens[0].kind, expected_kind);
}

fn integer(base: NumberBase, has_integer_part: bool, suffix_start: Option<Position>) -> TokenKind {
    TokenKind::Literal {
        kind: LiteralTokenKind::Integer(IntegerLiteralToken { base, has_integer_part }),
        suffix_start,
    }
}

fn float(has_exponent_part: bool, suffix_start: Option<Position>) -> TokenKind {
    TokenKind::Literal {
        kind: LiteralTokenKind::Float(FloatLiteralToken {
            base: NumberBase::Decimal,
            has_exponent_part,
        }),
        suffix_start,
    }
}

fn text_arg(name: &str, text: &str) -> MessageArg {
    MessageArg {
        name: name.to_owned(),
        value: MessageValue::Message(Message::Text(text.to_owned())),
    }
}

fn entry(key: &str, args: Vec<MessageArg>) -> Message {
    Message::Entry { key: key.to_owned(), args, default_value: None }
}

#[test]
fn test_is_skipable() {
    assert!(!is_skipable(" ".to_owned()));
    assert!(!is_skipable("\t".to_owned()));
    assert!(!is_skipable("a".to_owned()));
    assert!(is_skipable("\r".to_owned()));
}

#[test]
fn skipable_is_single_byte_white_space_outside_tokens() {
    assert!(is_skipable("\u{b}".to_owned()));
    assert!(is_skipable("\u{c}".to_owned()));
    assert!(!is_skipable("\n".to_owned()));
    assert!(!is_skipable("\r\n".to_owned()));
    assert!(!is_skipable("\u{a0}".to_owned()));
    assert!(!is_skipable("\u{85}".to_owned()));
    assert!(!is_skipable("\u{1c}".to_owned()));
    assert!(!is_skipable("".to_owned()));
}

#[test]
fn test_is_newline() {
    assert!(is_newline("\n".to_owned()));
    assert!(is_newline("\r\n".to_owned()));
    assert!(!is_newline("a".to_owned()));
}

#[test]
fn digits_of_each_base() {
    assert!(is_digit("1".to_owned(), NumberBase::Binary));
    assert!(!is_digit("2".to_owned(), NumberBase::Binary));
    assert!(is_digit("7".to_owned(), NumberBase::Octal));
    assert!(!is_digit("8".to_owned(), NumberBase::Octal));
    assert!(is_digit("9".to_owned(), NumberBase::Decimal));
    assert!(!is_digit("a".to_owned(), NumberBase::Decimal));
    assert!(is_digit("f".to_owned(), NumberBase::Hexadecimal));
    assert!(is_digit("F".to_owned(), NumberBase::Hexadecimal));
    assert!(!is_digit("g".to_owned(), NumberBase::Hexadecimal));
    assert!(!is_digit("\u{664}".to_owned(), NumberBase::Decimal));
}

#[test]
fn test_scan_indivitual_tokens() {
    scan_individual_token("echo", TokenKind::Echo);
    scan_individual_token("+", TokenKind::Add);
    scan_individual_token("-", TokenKind::SubtractOrNegate);
    scan_individual_token("*", TokenKind::Multiply);
    scan_individual_token("/", TokenKind::Divide);
    scan_individual_token("%", TokenKind::Modulo);
    scan_individual_token("**", TokenKind::Exponent);
    scan_individual_token("(", TokenKind::LeftParen);
    scan_individual_token(")", TokenKind::RightParen);
    scan_individual_token(";", TokenKind::SemiColon);
    scan_individual_token(":", TokenKind::Colon);
    scan_individual_token("\n", TokenKind::NewLine);
    scan_individual_token("// hello", TokenKind::SingleLineComment);
}

#[test]
fn test_whitespace_skipping() {
    // only the first whitespace should be tokenized
    assert_eq!(tokens_of("    1 + 2   1 + 2").len(), 8);
    // only the first tab should be tokenized
    assert_eq!(tokens_of("\t\t1 + 2\t\t1 + 2").len(), 8);
    // no whitespace should be tokenized
    assert_eq!(tokens_of("     ").len(), 1);
    assert_eq!(tokens_of("\t\t").len(), 1);
}

#[test]
fn test_validate_number_width() {
    let valid = |width: &str, suffix: &str| {
        let (valid, ..) =
            Lexer::new("string".into(), "".into()).validate_number_width(width.into(), suffix.into());
        valid
    };
    assert!(valid("", "f"));
    assert!(valid("32", "f"));
    assert!(!valid("128", "f"));
    assert!(!valid("128", "d"));
    assert!(valid("", "d"));
    assert!(!valid("32", "d"));
    assert!(valid("", "i"));
    assert!(valid("32", "i"));
    assert!(!valid("128", "i"));
    assert!(valid("", "u"));
    assert!(valid("32", "u"));
    assert!(!valid("128", "u"));
    assert!(!valid("", "x"));
}

#[test]
fn validate_number_width_lists_the_widths() {
    let (_, integer_widths, float_widths) =
        Lexer::new("string".into(), "".into()).validate_number_width("8".into(), "f".into());
    assert_eq!(integer_widths, vec!["8", "16", "32", "64"]);
    assert_eq!(float_widths, vec!["32", "64"]);
}

#[test]
fn test_number_tokens() {
    let at = |column: usize| Some(Position { line: 1, column: column + 1, offset: column, char_index: column });
    scan_individual_token("0", integer(NumberBase::Decimal, true, None));
    scan_individual_token("0x", integer(NumberBase::Hexadecimal, false, None));
    scan_individual_token("0b", integer(NumberBase::Binary, false, None));
    scan_individual_token("0o", integer(NumberBase::Octal, false, None));
    scan_individual_token("0x1234", integer(NumberBase::Hexadecimal, true, None));
    scan_individual_token("0b1010", integer(NumberBase::Binary, true, None));
    scan_individual_token("0o7654", integer(NumberBase::Octal, true, None));
    scan_individual_token("0.0", float(false, None));
    scan_individual_token("1e2", float(true, None));
    scan_individual_token("1.0e-12", float(true, None));
    scan_individual_token("1.0f", float(false, at(3)));
    scan_individual_token("1f32", integer(NumberBase::Decimal, true, at(1)));
    scan_individual_token("1i", integer(NumberBase::Decimal, true, at(1)));
    scan_individual_token("1u", integer(NumberBase::Decimal, true, at(1)));
    scan_individual_token("1d", integer(NumberBase::Decimal, true, at(1)));
    scan_individual_token("1u32", integer(NumberBase::Decimal, true, at(1)));
    scan_individual_token("1i64", integer(NumberBase::Decimal, true, at(1)));
}

#[test]
fn test_number_with_invalid_widths() {
    for literal in &["1f8", "1f16", "1d8", "1d16", "1d64", "1i12", "32u1", "12.0f60"] {
        let tokens = Lexer::tokenize("string".into(), literal.to_owned().to_string());
        assert!(tokens.is_err());
        let error = tokens.unwrap_err();
        assert_eq!(error.code, LexerErrorCode::InvalidNumberLiteralWidth);
    }
}

#[test]
fn invalid_width_names_the_width_and_the_valid_ones() {
    let error = Lexer::tokenize("string".into(), "1 + 12.0f60".into()).unwrap_err();
    assert_eq!(error.code, LexerErrorCode::InvalidNumberLiteralWidth);
    assert_eq!(
        error.message,
        entry(
            "lexer-error-invalid-number-literal-width",
            vec![
                text_arg("width", "\"60\""),
                MessageArg {
                    name: "literal_kind".to_owned(),
                    value: MessageValue::Message(entry("common-data-type-desc.float", vec![])),
                },
                text_arg("valid_widths", "32, 64"),
            ]
        )
    );
    assert_eq!(error.hint, None);
    assert_eq!(
        error.location,
        Location::Span(Span {
            start: Position { line: 1, column: 9, offset: 8, char_index: 8 },
            end: Position { line: 1, column: 12, offset: 11, char_index: 11 },
        })
    );

    let error = Lexer::tokenize("string".into(), "1f8".into()).unwrap_err();
    assert_eq!(
        error.message,
        entry(
            "lexer-error-invalid-number-literal-width",
            vec![
                text_arg("width", "\"8\""),
                MessageArg {
                    name: "literal_kind".to_owned(),
                    value: MessageValue::Message(entry("common-data-type-desc.int", vec![])),
                },
                text_arg("valid_widths", "8, 16, 32, 64"),
            ]
        )
    );
}

#[test]
fn width_after_d_has_a_message_of_its_own() {
    let error = Lexer::tokenize("string".into(), "1d64".into()).unwrap_err();
    assert_eq!(error.code, LexerErrorCode::InvalidNumberLiteralWidth);
    assert_eq!(
        error.message,
        entry("lexer-error-invalid-number-literal-width.no-width-for-double", vec![])
    );
    assert_eq!(
        error.location,
        Location::Span(Span {
            start: Position { line: 1, column: 2, offset: 1, char_index: 1 },
            end: Position { line: 1, column: 5, offset: 4, char_index: 4 },
        })
    );
}

#[test]
fn test_unimplemented_feature() {
    let tokens = Lexer::tokenize("string".into(), "id".into());
    assert!(tokens.is_err());
    let error = tokens.unwrap_err();
    assert_eq!(error.code, LexerErrorCode::UnimplementedFeature);
    assert_eq!(
        error.message,
        entry("lexer-error-unimplemented-feature", vec![text_arg("feature", "identifier")])
    );
    assert_eq!(error.hint, None);
    assert_eq!(
        error.location,
        Location::Span(Span {
            start: Position { line: 1, column: 1, offset: 0, char_index: 0 },
            end: Position { line: 1, column: 3, offset: 2, char_index: 2 },
        })
    );
    assert_eq!(error.source_id, "string".to_owned());
}

#[test]
fn test_unrecognized_character() {
    let tokens = Lexer::tokenize("string".into(), "\\".into());
    assert!(tokens.is_err());
    let error = tokens.unwrap_err();
    assert_eq!(error.code, LexerErrorCode::UnexpectedCharacter);
    assert_eq!(
        error.message,
        entry("lexer-error-unexpected-character", vec![text_arg("character", "\"\\\\\"")])
    );
    assert_eq!(error.hint, None);
    assert_eq!(
        error.location,
        Location::Position(Position { line: 1, column: 1, offset: 0, char_index: 0 })
    );
    assert_eq!(error.source_id, "string".to_owned());
}

#[test]
fn test_get_previous_position() {
    let mut lexer = Lexer::new("string".into(), "+-*\n/".into());
    lexer.advance(); // +
    let position = lexer.get_previous_position(1);
    assert_eq!(position.line, 1);
    assert_eq!(position.column, 1);
    assert_eq!(position.offset, 0);

    lexer.advance(); // -
    lexer.advance(); // *
    lexer.advance(); // \n
    lexer.advance(); // /
    assert_eq!(lexer.current().line, 2);
    assert_eq!(lexer.current().column, 2);
    assert_eq!(lexer.current().offset, 5);

    let position = lexer.get_previous_position(2);
    assert_eq!(position.line, 1);
    assert_eq!(position.column, 4);
    assert_eq!(position.offset, 3);
}

#[test]
fn previous_positions_over_several_lines() {
    let mut lexer = Lexer::new("string".into(), "a\u{301}b\r\n\nc".into());
    for _ in 0..5 {
        lexer.advance();
    }
    assert_eq!(lexer.current(), Position { line: 3, column: 2, char_index: 5, offset: 8 });
    assert_eq!(lexer.get_previous_position(0), lexer.current());
    assert_eq!(lexer.get_previous_position(1), Position { line: 3, column: 1, char_index: 4, offset: 7 });
    assert_eq!(lexer.get_previous_position(2), Position { line: 2, column: 1, char_index: 3, offset: 6 });
    assert_eq!(lexer.get_previous_position(3), Position { line: 1, column: 3, char_index: 2, offset: 4 });
    assert_eq!(lexer.get_previous_position(4), Position { line: 1, column: 2, char_index: 1, offset: 3 });
    assert_eq!(lexer.get_previous_position(5), Position::default());
}

#[test]
fn peeking_does_not_move_the_scan() {
    let mut lexer = Lexer::new("string".into(), "e\u{301}+".into());
    assert_eq!(lexer.previous(), None);
    assert_eq!(lexer.peek(), Some("e\u{301}".to_owned()));
    assert_eq!(lexer.peek_nth(0), Some("e\u{301}".to_owned()));
    assert_eq!(lexer.peek_nth(1), Some("+".to_owned()));
    assert_eq!(lexer.peek_nth(2), None);
    assert_eq!(lexer.peek_nth(usize::MAX), None);
    assert_eq!(lexer.current(), Position::default());
    lexer.advance();
    assert_eq!(lexer.previous(), Some("e\u{301}".to_owned()));
    assert_eq!(lexer.peek(), Some("+".to_owned()));
    lexer.advance();
    assert_eq!(lexer.previous(), Some("+".to_owned()));
    assert_eq!(lexer.peek(), None);
}

#[test]
fn test_skip_skipable() {
    let mut lexer = Lexer::new("string".into(), "\r\ra".into());
    lexer.skip_skipable();
    assert_eq!(lexer.current().column, 3);
}

#[test]
fn test_all_supported_tokens() {
    let tokens = tokens_of(
        "+-***/%() \t\n// hello world\n12.0 0x1234 0b1010 \
         0o7654 1e2 1.0e-12 1.0f 1f 1i 1u 1d 1u32 1i64",
    );
    assert_eq!(tokens.len(), 25);
}

#[test]
fn one_plus_two_is_four_tokens() {
    let tokens = tokens_of("1+2");
    assert_eq!(tokens.len(), 4);
    assert_eq!(tokens[0].kind, integer(NumberBase::Decimal, true, None));
    assert_eq!(tokens[1].kind, TokenKind::Add);
    assert_eq!(tokens[2].kind, integer(NumberBase::Decimal, true, None));
    assert_eq!(tokens[3].kind, TokenKind::EndOfInput);
    assert_eq!(tokens[0].lexeme, "1");
    assert_eq!(tokens[1].lexeme, "+");
    assert_eq!(tokens[2].lexeme, "2");
    assert_eq!(tokens[0].source_id, "string");
}

#[test]
fn suffix_with_its_width_is_accepted_or_refused() {
    assert!(Lexer::tokenize("string".into(), "1f8".into()).is_err());
    assert!(Lexer::tokenize("string".into(), "1u32".into()).is_ok());
}

#[test]
fn end_of_input_covers_nothing_at_the_end() {
    let tokens = tokens_of("1+2");
    let end = Position { line: 1, column: 4, offset: 3, char_index: 3 };
    assert_eq!(tokens[3].span, Span { start: end, end });
    assert_eq!(tokens[3].lexeme, "");

    let tokens = tokens_of("");
    assert_eq!(tokens.len(), 1);
    assert_eq!(tokens[0].kind, TokenKind::EndOfInput);
    assert_eq!(tokens[0].span, Span::default());
}

fn lexemes_in_a_row(source: &str) -> String {
    tokens_of(source).iter().map(|token| token.lexeme.as_str()).collect()
}

#[test]
fn lexemes_in_a_row_give_the_source_back() {
    for source in ["1+2", "echo(1.5e-3f32)**0x1f\n// done", "\t1\r\n-2;echo(7):8%9", ""] {
        assert_eq!(lexemes_in_a_row(source), source);
    }
}

#[test]
fn lexemes_in_a_row_leave_out_what_made_no_token() {
    assert_eq!(lexemes_in_a_row("1 + 2"), "1+2");
    assert_eq!(lexemes_in_a_row("1\u{b}+\t2\r"), "1+2");
    assert_eq!(lexemes_in_a_row("  \n"), "\n");
}

#[test]
fn what_the_tokens_leave_out_is_blank() {
    for source in [
        "  echo 1u8 +\t2.5\u{b}// caf\u{e9} \u{1f1f7}\u{1f1fa}\r\n(0x1F)  \r",
        "1 + 2",
        " \t \n\t\t1 \u{c} 2\r\r\n   ",
        "\u{b}",
        "",
    ] {
        let tokens = tokens_of(source);
        let mut rebuilt = String::new();
        let mut from = 0;
        for token in &tokens {
            let (start, end) = (token.span.start.offset, token.span.end.offset);
            assert!(from <= start && start <= end && end <= source.len(), "{source:?}");
            let gap = &source[from..start];
            assert!(gap.chars().all(|c| " \t\u{b}\u{c}\r".contains(c)), "{source:?}: {gap:?}");
            rebuilt.push_str(gap);
            rebuilt.push_str(&token.lexeme);
            from = end;
        }
        assert_eq!(from, source.len());
        assert_eq!(rebuilt, source);
    }
}

#[test]
fn token_spans_are_in_order_and_apart() {
    let tokens = tokens_of("echo 1 +\t2\n  // done\r\n(3)**4");
    for pair in tokens.windows(2) {
        assert!(pair[0].span.start.offset < pair[0].span.end.offset);
        assert!(pair[0].span.end.offset <= pair[1].span.start.offset);
        assert!(pair[0].span.end.char_index <= pair[1].span.start.char_index);
    }
    let last = tokens.last().unwrap();
    assert_eq!(last.kind, TokenKind::EndOfInput);
    assert_eq!(last.span.start, last.span.end);
}

#[test]
fn lexeme_is_the_text_that_the_span_covers() {
    let source = "  echo 1u8 +\t2.5\u{b}// caf\u{e9} \u{1f1f7}\u{1f1fa}\r\n(0x1F)";
    for token in tokens_of(source) {
        assert_eq!(&source[token.span.start.offset..token.span.end.offset], token.lexeme);
    }
}

#[test]
fn positions_count_clusters_and_bytes() {
    let tokens = tokens_of("// e\u{301}\u{1f1f7}\u{1f1fa}\r\n1");
    assert_eq!(tokens.len(), 4);
    assert_eq!(tokens[0].kind, TokenKind::SingleLineComment);
    assert_eq!(tokens[0].span.end, Position { line: 1, column: 6, char_index: 5, offset: 14 });
    assert_eq!(tokens[1].kind, TokenKind::NewLine);
    assert_eq!(tokens[1].span.end, Position { line: 2, column: 1, char_index: 6, offset: 16 });
    assert_eq!(tokens[2].span.end, Position { line: 2, column: 2, char_index: 7, offset: 17 });
}

#[test]
fn skipable_white_space_at_the_end_makes_no_token() {
    let tokens = tokens_of("1\r");
    assert_eq!(tokens.len(), 2);
    assert_eq!(tokens[1].kind, TokenKind::EndOfInput);
    assert_eq!(tokens[1].span.start.offset, 2);
}

#[test]
fn a_dot_without_a_digit_is_no_fraction() {
    let error = Lexer::tokenize("string".into(), "1.".into()).unwrap_err();
    assert_eq!(error.code, LexerErrorCode::UnexpectedCharacter);
    assert_eq!(
        error.location,
        Location::Position(Position { line: 1, column: 2, offset: 1, char_index: 1 })
    );
}

#[test]
fn indentation_is_a_token_only_before_text() {
    let tokens = tokens_of("  1\n  \n\t2 ");
    let kinds: Vec<TokenKind> = tokens.iter().map(|token| token.kind).collect();
    assert_eq!(kinds[0], TokenKind::Whitespace);
    assert_eq!(kinds[2], TokenKind::NewLine);
    assert_eq!(kinds[3], TokenKind::NewLine);
    assert_eq!(kinds[4], TokenKind::Tab);
    assert_eq!(kinds.len(), 7);
}
