use mabel::ast::{
    BinaryOperator, Expression, GetSpan, Module, Statement, UnaryOperator, Value,
};
use mabel::lexer::Lexer;
use mabel::message::{Message, MessageArg, MessageValue};
use mabel::parser::literal::{
    is_float_text, parse_decimal, parse_number, parse_suffix, read_float_literal,
    read_integer_literal, read_literal, read_typed, to_decimal,
};
use mabel::parser::model::ParserErrorCode;
use mabel::parser::{Parser, ParserError};
use mabel::span::{Location, Position, Span};
use mabel::token::{
    FloatLiteralToken, IntegerLiteralToken, LiteralTokenKind, NumberBase, Token, TokenKind,
};

fn parse(source: &str, is_main_module: bool) -> Result<Module<Expression>, ParserError> {
    let tokens = Lexer::tokenize("mabel://stdin".into(), source.into()).unwrap();
    Parser::parse("mabel://stdin".into(), is_main_module, tokens)
}

fn statements(source: &str) -> Vec<Statement<Expression>> {
    parse(source, false).unwrap().statements.into_iter().map(|statement| *statement).collect()
}

fn expression(source: &str) -> Expression {
    let mut statements = statements(source);
    assert_eq!(statements.len(), 1);
    match statements.remove(0) {
        Statement::Expression(statement) => statement.expression,
        other => panic!("expected an expression statement, found {:?}", other),
    }
}

fn shape(expression: &Expression) -> String {
    match expression {
        Expression::Literal(literal) => match &literal.value {
            Value::UInt8(value) => format!("{value}u8"),
            Value::UInt16(value) => format!("{value}u16"),
            Value::UInt32(value) => format!("{value}u32"),
            Value::UInt64(value) => format!("{value}u64"),
            Value::Int8(value) => format!("{value}i8"),
            Value::Int16(value) => format!("{value}i16"),
            Value::Int32(value) => format!("{value}i32"),
            Value::Int64(value) => format!("{value}i64"),
            Value::Int(value) => format!("{value}"),
            Value::UInt(value) => format!("{value}u"),
            Value::Float32(digits) => format!("{digits}f32"),
            Value::Double(digits) => format!("{digits}f64"),
        },
        Expression::Grouping(grouping) => format!("({})", shape(&grouping.expression)),
        Expression::Unary(unary) => {
            assert_eq!(unary.operator, UnaryOperator::Negate);
            format!("[- {}]", shape(&unary.right))
        }
        Expression::Binary(binary) => {
            let operator = match binary.operator {
                BinaryOperator::Add => "+",
                BinaryOperator::Subtract => "-",
                BinaryOperator::Multiply => "*",
                BinaryOperator::Divide => "/",
                BinaryOperator::Modulo => "%",
                BinaryOperator::Exponent => "**",
            };
            format!("[{} {} {}]", shape(&binary.left), operator, shape(&binary.right))
        }
    }
}

fn at(column: usize) -> Position {
    Position { line: 1, column: column + 1, char_index: column, offset: column }
}

fn error_of(source: &str) -> ParserError {
    parse(source, false).unwrap_err()
}

fn found(key: &str, value: &str) -> Message {
    let text = |name: &str, text: &str| MessageArg {
        name: name.to_owned(),
        value: MessageValue::Message(Message::Text(text.to_owned())),
    };
    Message::Joined(
        Box::new(Message::Text("expected an expression, found ".to_owned())),
        Box::new(Message::Entry {
            key: key.to_owned(),
            args: vec![
                text("value", value),
                text("capitalization", "lowercase"),
                MessageArg { name: "count".to_owned(), value: MessageValue::Number(1) },
                text("show_count", "true"),
                text("show_value", "true"),
            ],
            default_value: None,
        }),
    )
}

#[test]
fn factor_binds_tighter_than_term() {
    assert_eq!(shape(&expression("1+2*3")), "[1 + [2 * 3]]");
    assert_eq!(shape(&expression("1*2+3")), "[[1 * 2] + 3]");
    assert_eq!(shape(&expression("1+2%3/4")), "[1 + [[2 % 3] / 4]]");
}

#[test]
fn exponent_groups_to_the_right() {
    assert_eq!(shape(&expression("2**3**2")), "[2 ** [3 ** 2]]");
    assert_eq!(shape(&expression("2*3**2**1*4")), "[[2 * [3 ** [2 ** 1]]] * 4]");
}

#[test]
fn term_and_factor_group_to_the_left() {
    assert_eq!(shape(&expression("1-2-3")), "[[1 - 2] - 3]");
    assert_eq!(shape(&expression("8/4/2")), "[[8 / 4] / 2]");
    assert_eq!(shape(&expression("1 - 2 + 3")), "[[1 - 2] + 3]");
}

#[test]
fn negation_takes_what_binds_at_least_as_strongly() {
    assert_eq!(shape(&expression("-1")), "[- 1]");
    assert_eq!(shape(&expression("-1+2")), "[[- 1] + 2]");
    assert_eq!(shape(&expression("-2**2")), "[- [2 ** 2]]");
    assert_eq!(shape(&expression("--1")), "[- [- 1]]");
    assert_eq!(shape(&expression("1--1")), "[1 - [- 1]]");
    assert_eq!(shape(&expression("-1*2")), "[[- 1] * 2]");
}

#[test]
fn grouping_holds_an_expression() {
    assert_eq!(shape(&expression("(1+2)*3")), "[(1 + 2]) * 3]".replace("(1 + 2])", "([1 + 2])"));
    assert_eq!(shape(&expression("((1))")), "((1))");
    let grouping = match expression("(1)") {
        Expression::Grouping(grouping) => grouping,
        other => panic!("expected a grouping, found {:?}", other),
    };
    assert_eq!(grouping.left_paren_token.as_ref().unwrap().kind, TokenKind::LeftParen);
    assert_eq!(grouping.right_paren_token.as_ref().unwrap().kind, TokenKind::RightParen);
    assert_eq!(grouping.get_span(), Some(Span { start: at(0), end: at(3) }));
}

#[test]
fn the_token_behind_the_expression_closes_the_grouping() {
    let grouping = match expression("(1\n") {
        Expression::Grouping(grouping) => grouping,
        other => panic!("expected a grouping, found {:?}", other),
    };
    assert_eq!(grouping.right_paren_token.unwrap().kind, TokenKind::NewLine);
    assert_eq!(shape(&expression("(1;")), "(1)");
}

#[test]
fn a_grouping_is_not_closed_by_the_end_of_input() {
    let error = error_of("(1");
    assert_eq!(error.code, ParserErrorCode::ExpectedExpression);
    assert_eq!(error.location, Location::Span(Span { start: at(2), end: at(2) }));
    assert_eq!(error.message, found("token-description-eoi", "\"\""));
}

#[test]
fn a_token_without_prefix_rule_is_no_expression() {
    for (source, key, value, start, end) in [
        ("+", "token-description-operator", "\"+\"", 0, 1),
        ("1+", "token-description-eoi", "\"\"", 2, 2),
        ("1+*2", "token-description-operator", "\"*\"", 2, 3),
        (")", "token-description-right-paren", "\")\"", 0, 1),
        ("()", "token-description-right-paren", "\")\"", 1, 2),
        ("echo", "token-description-eoi", "\"\"", 4, 4),
        (";", "token-description-semicolon", "\";\"", 0, 1),
        ("1 : 2", "token-description-colon", "\":\"", 2, 3),
        ("- // gone", "token-description-single-line-comment", "\"// gone\"", 2, 9),
    ] {
        let error = error_of(source);
        assert_eq!(error.code, ParserErrorCode::ExpectedExpression);
        assert_eq!(error.message, found(key, value));
        assert_eq!(error.hint, None);
        assert_eq!(error.location, Location::Span(Span { start: at(start), end: at(end) }));
        assert_eq!(error.source_id, "mabel://stdin");
    }
}

#[test]
fn a_literal_or_a_parenthesis_is_no_operator() {
    let error = error_of("1 2");
    assert_eq!(error.code, ParserErrorCode::ExpectedExpression);
    assert_eq!(error.message, found("token-description-int", "\"2\""));
    assert_eq!(error.location, Location::Span(Span { start: at(2), end: at(3) }));

    let error = error_of("1(2)");
    assert_eq!(error.message, found("token-description-left-paren", "\"(\""));
    let error = error_of("1 2.5");
    assert_eq!(error.message, found("token-description-float", "\"2.5\""));
}

#[test]
fn a_literal_without_a_value_is_no_expression() {
    for source in [
        "256u8", "128i8", "65536u16", "32768i16", "4294967296u32", "2147483648i32",
        "18446744073709551616u64", "9223372036854775808i64", "9223372036854775808",
        "18446744073709551616u", "0x", "0b", "0o", "0x80i8", "0x100u8", "0o400u8", "0b100000000u8",
        "0x8000000000000000", "0x10000000000000000u", "0x10000000000000000u64",
        "0b10000000000000000000000000000000000000000000000000000000000000000f", "1.5i", "1.5u8",
        "1e", "1e+", "1.5e-", "1e-f32",
    ] {
        let error = parse(source, false);
        let error = match error {
            Err(error) => error,
            Ok(module) => panic!("{source} was read as {:?}", module),
        };
        assert_eq!(error.code, ParserErrorCode::ExpectedExpression, "{source}");
        assert_eq!(error.location.clone(), Location::Span(Span { start: at(0), end: at(source.len()) }).clone());
    }
    assert_eq!(error_of("1+256u8").message, found("token-description-int", "\"256u8\""));
}

#[test]
fn literals_have_the_value_of_their_type() {
    for (source, expected) in [
        ("0", "0"),
        ("9223372036854775807", "9223372036854775807"),
        ("7i", "7"),
        ("127i8", "127i8"),
        ("32767i16", "32767i16"),
        ("2147483647i32", "2147483647i32"),
        ("9223372036854775807i64", "9223372036854775807i64"),
        ("18446744073709551615u", "18446744073709551615u"),
        ("255u8", "255u8"),
        ("65535u16", "65535u16"),
        ("4294967295u32", "4294967295u32"),
        ("18446744073709551615u64", "18446744073709551615u64"),
        ("007u8", "7u8"),
        ("0x1F", "31"),
        ("0x1f", "31"),
        ("0x10", "16"),
        ("0xff", "255"),
        ("0xf", "15"),
        ("0xAbCdEf", "11259375"),
        ("0x0", "0"),
        ("0x7fi8", "127i8"),
        ("0xffu8", "255u8"),
        ("0x7fffffffffffffff", "9223372036854775807"),
        ("0xffffffffffffffffu", "18446744073709551615u"),
        ("0xFFFFFFFFFFFFFFFFu64", "18446744073709551615u64"),
        ("0b101", "5"),
        ("0b0", "0"),
        ("0b11111111u8", "255u8"),
        ("0o17u8", "15u8"),
        ("0o777", "511"),
        ("0o377u8", "255u8"),
        ("0b1f", "1f32"),
        ("0b101f", "5f32"),
        ("0o17d", "15f64"),
        ("0o17f64", "15f64"),
        ("0b1111111111111111111111111111111111111111111111111111111111111111d", "18446744073709551615f64"),
        ("7f", "7f32"),
        ("7f32", "7f32"),
        ("7f64", "7f64"),
        ("7d", "7f64"),
        ("2.5", "2.5f64"),
        ("2.5f", "2.5f32"),
        ("2.5d", "2.5f64"),
        ("1e3", "1e3f64"),
        ("1.0e-12f32", "1.0e-12f32"),
        ("1E+2", "1E+2f64"),
    ] {
        assert_eq!(shape(&expression(source)), expected, "{source}");
    }
}

#[test]
fn the_suffix_is_found_by_its_offset_in_the_token() {
    assert_eq!(shape(&expression("1 + 2.5f32")), "[1 + 2.5f32]");
    assert_eq!(shape(&expression("100 + 0x12u32")), "[100 + 18u32]");
}

#[test]
fn a_literal_keeps_its_token() {
    let literal = match expression("12u8") {
        Expression::Literal(literal) => literal,
        other => panic!("expected a literal, found {:?}", other),
    };
    let token = literal.token.unwrap();
    assert_eq!(token.lexeme, "12u8");
    assert_eq!(token.span, Span { start: at(0), end: at(4) });
    assert_eq!(token.source_id, "mabel://stdin");
}

fn literal_token(kind: LiteralTokenKind, lexeme: &str, start: usize, suffix: Option<usize>) -> Token {
    Token::new(
        TokenKind::Literal { kind, suffix_start: suffix.map(at) },
        Span { start: at(start), end: at(start + lexeme.len()) },
        lexeme.to_owned(),
        "mabel://REPL".to_owned(),
    )
}

#[test]
fn read_literal_reads_any_literal_token() {
    let integer = LiteralTokenKind::Integer(IntegerLiteralToken {
        base: NumberBase::Decimal,
        has_integer_part: true,
    });
    let float = LiteralTokenKind::Float(FloatLiteralToken {
        base: NumberBase::Decimal,
        has_exponent_part: false,
    });
    assert_eq!(read_literal(&literal_token(integer, "42", 0, None)), Some(Value::Int(42)));
    assert_eq!(read_literal(&literal_token(integer, "42u16", 5, Some(7))), Some(Value::UInt16(42)));
    assert_eq!(read_literal(&literal_token(integer, "42u16", 5, Some(4))), None);
    assert_eq!(read_literal(&literal_token(integer, "42u16", 5, Some(11))), None);
    assert_eq!(read_literal(&literal_token(integer, "42", 5, Some(7))), None);
    assert_eq!(read_literal(&literal_token(integer, "42u7", 0, Some(2))), None);
    assert_eq!(read_literal(&literal_token(integer, "42x", 0, Some(2))), None);
    assert_eq!(read_literal(&literal_token(integer, "+42", 0, None)), None);
    assert_eq!(read_literal(&literal_token(integer, "\u{664}2", 0, None)), None);
    assert_eq!(
        read_literal(&literal_token(float, "4.25", 0, None)),
        Some(Value::Double("4.25".to_owned()))
    );
    assert_eq!(
        read_literal(&literal_token(float, "4.25f", 0, Some(4))),
        Some(Value::Float32("4.25".to_owned()))
    );
    assert_eq!(read_literal(&literal_token(float, "4.", 0, None)), None);
    assert_eq!(read_literal(&literal_token(float, "inf", 0, None)), None);
    let not_a_literal =
        Token::new(TokenKind::Add, Span::default(), "1".to_owned(), "mabel://REPL".to_owned());
    assert_eq!(read_literal(&not_a_literal), None);
}

#[test]
fn a_literal_is_read_as_the_kind_it_is_taken_for() {
    let hexadecimal = IntegerLiteralToken { base: NumberBase::Hexadecimal, has_integer_part: true };
    let decimal = IntegerLiteralToken { base: NumberBase::Decimal, has_integer_part: true };
    let integer = LiteralTokenKind::Integer(decimal);
    let token = literal_token(integer, "0x12u8", 3, Some(7));
    assert_eq!(read_integer_literal(&token, hexadecimal, Some(at(7))), Some(Value::UInt8(18)));
    assert_eq!(read_integer_literal(&token, decimal, Some(at(7))), None);
    assert_eq!(read_integer_literal(&token, hexadecimal, None), None);
    let token = literal_token(integer, "1", 0, None);
    assert_eq!(read_integer_literal(&token, hexadecimal, None), None);
    assert_eq!(read_integer_literal(&token, decimal, None), Some(Value::Int(1)));
    assert_eq!(read_float_literal(&token, None), Some(Value::Double("1".to_owned())));
    let token = literal_token(integer, "1i", 0, Some(1));
    assert_eq!(read_float_literal(&token, Some(at(1))), None);
    assert_eq!(read_integer_literal(&token, decimal, Some(at(1))), Some(Value::Int(1)));
}

#[test]
fn decimal_numbers_up_to_a_maximum() {
    assert_eq!(parse_decimal("0", 0), Some(0));
    assert_eq!(parse_decimal("255", 255), Some(255));
    assert_eq!(parse_decimal("256", 255), None);
    assert_eq!(parse_decimal("0000255", 255), Some(255));
    assert_eq!(parse_decimal("18446744073709551615", u64::MAX), Some(u64::MAX));
    assert_eq!(parse_decimal("18446744073709551616", u64::MAX), None);
    assert_eq!(parse_decimal("99999999999999999999999", u64::MAX), None);
    assert_eq!(parse_decimal("", 9), None);
    assert_eq!(parse_decimal("1a", 99), None);
    assert_eq!(parse_decimal("-1", 99), None);
}

#[test]
fn numbers_are_read_in_their_base() {
    assert_eq!(parse_number("1F", NumberBase::Hexadecimal, u64::MAX), Some(31));
    assert_eq!(parse_number("1f", NumberBase::Hexadecimal, u64::MAX), Some(31));
    assert_eq!(parse_number("12", NumberBase::Hexadecimal, u64::MAX), Some(18));
    assert_eq!(parse_number("12", NumberBase::Decimal, u64::MAX), Some(12));
    assert_eq!(parse_number("12", NumberBase::Octal, u64::MAX), Some(10));
    assert_eq!(parse_number("12", NumberBase::Binary, u64::MAX), None);
    assert_eq!(parse_number("101", NumberBase::Binary, u64::MAX), Some(5));
    assert_eq!(parse_number("18", NumberBase::Octal, u64::MAX), None);
    assert_eq!(parse_number("1a", NumberBase::Decimal, u64::MAX), None);
    assert_eq!(parse_number("1g", NumberBase::Hexadecimal, u64::MAX), None);
    assert_eq!(parse_number("", NumberBase::Hexadecimal, u64::MAX), None);
    assert_eq!(parse_number("ff", NumberBase::Hexadecimal, 255), Some(255));
    assert_eq!(parse_number("100", NumberBase::Hexadecimal, 255), None);
    assert_eq!(parse_number("ffffffffffffffff", NumberBase::Hexadecimal, u64::MAX), Some(u64::MAX));
    assert_eq!(parse_number("10000000000000000", NumberBase::Hexadecimal, u64::MAX), None);
    assert_eq!(parse_number("1777777777777777777777", NumberBase::Octal, u64::MAX), Some(u64::MAX));
    assert_eq!(parse_number("2000000000000000000000", NumberBase::Octal, u64::MAX), None);
    assert_eq!(parse_number("\u{661}", NumberBase::Decimal, u64::MAX), None);
}

#[test]
fn digits_are_read_as_the_type_of_their_suffix() {
    assert_eq!(read_typed('i', 0, "1F", NumberBase::Hexadecimal), Some(Value::Int(31)));
    assert_eq!(read_typed('i', 8, "7f", NumberBase::Hexadecimal), Some(Value::Int8(127)));
    assert_eq!(read_typed('i', 8, "80", NumberBase::Hexadecimal), None);
    assert_eq!(read_typed('u', 16, "177777", NumberBase::Octal), Some(Value::UInt16(65535)));
    assert_eq!(read_typed('u', 16, "200000", NumberBase::Octal), None);
    assert_eq!(read_typed('i', 32, "12", NumberBase::Decimal), Some(Value::Int32(12)));
    assert_eq!(read_typed('u', 64, "", NumberBase::Decimal), None);
    assert_eq!(read_typed('u', 7, "1", NumberBase::Decimal), None);
    assert_eq!(read_typed('f', 32, "1.5", NumberBase::Decimal), Some(Value::Float32("1.5".to_owned())));
    assert_eq!(read_typed('f', 64, "110", NumberBase::Binary), Some(Value::Double("6".to_owned())));
    assert_eq!(read_typed('d', 64, "10", NumberBase::Octal), Some(Value::Double("8".to_owned())));
    assert_eq!(read_typed('f', 16, "1", NumberBase::Decimal), None);
    assert_eq!(read_typed('x', 0, "1", NumberBase::Decimal), None);
}

#[test]
fn numbers_are_written_in_decimal() {
    assert_eq!(to_decimal(0), "0");
    assert_eq!(to_decimal(7), "7");
    assert_eq!(to_decimal(10), "10");
    assert_eq!(to_decimal(31), "31");
    assert_eq!(to_decimal(1_000_000), "1000000");
    assert_eq!(to_decimal(u64::MAX), "18446744073709551615");
    for number in [0, 9, 10, 99, 100, 12_345, u64::MAX] {
        assert_eq!(parse_decimal(&to_decimal(number), u64::MAX), Some(number));
        assert!(is_float_text(&to_decimal(number)));
    }
}

#[test]
fn float_digits() {
    for text in ["0", "12", "1.5", "1e5", "1E5", "1e+5", "1e-5", "1.25e10", "007.10"] {
        assert!(is_float_text(text), "{text}");
    }
    for text in ["", ".", ".5", "5.", "1e", "1e+", "e5", "1.e5", "1.5.5", "1e5e5", "1f", "+1", "1 "] {
        assert!(!is_float_text(text), "{text}");
    }
}

#[test]
fn suffixes() {
    assert_eq!(parse_suffix("i"), Some(('i', 0)));
    assert_eq!(parse_suffix("u"), Some(('u', 0)));
    assert_eq!(parse_suffix("f"), Some(('f', 32)));
    assert_eq!(parse_suffix("d"), Some(('d', 64)));
    assert_eq!(parse_suffix("i64"), Some(('i', 64)));
    assert_eq!(parse_suffix("u8"), Some(('u', 8)));
    assert_eq!(parse_suffix("f64"), Some(('f', 64)));
    assert_eq!(parse_suffix("u255"), Some(('u', 255)));
    assert_eq!(parse_suffix("u256"), None);
    assert_eq!(parse_suffix("ux"), None);
    assert_eq!(parse_suffix(""), None);
    assert_eq!(parse_suffix("x"), None);
    assert_eq!(parse_suffix("d8"), Some(('d', 64)));
    assert_eq!(parse_suffix("d\u{e9}"), Some(('d', 64)));
    assert_eq!(parse_suffix("u\u{661}"), None);
    assert_eq!(parse_suffix("\u{e9}"), None);
    assert_eq!(parse_suffix("i\u{ff18}"), None);
}

#[test]
fn statements_end_with_line_breaks() {
    let statements = statements("\n\n1\necho 2\n\n\n3 + 4\n");
    assert_eq!(statements.len(), 3);
    assert!(matches!(statements[0], Statement::Expression(_)));
    match &statements[1] {
        Statement::Echo(echo) => {
            assert_eq!(echo.echo_token.as_ref().unwrap().kind, TokenKind::Echo);
            assert_eq!(shape(&echo.expression), "2");
        }
        other => panic!("expected echo, found {:?}", other),
    }
    assert!(matches!(statements[2], Statement::Expression(_)));
    let spans: Vec<Option<Span>> = statements.iter().map(|statement| statement.get_span()).collect();
    assert_eq!(spans[1].unwrap().start, Position { line: 4, column: 1, char_index: 4, offset: 4 });
    assert_eq!(spans[1].unwrap().end, Position { line: 4, column: 7, char_index: 10, offset: 10 });
}

#[test]
fn a_statement_may_follow_another_on_its_line() {
    let statements = statements("1 echo 2");
    assert_eq!(statements.len(), 2);
}

#[test]
fn an_empty_source_has_no_statement() {
    assert_eq!(statements("").len(), 0);
    assert_eq!(statements("\n\n").len(), 0);
    let module = parse("", true).unwrap();
    assert_eq!(module.statements.len(), 1);
    assert_eq!(module.get_span(), None);
}

#[test]
fn a_main_module_is_one_function() {
    let module = parse("1+2\necho 3", true).unwrap();
    assert_eq!(module.id, "mabel://stdin");
    assert_eq!(module.statements.len(), 1);
    let function = match *module.statements.into_iter().next().unwrap() {
        Statement::FunctionDeclaration(function) => function,
        other => panic!("expected a function, found {:?}", other),
    };
    let keyword = function.function_token.clone().unwrap();
    assert_eq!(keyword.kind, TokenKind::Function);
    assert_eq!(keyword.lexeme, "func");
    assert_eq!(keyword.span, Span { start: at(0), end: at(3) });
    assert_eq!(keyword.source_id, "mabel://stdin");
    let name = function.name.clone().unwrap();
    assert_eq!(name.kind, TokenKind::Identifier);
    assert_eq!(name.lexeme, "main");
    assert_eq!(name.span, Span::default());
    assert!(function.left_paren_token.is_none());
    assert!(function.right_paren_token.is_none());
    assert!(function.parameters.is_empty());
    assert_eq!(function.body.len(), 2);
    assert_eq!(
        function.get_span(),
        Some(Span {
            start: at(0),
            end: Position { line: 2, column: 7, char_index: 10, offset: 10 }
        })
    );
}

#[test]
fn another_module_keeps_its_statements() {
    let module = parse("1+2\necho 3", false).unwrap();
    assert_eq!(module.id, "mabel://stdin");
    assert_eq!(module.statements.len(), 2);
    assert_eq!(
        module.get_span(),
        Some(Span {
            start: at(0),
            end: Position { line: 2, column: 7, char_index: 10, offset: 10 }
        })
    );
}

#[test]
fn spans_reach_from_the_first_to_the_last_token() {
    assert_eq!(expression("1 + 2 * 3").get_span(), Some(Span { start: at(0), end: at(9) }));
    assert_eq!(expression("-(1)").get_span(), Some(Span { start: at(0), end: at(4) }));
}

#[test]
fn the_first_diagnostic_ends_parsing() {
    let error = error_of("1 +\n+ 2 )");
    assert_eq!(error.location, Location::Span(Span { start: at(3), end: Position { line: 2, column: 1, char_index: 4, offset: 4 } }));
}
