//! What parsing means, stated over the contents of tokens.
//!
//! Expressions are read by precedence climbing. A token that can begin
//! an expression has a prefix rule, a token that can continue one an
//! infix rule with a precedence and an associativity. After a prefix
//! expression, infix operators are taken while they bind at least as
//! strongly as asked for.

use crate::ast::{
    BinaryOperator, ExpressionView, FunctionDeclView, LiteralExprView, ModuleView, StatementView,
    UnaryOperator, statement_span,
};
use crate::message::MessageView;
use crate::parser::literal::literal_value;
use crate::span::{Location, Span};
use crate::token::{token_description, LiteralTokenKind, TokenKind, TokenView};
use vstd::prelude::*;

verus! {

/// The codes of the parser's diagnostics.
#[derive(Debug, Clone, Copy, PartialEq, Eq, Structural)]
pub enum ParserErrorCode {
    /// A token stands where an expression was to be read.
    ExpectedExpression,
}

/// The mathematical content of a parser diagnostic.
pub ghost struct ParserErrorView {
    pub code: ParserErrorCode,
    pub message: MessageView,
    pub hint: Option<MessageView>,
    pub location: Location,
    pub source_id: Seq<char>,
}

/// How strongly an operator binds, from the weakest to the strongest.
#[derive(Debug, Clone, Copy, PartialEq, Eq, Structural)]
pub enum Precedence {
    /// No operator.
    Lowest,
    /// `+` and `-`.
    Term,
    /// `*`, `/` and `%`.
    Factor,
    /// `-` before its operand.
    Unary,
    /// `**`.
    Exponent,
    /// Literals and parentheses.
    Primary,
}

impl Precedence {
    /// The rank of the precedence, from 0 for none to 5 for primary.
    pub open spec fn level(self) -> int {
        match self {
            Precedence::Lowest => 0,
            Precedence::Term => 1,
            Precedence::Factor => 2,
            Precedence::Unary => 3,
            Precedence::Exponent => 4,
            Precedence::Primary => 5,
        }
    }

    /// The precedence one rank above; the strongest stays what it is.
    pub open spec fn next(self) -> Precedence {
        match self {
            Precedence::Lowest => Precedence::Term,
            Precedence::Term => Precedence::Factor,
            Precedence::Factor => Precedence::Unary,
            Precedence::Unary => Precedence::Exponent,
            Precedence::Exponent => Precedence::Primary,
            Precedence::Primary => Precedence::Primary,
        }
    }
}

/// To which side operators of the same precedence group.
#[derive(Debug, Clone, Copy, PartialEq, Eq, Structural)]
pub enum Associativity {
    /// The token is no operator.
    Neither,
    /// `a - b - c` is `(a - b) - c`.
    Left,
    /// `a ** b ** c` is `a ** (b ** c)`.
    Right,
}

/// The ways in which a token begins an expression.
#[derive(Debug, Clone, Copy, PartialEq, Eq, Structural)]
pub enum PrefixHandler {
    /// An operator before its operand.
    Unary,
    /// An expression in parentheses.
    Grouping,
    /// A literal.
    Literal,
}

/// The ways in which a token continues an expression.
#[derive(Debug, Clone, Copy, PartialEq, Eq, Structural)]
pub enum InfixHandler {
    /// An operator between its operands.
    Binary,
}

/// What the parser does with a token of a kind.
#[derive(Debug, Clone, Copy, PartialEq, Eq, Structural)]
pub struct ParseRule {
    /// How the token begins an expression, if it does.
    pub prefix_fn: Option<PrefixHandler>,
    /// How the token continues an expression, if it does.
    pub infix_fn: Option<InfixHandler>,
    /// How strongly the token binds where it continues an expression.
    pub precedence: Precedence,
    /// To which side the token groups.
    pub associativity: Associativity,
}

/// The rule of a kind of token.
pub open spec fn parse_rule(kind: TokenKind) -> ParseRule {
    match kind {
        TokenKind::Add => ParseRule {
            prefix_fn: None,
            infix_fn: Some(InfixHandler::Binary),
            precedence: Precedence::Term,
            associativity: Associativity::Left,
        },
        TokenKind::SubtractOrNegate => ParseRule {
            prefix_fn: Some(PrefixHandler::Unary),
            infix_fn: Some(InfixHandler::Binary),
            precedence: Precedence::Term,
            associativity: Associativity::Left,
        },
        TokenKind::Multiply | TokenKind::Divide | TokenKind::Modulo => ParseRule {
            prefix_fn: None,
            infix_fn: Some(InfixHandler::Binary),
            precedence: Precedence::Factor,
            associativity: Associativity::Left,
        },
        TokenKind::Exponent => ParseRule {
            prefix_fn: None,
            infix_fn: Some(InfixHandler::Binary),
            precedence: Precedence::Exponent,
            associativity: Associativity::Right,
        },
        TokenKind::LeftParen => ParseRule {
            prefix_fn: Some(PrefixHandler::Grouping),
            infix_fn: None,
            precedence: Precedence::Primary,
            associativity: Associativity::Neither,
        },
        TokenKind::Literal { .. } => ParseRule {
            prefix_fn: Some(PrefixHandler::Literal),
            infix_fn: None,
            precedence: Precedence::Primary,
            associativity: Associativity::Neither,
        },
        _ => ParseRule {
            prefix_fn: None,
            infix_fn: None,
            precedence: Precedence::Lowest,
            associativity: Associativity::Neither,
        },
    }
}

/// The operator that a token of a kind stands for between two operands.
pub open spec fn binary_operator(kind: TokenKind) -> BinaryOperator {
    match kind {
        TokenKind::Add => BinaryOperator::Add,
        TokenKind::SubtractOrNegate => BinaryOperator::Subtract,
        TokenKind::Multiply => BinaryOperator::Multiply,
        TokenKind::Divide => BinaryOperator::Divide,
        TokenKind::Modulo => BinaryOperator::Modulo,
        _ => BinaryOperator::Exponent,
    }
}

/// The precedence at which the right operand of an operator is read:
/// its own for an operator that groups to the right, else the next.
pub open spec fn right_operand_precedence(rule: ParseRule) -> Precedence {
    if rule.associativity == Associativity::Right {
        rule.precedence
    } else {
        rule.precedence.next()
    }
}

/// The message that an expression was expected where a token stands.
pub open spec fn expected_expression_message(token: TokenView) -> MessageView {
    MessageView::Joined(
        Box::new(MessageView::Text("expected an expression, found "@)),
        Box::new(token_description(token, 1, "lowercase"@, None, true, true)),
    )
}

/// The diagnostic that an expression was expected where a token stands.
pub open spec fn expected_expression(token: TokenView, source_id: Seq<char>) -> ParserErrorView {
    ParserErrorView {
        code: ParserErrorCode::ExpectedExpression,
        message: expected_expression_message(token),
        hint: None,
        location: Location::Span(token.span),
        source_id,
    }
}

/// Tokens that the parser takes: there is one at least, and the last
/// is the end of input.
pub open spec fn parsable(tokens: Seq<TokenView>) -> bool {
    tokens.len() > 0 && tokens.last().kind == TokenKind::EndOfInput
}

/// The token at a position; a position behind the tokens stands for
/// the last of them.
pub open spec fn token_at(tokens: Seq<TokenView>, position: int) -> TokenView {
    if 0 <= position < tokens.len() {
        tokens[position]
    } else if tokens.len() > 0 {
        tokens.last()
    } else {
        arbitrary()
    }
}

/// What reading something from a position on comes to: what was read and
/// the position behind it, or a diagnostic.
pub type Parsed<T> = Result<(T, int), ParserErrorView>;

/// The literal expression of a token, or the diagnostic where the token
/// has no value.
pub open spec fn literal_expression(token: TokenView, source_id: Seq<char>) -> Result<
    ExpressionView,
    ParserErrorView,
> {
    match literal_value(token) {
        Some(value) => Ok(ExpressionView::Literal(LiteralExprView { value, token: Some(token) })),
        None => Err(expected_expression(token, source_id)),
    }
}

/// Reads an expression that begins at `position` and whose operators
/// bind at least as strongly as `precedence`.
///
/// The token at `position` must begin an expression. A literal is its
/// value. `-` takes the expression behind it, at unary precedence, as
/// its operand. `(` takes an expression and the token behind it as the
/// closing parenthesis, which must not be the end of input. What was
/// read is then continued by infix operators. (An operand is read behind
/// its operator, so the places compared below always stand in order.)
pub open spec fn expression_at(
    tokens: Seq<TokenView>,
    source_id: Seq<char>,
    position: int,
    precedence: Precedence,
) -> Parsed<ExpressionView>
    decreases tokens.len() - position, 1int,
{
    if !(0 <= position < tokens.len()) {
        Err(expected_expression(token_at(tokens, position), source_id))
    } else {
        let token = tokens[position];
        match parse_rule(token.kind).prefix_fn {
            None => Err(expected_expression(token, source_id)),
            Some(PrefixHandler::Literal) => match literal_expression(token, source_id) {
                Ok(literal) => continued(tokens, source_id, position + 1, literal, precedence),
                Err(error) => Err(error),
            },
            Some(PrefixHandler::Unary) => match expression_at(
                tokens,
                source_id,
                position + 1,
                Precedence::Unary,
            ) {
                Ok((right, next)) => if position < next <= tokens.len() {
                    continued(
                        tokens,
                        source_id,
                        next,
                        ExpressionView::Unary {
                            operator: UnaryOperator::Negate,
                            operator_token: Some(token),
                            right: Box::new(right),
                        },
                        precedence,
                    )
                } else {
                    Err(expected_expression(token, source_id))
                },
                Err(error) => Err(error),
            },
            Some(PrefixHandler::Grouping) => match expression_at(
                tokens,
                source_id,
                position + 1,
                Precedence::Term,
            ) {
                Ok((inner, next)) => if position < next < tokens.len() && tokens[next].kind
                    != TokenKind::EndOfInput {
                    continued(
                        tokens,
                        source_id,
                        next + 1,
                        ExpressionView::Grouping {
                            left_paren_token: Some(token),
                            expression: Box::new(inner),
                            right_paren_token: Some(tokens[next]),
                        },
                        precedence,
                    )
                } else {
                    Err(expected_expression(token_at(tokens, next), source_id))
                },
                Err(error) => Err(error),
            },
        }
    }
}

/// Continues an expression that ends before `position`: while the token
/// there binds at least as strongly as `precedence`, it is taken as an
/// operator between what was read and the expression behind it. A token
/// that binds so but is no operator is a diagnostic.
pub open spec fn continued(
    tokens: Seq<TokenView>,
    source_id: Seq<char>,
    position: int,
    left: ExpressionView,
    precedence: Precedence,
) -> Parsed<ExpressionView>
    decreases tokens.len() - position, 0int,
{
    if !(0 <= position < tokens.len()) {
        Err(expected_expression(token_at(tokens, position), source_id))
    } else {
        let token = tokens[position];
        let rule = parse_rule(token.kind);
        if precedence.level() > rule.precedence.level() {
            Ok((left, position))
        } else {
            match rule.infix_fn {
                None => Err(expected_expression(token, source_id)),
                Some(InfixHandler::Binary) => match expression_at(
                    tokens,
                    source_id,
                    position + 1,
                    right_operand_precedence(rule),
                ) {
                    Ok((right, next)) => if position < next <= tokens.len() {
                        continued(
                            tokens,
                            source_id,
                            next,
                            ExpressionView::Binary {
                                left: Box::new(left),
                                operator: binary_operator(token.kind),
                                operator_token: Some(token),
                                right: Box::new(right),
                            },
                            precedence,
                        )
                    } else {
                        Err(expected_expression(token, source_id))
                    },
                    Err(error) => Err(error),
                },
            }
        }
    }
}

/// Where the run of line breaks ends that begins at `position`.
pub open spec fn newlines_end(tokens: Seq<TokenView>, position: int) -> int
    decreases tokens.len() - position,
{
    if 0 <= position < tokens.len() && tokens[position].kind == TokenKind::NewLine {
        newlines_end(tokens, position + 1)
    } else {
        position
    }
}

/// Reads the statement that begins at `position`: `echo` with an
/// expression, or an expression alone.
pub open spec fn statement_at(tokens: Seq<TokenView>, source_id: Seq<char>, position: int) -> Parsed<
    StatementView<ExpressionView>,
> {
    if 0 <= position < tokens.len() && tokens[position].kind == TokenKind::Echo {
        match expression_at(tokens, source_id, position + 1, Precedence::Term) {
            Ok((expression, next)) => Ok(
                (
                    StatementView::Echo { echo_token: Some(tokens[position]), expression },
                    next,
                ),
            ),
            Err(error) => Err(error),
        }
    } else {
        match expression_at(tokens, source_id, position, Precedence::Term) {
            Ok((expression, next)) => Ok((StatementView::Expression { expression }, next)),
            Err(error) => Err(error),
        }
    }
}

/// Reads the statements from `position` up to the end of input. Line
/// breaks behind a statement end it and are passed over.
pub open spec fn statements_from(
    tokens: Seq<TokenView>,
    source_id: Seq<char>,
    position: int,
) -> Result<Seq<StatementView<ExpressionView>>, ParserErrorView>
    decreases tokens.len() - position,
{
    if !(0 <= position < tokens.len()) || tokens[position].kind == TokenKind::EndOfInput {
        Ok(Seq::empty())
    } else {
        match statement_at(tokens, source_id, position) {
            Err(error) => Err(error),
            Ok((statement, next)) => {
                let after = newlines_end(tokens, next);
                if position < after <= tokens.len() {
                    match statements_from(tokens, source_id, after) {
                        Ok(rest) => Ok(seq![statement] + rest),
                        Err(error) => Err(error),
                    }
                } else {
                    Ok(Seq::empty())
                }
            },
        }
    }
}

/// The token of the keyword before the function that wraps the
/// statements of a main module; it stands where the first statement
/// stands, if its ends are known.
pub open spec fn main_function_token(
    source_id: Seq<char>,
    statements: Seq<StatementView<ExpressionView>>,
) -> TokenView {
    TokenView {
        kind: TokenKind::Function,
        span: if statements.len() > 0 && statement_span(statements.first()) is Some {
            statement_span(statements.first())->0
        } else {
            Span::empty_at_origin()
        },
        lexeme: "func"@,
        source_id,
    }
}

/// The function `main` that wraps the statements of a main module.
pub open spec fn main_function(
    source_id: Seq<char>,
    statements: Seq<StatementView<ExpressionView>>,
) -> StatementView<ExpressionView> {
    StatementView::FunctionDeclaration(
        FunctionDeclView {
            function_token: Some(main_function_token(source_id, statements)),
            name: Some(
                TokenView {
                    kind: TokenKind::Identifier,
                    span: Span::empty_at_origin(),
                    lexeme: "main"@,
                    source_id,
                },
            ),
            left_paren_token: None,
            parameters: Seq::empty(),
            right_paren_token: None,
            body: statements,
        },
    )
}

/// The module of a sequence of tokens. Line breaks at the beginning are
/// passed over. The statements of a main module are wrapped in one
/// function, `main`.
pub open spec fn module_of(
    tokens: Seq<TokenView>,
    source_id: Seq<char>,
    is_main_module: bool,
) -> Result<ModuleView<ExpressionView>, ParserErrorView> {
    match statements_from(tokens, source_id, newlines_end(tokens, 0)) {
        Err(error) => Err(error),
        Ok(statements) => Ok(
            ModuleView {
                id: source_id,
                statements: if is_main_module {
                    seq![main_function(source_id, statements)]
                } else {
                    statements
                },
            },
        ),
    }
}

} // verus!
