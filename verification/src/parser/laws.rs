//! Facts about the parser's model.

use crate::ast::ExpressionView;
use crate::parser::model::{
    continued, expression_at, newlines_end, parsable, parse_rule, statement_at, Precedence,
};
use crate::token::{TokenKind, TokenView};
use vstd::prelude::*;

verus! {

/// An expression that is read covers one token at least, ends before
/// the end of input, and its span is known.
pub proof fn lemma_expression_read(
    tokens: Seq<TokenView>,
    source_id: Seq<char>,
    position: int,
    precedence: Precedence,
)
    requires
        parsable(tokens),
        0 <= position < tokens.len(),
    ensures
        expression_at(tokens, source_id, position, precedence) matches Ok((expression, next))
            ==> position < next < tokens.len() && expression.span() is Some,
    decreases tokens.len() - position, 1int,
{
    let token = tokens[position];
    if parse_rule(token.kind).prefix_fn is Some && position + 1 < tokens.len() {
        lemma_expression_read(tokens, source_id, position + 1, Precedence::Unary);
        lemma_expression_read(tokens, source_id, position + 1, Precedence::Term);
        match expression_at(tokens, source_id, position, precedence) {
            Ok((expression, next)) => {
                lemma_expression_continued_everywhere(tokens, source_id, position, precedence);
            },
            Err(_) => {},
        }
    }
}

/// What continues the prefix expression at a position is itself well
/// behaved, whatever the prefix is; a step of
/// [`lemma_expression_read`].
proof fn lemma_expression_continued_everywhere(
    tokens: Seq<TokenView>,
    source_id: Seq<char>,
    position: int,
    precedence: Precedence,
)
    requires
        parsable(tokens),
        0 <= position < tokens.len() - 1,
        parse_rule(tokens[position].kind).prefix_fn is Some,
        expression_at(tokens, source_id, position + 1, Precedence::Unary) matches Ok(
            (expression, next),
        ) ==> position + 1 < next < tokens.len() && expression.span() is Some,
        expression_at(tokens, source_id, position + 1, Precedence::Term) matches Ok(
            (expression, next),
        ) ==> position + 1 < next < tokens.len() && expression.span() is Some,
    ensures
        expression_at(tokens, source_id, position, precedence) matches Ok((expression, next))
            ==> position < next < tokens.len() && expression.span() is Some,
    decreases tokens.len() - position, 0int,
{
    let token = tokens[position];
    match parse_rule(token.kind).prefix_fn {
        Some(crate::parser::model::PrefixHandler::Literal) => {
            match crate::parser::model::literal_expression(token, source_id) {
                Ok(literal) => {
                    lemma_continued(tokens, source_id, position + 1, literal, precedence);
                },
                Err(_) => {},
            }
        },
        Some(crate::parser::model::PrefixHandler::Unary) => {
            match expression_at(tokens, source_id, position + 1, Precedence::Unary) {
                Ok((right, next)) => {
                    lemma_continued(
                        tokens,
                        source_id,
                        next,
                        ExpressionView::Unary {
                            operator: crate::ast::UnaryOperator::Negate,
                            operator_token: Some(token),
                            right: Box::new(right),
                        },
                        precedence,
                    );
                },
                Err(_) => {},
            }
        },
        Some(crate::parser::model::PrefixHandler::Grouping) => {
            match expression_at(tokens, source_id, position + 1, Precedence::Term) {
                Ok((inner, next)) => {
                    if tokens[next].kind != TokenKind::EndOfInput {
                        lemma_continued(
                            tokens,
                            source_id,
                            next + 1,
                            ExpressionView::Grouping {
                                left_paren_token: Some(token),
                                expression: Box::new(inner),
                                right_paren_token: Some(tokens[next]),
                            },
                            precedence,
                        );
                    }
                },
                Err(_) => {},
            }
        },
        None => {},
    }
}

/// An expression that is continued ends at or behind the place where
/// it ended before, and before the end of input; its span stays known.
pub proof fn lemma_continued(
    tokens: Seq<TokenView>,
    source_id: Seq<char>,
    position: int,
    left: ExpressionView,
    precedence: Precedence,
)
    requires
        parsable(tokens),
        0 <= position < tokens.len(),
        left.span() is Some,
    ensures
        continued(tokens, source_id, position, left, precedence) matches Ok((expression, next))
            ==> position <= next < tokens.len() && expression.span() is Some,
    decreases tokens.len() - position, 2int,
{
    let token = tokens[position];
    let rule = parse_rule(token.kind);
    if precedence.level() <= rule.precedence.level() && rule.infix_fn is Some {
        let operand_precedence = crate::parser::model::right_operand_precedence(rule);
        lemma_expression_read(tokens, source_id, position + 1, operand_precedence);
        match expression_at(tokens, source_id, position + 1, operand_precedence) {
            Ok((right, next)) => {
                lemma_continued(
                    tokens,
                    source_id,
                    next,
                    ExpressionView::Binary {
                        left: Box::new(left),
                        operator: crate::parser::model::binary_operator(token.kind),
                        operator_token: Some(token),
                        right: Box::new(right),
                    },
                    precedence,
                );
            },
            Err(_) => {},
        }
    }
}

/// The run of line breaks behind a place ends before the end of input.
pub proof fn lemma_newlines_end(tokens: Seq<TokenView>, position: int)
    requires
        parsable(tokens),
        0 <= position < tokens.len(),
    ensures
        position <= newlines_end(tokens, position) < tokens.len(),
    decreases tokens.len() - position,
{
    if tokens[position].kind == TokenKind::NewLine {
        lemma_newlines_end(tokens, position + 1);
    }
}

/// A statement that is read covers one token at least and ends before
/// the end of input.
pub proof fn lemma_statement_read(tokens: Seq<TokenView>, source_id: Seq<char>, position: int)
    requires
        parsable(tokens),
        0 <= position < tokens.len(),
    ensures
        statement_at(tokens, source_id, position) matches Ok((statement, next)) ==> position
            < next < tokens.len(),
{
    if tokens[position].kind == TokenKind::Echo {
        lemma_expression_read(tokens, source_id, position + 1, Precedence::Term);
    } else {
        lemma_expression_read(tokens, source_id, position, Precedence::Term);
    }
}

} // verus!
