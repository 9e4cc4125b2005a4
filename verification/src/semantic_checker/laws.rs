//! Facts about the checker's model.

use crate::annotated_ast::AnnotatedExpressionView;
use crate::ast::ExpressionView;
use crate::data_type::{lemma_binary_result_numeric, DataTypeView};
use crate::semantic_checker::model::{
    checked_expression, invalid_negation, invalid_operands, SemanticCheckerErrorCode,
};
use crate::diagnostic::LabelStyle;
use crate::span::Span;
use crate::token::TokenView;
use vstd::prelude::*;

verus! {

/// Every expression that passes the checker has a numeric type.
pub proof fn lemma_checked_type_is_numeric(expression: ExpressionView, source_id: Seq<char>)
    ensures
        checked_expression(expression, source_id) matches Ok(checked)
            ==> checked.data_type().is_numeric(),
    decreases expression,
{
    match expression {
        ExpressionView::Literal(literal) => {},
        ExpressionView::Grouping { left_paren_token, expression, right_paren_token } => {
            lemma_checked_type_is_numeric(*expression, source_id);
        },
        ExpressionView::Unary { operator, operator_token, right } => {
            lemma_checked_type_is_numeric(*right, source_id);
        },
        ExpressionView::Binary { left, operator, operator_token, right } => {
            lemma_checked_type_is_numeric(*left, source_id);
            lemma_checked_type_is_numeric(*right, source_id);
            match (checked_expression(*left, source_id), checked_expression(*right, source_id)) {
                (Ok(left_operand), Ok(right_operand)) => {
                    if left_operand.data_type().binary_result(right_operand.data_type()) is Some {
                        lemma_binary_result_numeric(
                            left_operand.data_type(),
                            right_operand.data_type(),
                        );
                    }
                },
                _ => {},
            }
        },
    }
}

/// Every diagnostic of the checker is about an invalid operand of the
/// source that is checked, and has a hint and at most three labels.
pub proof fn lemma_diagnostic_shape(expression: ExpressionView, source_id: Seq<char>)
    ensures
        checked_expression(expression, source_id) matches Err(error) ==> {
            &&& error.code == SemanticCheckerErrorCode::InvalidOperand
            &&& error.source_id == source_id
            &&& error.hint is Some
            &&& error.labels.len() <= 3
        },
    decreases expression,
{
    match expression {
        ExpressionView::Literal(literal) => {},
        ExpressionView::Grouping { left_paren_token, expression, right_paren_token } => {
            lemma_diagnostic_shape(*expression, source_id);
        },
        ExpressionView::Unary { operator, operator_token, right } => {
            lemma_diagnostic_shape(*right, source_id);
        },
        ExpressionView::Binary { left, operator, operator_token, right } => {
            lemma_diagnostic_shape(*left, source_id);
            lemma_diagnostic_shape(*right, source_id);
        },
    }
}

/// The diagnostic for two operands that do not go together has three
/// labels where the operator's token and both spans are known: the
/// operator, the left operand and, as the only primary one, the right
/// operand.
pub proof fn lemma_three_labels(
    operator_token: TokenView,
    left_span: Span,
    right_span: Span,
    left_type: DataTypeView,
    right_type: DataTypeView,
    source_id: Seq<char>,
)
    ensures
        ({
            let labels = invalid_operands(
                Some(operator_token),
                Some(left_span),
                Some(right_span),
                left_type,
                right_type,
                source_id,
            ).labels;
            &&& labels.len() == 3
            &&& labels[0].0 == LabelStyle::Secondary
            &&& labels[0].1 == crate::span::Location::Span(operator_token.span)
            &&& labels[1].0 == LabelStyle::Secondary
            &&& labels[1].1 == crate::span::Location::Span(left_span)
            &&& labels[2].0 == LabelStyle::Primary
            &&& labels[2].1 == crate::span::Location::Span(right_span)
        }),
{
}

/// The diagnostic for an operand that `-` does not take has two labels
/// where the operator's token and the operand's span are known: the
/// operator and, as the primary one, the operand.
pub proof fn lemma_two_labels(
    operator_token: TokenView,
    operand_span: Span,
    operand_type: DataTypeView,
    source_id: Seq<char>,
)
    ensures
        ({
            let labels = invalid_negation(
                Some(operator_token),
                Some(operand_span),
                operand_type,
                source_id,
            ).labels;
            &&& labels.len() == 2
            &&& labels[0].0 == LabelStyle::Secondary
            &&& labels[0].1 == crate::span::Location::Span(operator_token.span)
            &&& labels[1].0 == LabelStyle::Primary
            &&& labels[1].1 == crate::span::Location::Span(operand_span)
        }),
{
}

} // verus!
