//! What checking means, stated over the contents of the syntax tree.
//!
//! The checker gives every expression a type. A literal has the type of
//! its value, a grouping the type of what it holds. `-` takes a signed
//! integer or a float and keeps its type. An operator between two
//! operands takes operands that go together and has the type they come
//! to. The first operand that does not fit is a diagnostic.

use crate::annotated_ast::{AnnotatedExpressionView, AnnotatedModuleView, AnnotatedStatementView};
use crate::ast::{ExpressionView, ModuleView, StatementView, ValueView};
use crate::data_type::{DataTypeView, KnownDataType};
use crate::diagnostic::{LabelStyle, LabelView};
use crate::message::{entry, message_arg, MessageView};
use crate::span::{Location, Span};
use crate::token::{token_description, TokenView};
use vstd::prelude::*;

verus! {

/// The codes of the checker's diagnostics.
#[derive(Debug, Clone, Copy, PartialEq, Eq, Structural)]
pub enum SemanticCheckerErrorCode {
    /// An operand that its operator does not take.
    InvalidOperand,
}

/// The mathematical content of a checker diagnostic.
pub ghost struct SemanticCheckerErrorView {
    pub code: SemanticCheckerErrorCode,
    pub message: MessageView,
    pub hint: Option<MessageView>,
    pub labels: Seq<LabelView>,
    pub source_id: Seq<char>,
}

/// The type of a literal's value.
pub open spec fn value_type(value: ValueView) -> KnownDataType {
    match value {
        ValueView::UInt8(_) => KnownDataType::UInt8,
        ValueView::UInt16(_) => KnownDataType::UInt16,
        ValueView::UInt32(_) => KnownDataType::UInt32,
        ValueView::UInt64(_) => KnownDataType::UInt64,
        ValueView::Int8(_) => KnownDataType::Int8,
        ValueView::Int16(_) => KnownDataType::Int16,
        ValueView::Int32(_) => KnownDataType::Int32,
        ValueView::Int64(_) => KnownDataType::Int64,
        ValueView::Int(_) => KnownDataType::Int,
        ValueView::UInt(_) => KnownDataType::UInt,
        ValueView::Float32(_) => KnownDataType::Float32,
        ValueView::Double(_) => KnownDataType::Double,
    }
}

/// Whether `-` takes an operand of a type: a signed integer or a float.
pub open spec fn negatable(data_type: DataTypeView) -> bool {
    data_type.is_floating_point() || data_type.is_signed_integer()
}

/// How a diagnostic names an operator: by the description of its
/// token, or by an entry of the catalogue where the token is missing.
pub open spec fn operator_description(token: Option<TokenView>, fallback: Seq<char>) -> MessageView {
    match token {
        Some(token) => token_description(token, 1, "lowercase"@, None, false, true),
        None => entry(fallback, Seq::empty()),
    }
}

/// The label of an operator, if its token is there.
pub open spec fn operator_label(token: Option<TokenView>, fallback: Seq<char>) -> Seq<LabelView> {
    match token {
        Some(token) => seq![
            (
                LabelStyle::Secondary,
                Location::Span(token.span),
                operator_description(Some(token), fallback),
            ),
        ],
        None => Seq::empty(),
    }
}

/// The label of an operand, if its span is known: it names the
/// operand's type.
pub open spec fn operand_label(
    style: LabelStyle,
    span: Option<Span>,
    data_type: DataTypeView,
) -> Seq<LabelView> {
    match span {
        Some(span) => seq![
            (style, Location::Span(span), data_type.description(1, "lowercase"@, None, false)),
        ],
        None => Seq::empty(),
    }
}

/// The message of every diagnostic about an operand: it names the
/// operator.
pub open spec fn invalid_operand_message(operator: MessageView) -> MessageView {
    entry(
        "semantic-checker-error-invalid-operand.message"@,
        seq![message_arg("operator"@, operator)],
    )
}

/// The diagnostic for an operand that `-` does not take. Its labels are
/// the operator and, as the primary one, the operand; its hint names
/// the operand's type.
pub open spec fn invalid_negation(
    operator_token: Option<TokenView>,
    operand_span: Option<Span>,
    operand_type: DataTypeView,
    source_id: Seq<char>,
) -> SemanticCheckerErrorView {
    let fallback = "semantic-checker-error-invalid-operand.negate-operator"@;
    let operator = operator_description(operator_token, fallback);
    SemanticCheckerErrorView {
        code: SemanticCheckerErrorCode::InvalidOperand,
        message: invalid_operand_message(operator),
        hint: Some(
            entry(
                "semantic-checker-error-invalid-operand.negate-hint"@,
                seq![
                    message_arg(
                        "data_type"@,
                        operand_type.description(1, "uppercase"@, None, true),
                    ),
                    message_arg("operator"@, operator),
                ],
            ),
        ),
        labels: operator_label(operator_token, fallback) + operand_label(
            LabelStyle::Primary,
            operand_span,
            operand_type,
        ),
        source_id,
    }
}

/// The diagnostic for two operands that do not go together. Its labels
/// are the operator, the left operand and, as the primary one, the right
/// operand; its hint names both types.
pub open spec fn invalid_operands(
    operator_token: Option<TokenView>,
    left_span: Option<Span>,
    right_span: Option<Span>,
    left_type: DataTypeView,
    right_type: DataTypeView,
    source_id: Seq<char>,
) -> SemanticCheckerErrorView {
    let fallback = "semantic-checker-error-invalid-operand.binary-operator"@;
    let operator = operator_description(operator_token, fallback);
    SemanticCheckerErrorView {
        code: SemanticCheckerErrorCode::InvalidOperand,
        message: invalid_operand_message(operator),
        hint: Some(
            entry(
                "semantic-checker-error-invalid-operand.binary-hint"@,
                seq![
                    message_arg("data_type1"@, left_type.description(1, "uppercase"@, None, true)),
                    message_arg("data_type2"@, right_type.description(1, "lowercase"@, None, true)),
                    message_arg("operator"@, operator),
                ],
            ),
        ),
        labels: operator_label(operator_token, fallback) + operand_label(
            LabelStyle::Secondary,
            left_span,
            left_type,
        ) + operand_label(LabelStyle::Primary, right_span, right_type),
        source_id,
    }
}

/// The type of `-` before an operand of a type, or the diagnostic.
pub open spec fn negation_type(
    operator_token: Option<TokenView>,
    operand_span: Option<Span>,
    operand_type: DataTypeView,
    source_id: Seq<char>,
) -> Result<DataTypeView, SemanticCheckerErrorView> {
    if negatable(operand_type) {
        Ok(operand_type)
    } else {
        Err(invalid_negation(operator_token, operand_span, operand_type, source_id))
    }
}

/// The type of an arithmetic operator between operands of two types,
/// or the diagnostic.
pub open spec fn arithmetic_type(
    operator_token: Option<TokenView>,
    left_span: Option<Span>,
    right_span: Option<Span>,
    left_type: DataTypeView,
    right_type: DataTypeView,
    source_id: Seq<char>,
) -> Result<DataTypeView, SemanticCheckerErrorView> {
    match left_type.binary_result(right_type) {
        Some(data_type) => Ok(data_type),
        None => Err(
            invalid_operands(
                operator_token,
                left_span,
                right_span,
                left_type,
                right_type,
                source_id,
            ),
        ),
    }
}

/// The expression with types, or the first diagnostic. Operands are
/// checked from left to right, before their operator.
pub open spec fn checked_expression(expression: ExpressionView, source_id: Seq<char>) -> Result<
    AnnotatedExpressionView,
    SemanticCheckerErrorView,
>
    decreases expression,
{
    match expression {
        ExpressionView::Literal(literal) => Ok(
            AnnotatedExpressionView::Literal {
                inner: literal,
                data_type: DataTypeView::Known(value_type(literal.value)),
            },
        ),
        ExpressionView::Grouping { left_paren_token, expression, right_paren_token } => {
            checked_expression(*expression, source_id)
        },
        ExpressionView::Unary { operator, operator_token, right } => match checked_expression(
            *right,
            source_id,
        ) {
            Err(error) => Err(error),
            Ok(operand) => match negation_type(
                operator_token,
                right.span(),
                operand.data_type(),
                source_id,
            ) {
                Err(error) => Err(error),
                Ok(data_type) => Ok(
                    AnnotatedExpressionView::Unary {
                        operator,
                        operator_token,
                        right: Box::new(operand),
                        data_type,
                    },
                ),
            },
        },
        ExpressionView::Binary { left, operator, operator_token, right } => match checked_expression(
            *left,
            source_id,
        ) {
            Err(error) => Err(error),
            Ok(left_operand) => match checked_expression(*right, source_id) {
                Err(error) => Err(error),
                Ok(right_operand) => match arithmetic_type(
                    operator_token,
                    left.span(),
                    right.span(),
                    left_operand.data_type(),
                    right_operand.data_type(),
                    source_id,
                ) {
                    Err(error) => Err(error),
                    Ok(data_type) => Ok(
                        AnnotatedExpressionView::Binary {
                            left: Box::new(left_operand),
                            operator,
                            operator_token,
                            right: Box::new(right_operand),
                            data_type,
                        },
                    ),
                },
            },
        },
    }
}

/// The statement with types, or the first diagnostic. A statement has
/// no type of its own.
pub open spec fn checked_statement(
    statement: StatementView<ExpressionView>,
    source_id: Seq<char>,
) -> Result<AnnotatedStatementView, SemanticCheckerErrorView>
    decreases statement, 0int,
{
    match statement {
        StatementView::Expression { expression } => match checked_expression(
            expression,
            source_id,
        ) {
            Err(error) => Err(error),
            Ok(expression) => Ok(AnnotatedStatementView::Expression { expression, data_type: None }),
        },
        StatementView::Echo { echo_token, expression } => match checked_expression(
            expression,
            source_id,
        ) {
            Err(error) => Err(error),
            Ok(expression) => Ok(
                AnnotatedStatementView::Echo { echo_token, expression, data_type: None },
            ),
        },
        StatementView::FunctionDeclaration(function) => match checked_statements(
            function.body,
            function.body.len() as int,
            source_id,
        ) {
            Err(error) => Err(error),
            Ok(body) => Ok(
                AnnotatedStatementView::FunctionDecl {
                    function_token: function.function_token,
                    name: function.name,
                    left_paren_token: function.left_paren_token,
                    parameters: function.parameters,
                    right_paren_token: function.right_paren_token,
                    body,
                    data_type: None,
                },
            ),
        },
    }
}

/// The first `count` statements of a list with types, or the first
/// diagnostic among them.
pub open spec fn checked_statements(
    statements: Seq<StatementView<ExpressionView>>,
    count: int,
    source_id: Seq<char>,
) -> Result<Seq<AnnotatedStatementView>, SemanticCheckerErrorView>
    decreases statements, count,
{
    if count <= 0 || count > statements.len() {
        Ok(Seq::empty())
    } else {
        match checked_statements(statements, count - 1, source_id) {
            Err(error) => Err(error),
            Ok(front) => match checked_statement(statements[count - 1], source_id) {
                Err(error) => Err(error),
                Ok(statement) => Ok(front.push(statement)),
            },
        }
    }
}

/// The module with types, or the first diagnostic. The module keeps
/// the identifier it is checked under.
pub open spec fn checked_module(module: ModuleView<ExpressionView>, source_id: Seq<char>) -> Result<
    AnnotatedModuleView,
    SemanticCheckerErrorView,
> {
    match checked_statements(module.statements, module.statements.len() as int, source_id) {
        Err(error) => Err(error),
        Ok(statements) => Ok(AnnotatedModuleView { id: source_id, statements }),
    }
}

} // verus!
