//! The syntax tree with types: each node of the tree that the parser
//! built, together with the type that the checker found for it.

use crate::ast::{
    span_across, span_from_to, span_of_token, token_span, BinaryExpr, BinaryOperator, EchoStmt,
    ExpressionStmt, FunctionDeclParameterView, FunctionDeclStmt, GetSpan, GroupingExpr,
    LiteralExpr, LiteralExprView, UnaryExpr, UnaryOperator, parameters_view,
};
use crate::data_type::{DataType, DataTypeView};
use crate::span::Span;
use crate::token::TokenView;
use vstd::prelude::*;

verus! {

/// A node with the type that was found for it.
#[derive(Debug, PartialEq, Eq)]
pub struct AnnotatedAst<A, D> {
    /// The node.
    pub inner: A,
    /// Its type.
    pub data_type: D,
}

/// A literal with its type.
pub type AnnotatedLiteralExpr = AnnotatedAst<LiteralExpr, DataType>;

/// A grouping with its type.
pub type AnnotatedGroupExpr<E> = AnnotatedAst<GroupingExpr<E>, DataType>;

/// A binary expression with its type.
pub type AnnotatedBinaryExpr<E> = AnnotatedAst<BinaryExpr<E>, DataType>;

/// A unary expression with its type.
pub type AnnotatedUnaryExpr<E> = AnnotatedAst<UnaryExpr<E>, DataType>;

/// An expression with its type, over operands with theirs.
#[derive(Debug, PartialEq, Eq)]
pub enum AnnotatedExpression {
    /// A literal.
    Literal(AnnotatedLiteralExpr),
    /// An expression in parentheses.
    Group(AnnotatedGroupExpr<AnnotatedExpression>),
    /// An operator between its operands.
    Binary(AnnotatedBinaryExpr<AnnotatedExpression>),
    /// An operator before its operand.
    Unary(AnnotatedUnaryExpr<AnnotatedExpression>),
}

/// The mathematical content of an [`AnnotatedExpression`].
#[allow(inconsistent_fields)]
pub ghost enum AnnotatedExpressionView {
    Literal { inner: LiteralExprView, data_type: DataTypeView },
    Group {
        left_paren_token: Option<TokenView>,
        expression: Box<AnnotatedExpressionView>,
        right_paren_token: Option<TokenView>,
        data_type: DataTypeView,
    },
    Binary {
        left: Box<AnnotatedExpressionView>,
        operator: BinaryOperator,
        operator_token: Option<TokenView>,
        right: Box<AnnotatedExpressionView>,
        data_type: DataTypeView,
    },
    Unary {
        operator: UnaryOperator,
        operator_token: Option<TokenView>,
        right: Box<AnnotatedExpressionView>,
        data_type: DataTypeView,
    },
}

impl AnnotatedExpressionView {
    /// The type of the expression.
    pub open spec fn data_type(self) -> DataTypeView {
        match self {
            AnnotatedExpressionView::Literal { inner, data_type } => data_type,
            AnnotatedExpressionView::Group {
                left_paren_token,
                expression,
                right_paren_token,
                data_type,
            } => data_type,
            AnnotatedExpressionView::Binary { left, operator, operator_token, right, data_type } => {
                data_type
            },
            AnnotatedExpressionView::Unary { operator, operator_token, right, data_type } => {
                data_type
            },
        }
    }

    /// The span of the expression, if its ends are known; the rules are
    /// those of the tree without types.
    pub open spec fn span(self) -> Option<Span>
        decreases self,
    {
        match self {
            AnnotatedExpressionView::Literal { inner, data_type } => token_span(inner.token),
            AnnotatedExpressionView::Group {
                left_paren_token,
                expression,
                right_paren_token,
                data_type,
            } => span_across(token_span(left_paren_token), token_span(right_paren_token)),
            AnnotatedExpressionView::Binary { left, operator, operator_token, right, data_type } => {
                span_across(left.span(), right.span())
            },
            AnnotatedExpressionView::Unary { operator, operator_token, right, data_type } => {
                span_across(token_span(operator_token), right.span())
            },
        }
    }
}

impl DeepView for AnnotatedExpression {
    type V = AnnotatedExpressionView;

    open spec fn deep_view(&self) -> AnnotatedExpressionView
        decreases self,
    {
        match self {
            AnnotatedExpression::Literal(literal) => AnnotatedExpressionView::Literal {
                inner: literal.inner.deep_view(),
                data_type: literal.data_type.deep_view(),
            },
            AnnotatedExpression::Group(group) => AnnotatedExpressionView::Group {
                left_paren_token: group.inner.left_paren_token.deep_view(),
                expression: Box::new((*group.inner.expression).deep_view()),
                right_paren_token: group.inner.right_paren_token.deep_view(),
                data_type: group.data_type.deep_view(),
            },
            AnnotatedExpression::Binary(binary) => AnnotatedExpressionView::Binary {
                left: Box::new((*binary.inner.left).deep_view()),
                operator: binary.inner.operator,
                operator_token: binary.inner.operator_token.deep_view(),
                right: Box::new((*binary.inner.right).deep_view()),
                data_type: binary.data_type.deep_view(),
            },
            AnnotatedExpression::Unary(unary) => AnnotatedExpressionView::Unary {
                operator: unary.inner.operator,
                operator_token: unary.inner.operator_token.deep_view(),
                right: Box::new((*unary.inner.right).deep_view()),
                data_type: unary.data_type.deep_view(),
            },
        }
    }
}

impl GetSpan for AnnotatedExpression {
    open spec fn span(&self) -> Option<Span> {
        self.deep_view().span()
    }

    /// The span of the expression, if its ends are known.
    fn get_span(&self) -> (span: Option<Span>)
        decreases self,
    {
        match self {
            AnnotatedExpression::Literal(literal) => span_of_token(&literal.inner.token),
            AnnotatedExpression::Group(group) => span_from_to(
                span_of_token(&group.inner.left_paren_token),
                span_of_token(&group.inner.right_paren_token),
            ),
            AnnotatedExpression::Binary(binary) => {
                let left = (*binary.inner.left).get_span();
                let right = (*binary.inner.right).get_span();
                span_from_to(left, right)
            },
            AnnotatedExpression::Unary(unary) => {
                let right = (*unary.inner.right).get_span();
                span_from_to(span_of_token(&unary.inner.operator_token), right)
            },
        }
    }
}

impl AnnotatedExpression {
    /// The type of the expression.
    pub fn get_data_type(&self) -> (data_type: &DataType)
        ensures
            data_type.deep_view() == self.deep_view().data_type(),
    {
        match self {
            AnnotatedExpression::Literal(literal) => &literal.data_type,
            AnnotatedExpression::Group(group) => &group.data_type,
            AnnotatedExpression::Binary(binary) => &binary.data_type,
            AnnotatedExpression::Unary(unary) => &unary.data_type,
        }
    }
}

/// An expression statement with its type; a statement has none.
pub type AnnotatedExpressionStmt<E> = AnnotatedAst<ExpressionStmt<E>, Option<DataType>>;

/// An `echo` with its type; a statement has none.
pub type AnnotatedEchoStmt<E> = AnnotatedAst<EchoStmt<E>, Option<DataType>>;

/// A function with its type; a statement has none.
pub type AnnotatedFunctionDeclStmt<S> = AnnotatedAst<FunctionDeclStmt<S>, Option<DataType>>;

/// A statement with its type, over expressions with theirs.
#[derive(Debug, PartialEq, Eq)]
pub enum AnnotatedStatement<E> where E: GetSpan {
    /// An expression that stands as a statement.
    Expression(AnnotatedExpressionStmt<E>),
    /// `echo` with the expression to show.
    Echo(AnnotatedEchoStmt<E>),
    /// The declaration of a function.
    FunctionDecl(AnnotatedFunctionDeclStmt<AnnotatedStatement<E>>),
}

impl<E> GetSpan for AnnotatedStatement<E> where E: GetSpan {
    open spec fn span(&self) -> Option<Span>
        decreases self,
    {
        match self {
            AnnotatedStatement::Expression(stmt) => stmt.inner.expression.span(),
            AnnotatedStatement::Echo(stmt) => span_across(
                token_span(stmt.inner.echo_token.deep_view()),
                stmt.inner.expression.span(),
            ),
            AnnotatedStatement::FunctionDecl(function) => span_across(
                token_span(function.inner.function_token.deep_view()),
                if function.inner.body@.len() == 0 {
                    None
                } else {
                    (*function.inner.body@.last()).span()
                },
            ),
        }
    }

    /// The span of the statement, if its ends are known.
    fn get_span(&self) -> (span: Option<Span>)
        decreases self,
    {
        match self {
            AnnotatedStatement::Expression(stmt) => stmt.inner.expression.get_span(),
            AnnotatedStatement::Echo(stmt) => span_from_to(
                span_of_token(&stmt.inner.echo_token),
                stmt.inner.expression.get_span(),
            ),
            AnnotatedStatement::FunctionDecl(function) => {
                let n = function.inner.body.len();
                let last = if n == 0 {
                    None
                } else {
                    (*function.inner.body[n - 1]).get_span()
                };
                span_from_to(span_of_token(&function.inner.function_token), last)
            },
        }
    }
}

/// The mathematical content of an [`AnnotatedStatement`].
pub ghost enum AnnotatedStatementView {
    Expression { expression: AnnotatedExpressionView, data_type: Option<DataTypeView> },
    Echo {
        echo_token: Option<TokenView>,
        expression: AnnotatedExpressionView,
        data_type: Option<DataTypeView>,
    },
    FunctionDecl {
        function_token: Option<TokenView>,
        name: Option<TokenView>,
        left_paren_token: Option<TokenView>,
        parameters: Seq<FunctionDeclParameterView>,
        right_paren_token: Option<TokenView>,
        body: Seq<AnnotatedStatementView>,
        data_type: Option<DataTypeView>,
    },
}

/// The content of a statement with types.
pub open spec fn annotated_statement_view(
    statement: AnnotatedStatement<AnnotatedExpression>,
) -> AnnotatedStatementView
    decreases statement,
{
    match statement {
        AnnotatedStatement::Expression(stmt) => AnnotatedStatementView::Expression {
            expression: stmt.inner.expression.deep_view(),
            data_type: stmt.data_type.deep_view(),
        },
        AnnotatedStatement::Echo(stmt) => AnnotatedStatementView::Echo {
            echo_token: stmt.inner.echo_token.deep_view(),
            expression: stmt.inner.expression.deep_view(),
            data_type: stmt.data_type.deep_view(),
        },
        AnnotatedStatement::FunctionDecl(function) => AnnotatedStatementView::FunctionDecl {
            function_token: function.inner.function_token.deep_view(),
            name: function.inner.name.deep_view(),
            left_paren_token: function.inner.left_paren_token.deep_view(),
            parameters: parameters_view(function.inner.parameters@),
            right_paren_token: function.inner.right_paren_token.deep_view(),
            body: Seq::new(
                function.inner.body@.len(),
                |i: int|
                    if 0 <= i < function.inner.body@.len() {
                        annotated_statement_view(*function.inner.body@[i])
                    } else {
                        arbitrary()
                    },
            ),
            data_type: function.data_type.deep_view(),
        },
    }
}

impl DeepView for AnnotatedStatement<AnnotatedExpression> {
    type V = AnnotatedStatementView;

    open spec fn deep_view(&self) -> AnnotatedStatementView {
        annotated_statement_view(*self)
    }
}

/// A module with types.
#[derive(Debug, PartialEq, Eq)]
pub struct AnnotatedModule<E> where E: GetSpan {
    /// The identifier of the source.
    pub id: String,
    /// The statements of the module.
    pub statements: Vec<AnnotatedStatement<E>>,
}

/// The mathematical content of an [`AnnotatedModule`].
pub ghost struct AnnotatedModuleView {
    pub id: Seq<char>,
    pub statements: Seq<AnnotatedStatementView>,
}

impl DeepView for AnnotatedModule<AnnotatedExpression> {
    type V = AnnotatedModuleView;

    open spec fn deep_view(&self) -> AnnotatedModuleView {
        AnnotatedModuleView { id: self.id@, statements: self.statements.deep_view() }
    }
}

} // verus!
