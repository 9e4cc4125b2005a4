//! The syntax tree: expressions, statements and modules, each node with
//! the tokens it was read from.

use crate::data_type::{DataType, DataTypeView};
use crate::span::Span;
use crate::token::{clone_token, Token, TokenView};
use vstd::prelude::*;

verus! {

/// The value of a literal. Integers are held as numbers. A float is
/// held as the digits it was written with, which are the digits of a
/// float: an integer part, then optionally a dot with a fraction and an
/// exponent with digits.
#[derive(Debug, PartialEq, Eq)]
pub enum Value {
    /// Unsigned, 8 bits.
    UInt8(u8),
    /// Unsigned, 16 bits.
    UInt16(u16),
    /// Unsigned, 32 bits.
    UInt32(u32),
    /// Unsigned, 64 bits.
    UInt64(u64),
    /// Signed, 8 bits.
    Int8(i8),
    /// Signed, 16 bits.
    Int16(i16),
    /// Signed, 32 bits.
    Int32(i32),
    /// Signed, 64 bits.
    Int64(i64),
    /// Signed, of platform width; held at 64 bits.
    Int(i64),
    /// Unsigned, of platform width; held at 64 bits.
    UInt(u64),
    /// Floating point, 32 bits.
    Float32(String),
    /// Floating point, 64 bits.
    Double(String),
}

/// The mathematical content of a [`Value`].
pub ghost enum ValueView {
    UInt8(u8),
    UInt16(u16),
    UInt32(u32),
    UInt64(u64),
    Int8(i8),
    Int16(i16),
    Int32(i32),
    Int64(i64),
    Int(i64),
    UInt(u64),
    Float32(Seq<char>),
    Double(Seq<char>),
}

impl DeepView for Value {
    type V = ValueView;

    open spec fn deep_view(&self) -> ValueView {
        match self {
            Value::UInt8(value) => ValueView::UInt8(*value),
            Value::UInt16(value) => ValueView::UInt16(*value),
            Value::UInt32(value) => ValueView::UInt32(*value),
            Value::UInt64(value) => ValueView::UInt64(*value),
            Value::Int8(value) => ValueView::Int8(*value),
            Value::Int16(value) => ValueView::Int16(*value),
            Value::Int32(value) => ValueView::Int32(*value),
            Value::Int64(value) => ValueView::Int64(*value),
            Value::Int(value) => ValueView::Int(*value),
            Value::UInt(value) => ValueView::UInt(*value),
            Value::Float32(digits) => ValueView::Float32(digits@),
            Value::Double(digits) => ValueView::Double(digits@),
        }
    }
}

impl Clone for Value {
    /// The same value.
    fn clone(&self) -> (value: Value)
        ensures
            value.deep_view() == self.deep_view(),
    {
        match self {
            Value::UInt8(value) => Value::UInt8(*value),
            Value::UInt16(value) => Value::UInt16(*value),
            Value::UInt32(value) => Value::UInt32(*value),
            Value::UInt64(value) => Value::UInt64(*value),
            Value::Int8(value) => Value::Int8(*value),
            Value::Int16(value) => Value::Int16(*value),
            Value::Int32(value) => Value::Int32(*value),
            Value::Int64(value) => Value::Int64(*value),
            Value::Int(value) => Value::Int(*value),
            Value::UInt(value) => Value::UInt(*value),
            Value::Float32(digits) => Value::Float32(digits.clone()),
            Value::Double(digits) => Value::Double(digits.clone()),
        }
    }
}

/// The span of a token that may be missing.
pub open spec fn token_span(token: Option<TokenView>) -> Option<Span> {
    match token {
        Some(token) => Some(token.span),
        None => None,
    }
}

/// The span from where `first` begins to where `last` ends, if both
/// are known.
pub open spec fn span_across(first: Option<Span>, last: Option<Span>) -> Option<Span> {
    match (first, last) {
        (Some(first), Some(last)) => Some(Span { start: first.start, end: last.end }),
        _ => None,
    }
}

/// The span of a token that may be missing.
pub fn span_of_token(token: &Option<Token>) -> (span: Option<Span>)
    ensures
        span == token_span(token.deep_view()),
{
    match token {
        Some(token) => Some(token.span),
        None => None,
    }
}

/// The span from where `first` begins to where `last` ends, if both
/// are known.
pub fn span_from_to(first: Option<Span>, last: Option<Span>) -> (span: Option<Span>)
    ensures
        span == span_across(first, last),
{
    match (first, last) {
        (Some(first), Some(last)) => Some(Span { start: first.start, end: last.end }),
        _ => None,
    }
}

/// A node that knows which part of the source it was read from.
pub trait GetSpan {
    /// The span of the node, if its ends are known.
    spec fn span(&self) -> Option<Span>;

    /// The span of the node, if its ends are known.
    fn get_span(&self) -> (span: Option<Span>)
        ensures
            span == self.span(),
    ;
}

/// A type as written in the source.
#[derive(Debug, PartialEq, Eq)]
pub struct DataTypeNode {
    /// The token that names the type.
    pub token: Option<Token>,
    /// The type.
    pub inner: DataType,
}

/// The mathematical content of a [`DataTypeNode`].
pub ghost struct DataTypeNodeView {
    pub token: Option<TokenView>,
    pub inner: DataTypeView,
}

impl DeepView for DataTypeNode {
    type V = DataTypeNodeView;

    open spec fn deep_view(&self) -> DataTypeNodeView {
        DataTypeNodeView { token: self.token.deep_view(), inner: self.inner.deep_view() }
    }
}

impl Clone for DataTypeNode {
    /// The same node.
    fn clone(&self) -> (node: DataTypeNode)
        ensures
            node.deep_view() == self.deep_view(),
    {
        DataTypeNode { token: clone_token(&self.token), inner: self.inner.clone() }
    }
}

/// A literal.
#[derive(Debug, PartialEq, Eq)]
pub struct LiteralExpr {
    /// The value of the literal.
    pub value: Value,
    /// The token of the literal.
    pub token: Option<Token>,
}

/// The mathematical content of a [`LiteralExpr`].
pub ghost struct LiteralExprView {
    pub value: ValueView,
    pub token: Option<TokenView>,
}

impl DeepView for LiteralExpr {
    type V = LiteralExprView;

    open spec fn deep_view(&self) -> LiteralExprView {
        LiteralExprView { value: self.value.deep_view(), token: self.token.deep_view() }
    }
}

impl Clone for LiteralExpr {
    /// The same literal.
    fn clone(&self) -> (literal: LiteralExpr)
        ensures
            literal.deep_view() == self.deep_view(),
    {
        LiteralExpr { value: self.value.clone(), token: clone_token(&self.token) }
    }
}

impl GetSpan for LiteralExpr {
    open spec fn span(&self) -> Option<Span> {
        token_span(self.token.deep_view())
    }

    /// The span of the literal's token.
    fn get_span(&self) -> (span: Option<Span>) {
        span_of_token(&self.token)
    }
}

/// An expression in parentheses.
#[derive(Debug, PartialEq, Eq)]
pub struct GroupingExpr<E> where E: GetSpan {
    /// The opening parenthesis.
    pub left_paren_token: Option<Token>,
    /// The expression inside.
    pub expression: Box<E>,
    /// The closing parenthesis.
    pub right_paren_token: Option<Token>,
}

impl<E> GetSpan for GroupingExpr<E> where E: GetSpan {
    open spec fn span(&self) -> Option<Span> {
        span_across(
            token_span(self.left_paren_token.deep_view()),
            token_span(self.right_paren_token.deep_view()),
        )
    }

    /// From the opening to the closing parenthesis.
    fn get_span(&self) -> (span: Option<Span>) {
        span_from_to(span_of_token(&self.left_paren_token), span_of_token(&self.right_paren_token))
    }
}

/// The operators with one operand.
#[derive(Debug, Clone, Copy, PartialEq, Eq, Structural)]
pub enum UnaryOperator {
    /// `-`
    Negate,
}

/// An operator before its operand.
#[derive(Debug, PartialEq, Eq)]
pub struct UnaryExpr<E> where E: GetSpan {
    /// The operator.
    pub operator: UnaryOperator,
    /// The token of the operator.
    pub operator_token: Option<Token>,
    /// The operand.
    pub right: Box<E>,
}

impl<E> GetSpan for UnaryExpr<E> where E: GetSpan {
    open spec fn span(&self) -> Option<Span> {
        span_across(token_span(self.operator_token.deep_view()), self.right.span())
    }

    /// From the operator to the end of the operand.
    fn get_span(&self) -> (span: Option<Span>) {
        span_from_to(span_of_token(&self.operator_token), self.right.get_span())
    }
}

/// The operators with two operands.
#[derive(Debug, Clone, Copy, PartialEq, Eq, Structural)]
pub enum BinaryOperator {
    /// `+`
    Add,
    /// `-`
    Subtract,
    /// `*`
    Multiply,
    /// `/`
    Divide,
    /// `%`
    Modulo,
    /// `**`
    Exponent,
}

/// An operator between its operands.
#[derive(Debug, PartialEq, Eq)]
pub struct BinaryExpr<E> where E: GetSpan {
    /// The left operand.
    pub left: Box<E>,
    /// The operator.
    pub operator: BinaryOperator,
    /// The token of the operator.
    pub operator_token: Option<Token>,
    /// The right operand.
    pub right: Box<E>,
}

impl<E> GetSpan for BinaryExpr<E> where E: GetSpan {
    open spec fn span(&self) -> Option<Span> {
        span_across(self.left.span(), self.right.span())
    }

    /// From the left operand to the end of the right one.
    fn get_span(&self) -> (span: Option<Span>) {
        span_from_to(self.left.get_span(), self.right.get_span())
    }
}

/// An expression.
#[derive(Debug, PartialEq, Eq)]
pub enum Expression {
    /// A literal.
    Literal(LiteralExpr),
    /// An expression in parentheses.
    Grouping(GroupingExpr<Expression>),
    /// An operator before its operand.
    Unary(UnaryExpr<Expression>),
    /// An operator between its operands.
    Binary(BinaryExpr<Expression>),
}

/// The mathematical content of an [`Expression`].
#[allow(inconsistent_fields)]
pub ghost enum ExpressionView {
    Literal(LiteralExprView),
    Grouping {
        left_paren_token: Option<TokenView>,
        expression: Box<ExpressionView>,
        right_paren_token: Option<TokenView>,
    },
    Unary { operator: UnaryOperator, operator_token: Option<TokenView>, right: Box<ExpressionView> },
    Binary {
        left: Box<ExpressionView>,
        operator: BinaryOperator,
        operator_token: Option<TokenView>,
        right: Box<ExpressionView>,
    },
}

impl ExpressionView {
    /// The span of the expression, if its ends are known: of a literal
    /// its token's; of a grouping from the opening to the closing
    /// parenthesis; of a unary expression from the operator to the end of
    /// the operand; of a binary expression from the left operand to the
    /// end of the right one.
    pub open spec fn span(self) -> Option<Span>
        decreases self,
    {
        match self {
            ExpressionView::Literal(literal) => token_span(literal.token),
            ExpressionView::Grouping { left_paren_token, expression, right_paren_token } => span_across(
                token_span(left_paren_token),
                token_span(right_paren_token),
            ),
            ExpressionView::Unary { operator, operator_token, right } => span_across(
                token_span(operator_token),
                right.span(),
            ),
            ExpressionView::Binary { left, operator, operator_token, right } => span_across(
                left.span(),
                right.span(),
            ),
        }
    }
}

impl DeepView for Expression {
    type V = ExpressionView;

    open spec fn deep_view(&self) -> ExpressionView
        decreases self,
    {
        match self {
            Expression::Literal(literal) => ExpressionView::Literal(literal.deep_view()),
            Expression::Grouping(grouping) => ExpressionView::Grouping {
                left_paren_token: grouping.left_paren_token.deep_view(),
                expression: Box::new((*grouping.expression).deep_view()),
                right_paren_token: grouping.right_paren_token.deep_view(),
            },
            Expression::Unary(unary) => ExpressionView::Unary {
                operator: unary.operator,
                operator_token: unary.operator_token.deep_view(),
                right: Box::new((*unary.right).deep_view()),
            },
            Expression::Binary(binary) => ExpressionView::Binary {
                left: Box::new((*binary.left).deep_view()),
                operator: binary.operator,
                operator_token: binary.operator_token.deep_view(),
                right: Box::new((*binary.right).deep_view()),
            },
        }
    }
}

impl GetSpan for Expression {
    open spec fn span(&self) -> Option<Span> {
        self.deep_view().span()
    }

    /// The span of the expression, if its ends are known.
    fn get_span(&self) -> (span: Option<Span>)
        decreases self,
    {
        match self {
            Expression::Literal(literal) => span_of_token(&literal.token),
            Expression::Grouping(grouping) => span_from_to(
                span_of_token(&grouping.left_paren_token),
                span_of_token(&grouping.right_paren_token),
            ),
            Expression::Unary(unary) => {
                let right = (*unary.right).get_span();
                span_from_to(span_of_token(&unary.operator_token), right)
            },
            Expression::Binary(binary) => {
                let left = (*binary.left).get_span();
                let right = (*binary.right).get_span();
                span_from_to(left, right)
            },
        }
    }
}

/// An expression that stands as a statement.
#[derive(Debug, PartialEq, Eq)]
pub struct ExpressionStmt<E> where E: GetSpan {
    /// The expression.
    pub expression: E,
}

impl<E> GetSpan for ExpressionStmt<E> where E: GetSpan {
    open spec fn span(&self) -> Option<Span> {
        self.expression.span()
    }

    /// The span of the expression.
    fn get_span(&self) -> (span: Option<Span>) {
        self.expression.get_span()
    }
}

/// `echo` with the expression to show.
#[derive(Debug, PartialEq, Eq)]
pub struct EchoStmt<E> where E: GetSpan {
    /// The keyword.
    pub echo_token: Option<Token>,
    /// The expression to show.
    pub expression: E,
}

impl<E> GetSpan for EchoStmt<E> where E: GetSpan {
    open spec fn span(&self) -> Option<Span> {
        span_across(token_span(self.echo_token.deep_view()), self.expression.span())
    }

    /// From the keyword to the end of the expression.
    fn get_span(&self) -> (span: Option<Span>) {
        span_from_to(span_of_token(&self.echo_token), self.expression.get_span())
    }
}

/// A parameter of a function.
#[derive(Debug, PartialEq, Eq)]
pub struct FunctionDeclParameter {
    /// The name of the parameter.
    pub identifier: Token,
    /// The type of the parameter.
    pub data_type: DataTypeNode,
}

/// The mathematical content of a [`FunctionDeclParameter`].
pub ghost struct FunctionDeclParameterView {
    pub identifier: TokenView,
    pub data_type: DataTypeNodeView,
}

impl DeepView for FunctionDeclParameter {
    type V = FunctionDeclParameterView;

    open spec fn deep_view(&self) -> FunctionDeclParameterView {
        FunctionDeclParameterView {
            identifier: self.identifier.deep_view(),
            data_type: self.data_type.deep_view(),
        }
    }
}

impl Clone for FunctionDeclParameter {
    /// The same parameter.
    fn clone(&self) -> (parameter: FunctionDeclParameter)
        ensures
            parameter.deep_view() == self.deep_view(),
    {
        FunctionDeclParameter {
            identifier: self.identifier.clone(),
            data_type: self.data_type.clone(),
        }
    }
}

/// The declaration of a function.
#[derive(Debug, PartialEq, Eq)]
pub struct FunctionDeclStmt<S> where S: GetSpan {
    /// The keyword.
    pub function_token: Option<Token>,
    /// The name of the function.
    pub name: Option<Token>,
    /// The opening parenthesis.
    pub left_paren_token: Option<Token>,
    /// The parameters.
    pub parameters: Vec<FunctionDeclParameter>,
    /// The closing parenthesis.
    pub right_paren_token: Option<Token>,
    /// The statements of the function.
    pub body: Vec<Box<S>>,
}

impl<S> GetSpan for FunctionDeclStmt<S> where S: GetSpan {
    open spec fn span(&self) -> Option<Span> {
        span_across(
            token_span(self.function_token.deep_view()),
            if self.body@.len() == 0 {
                None
            } else {
                self.body@.last().span()
            },
        )
    }

    /// From the keyword to the end of the last statement.
    fn get_span(&self) -> (span: Option<Span>) {
        let n = self.body.len();
        let last = if n == 0 {
            None
        } else {
            self.body[n - 1].get_span()
        };
        span_from_to(span_of_token(&self.function_token), last)
    }
}

/// A statement.
#[derive(Debug, PartialEq, Eq)]
pub enum Statement<E> where E: GetSpan {
    /// An expression that stands as a statement.
    Expression(ExpressionStmt<E>),
    /// `echo` with the expression to show.
    Echo(EchoStmt<E>),
    /// The declaration of a function.
    FunctionDeclaration(FunctionDeclStmt<Statement<E>>),
}

/// The mathematical content of a [`FunctionDeclStmt`] over expressions
/// with content `E`.
pub ghost struct FunctionDeclView<E> {
    pub function_token: Option<TokenView>,
    pub name: Option<TokenView>,
    pub left_paren_token: Option<TokenView>,
    pub parameters: Seq<FunctionDeclParameterView>,
    pub right_paren_token: Option<TokenView>,
    pub body: Seq<StatementView<E>>,
}

/// The mathematical content of a [`Statement`] over expressions with
/// content `E`.
pub ghost enum StatementView<E> {
    Expression { expression: E },
    Echo { echo_token: Option<TokenView>, expression: E },
    FunctionDeclaration(FunctionDeclView<E>),
}

/// The span of the last statement of a list, if there is one and its
/// ends are known.
pub open spec fn last_span(spans: Seq<Option<Span>>) -> Option<Span> {
    if spans.len() == 0 {
        None
    } else {
        spans.last()
    }
}

/// The span of the first statement of a list, if there is one and its
/// ends are known.
pub open spec fn first_span(spans: Seq<Option<Span>>) -> Option<Span> {
    if spans.len() == 0 {
        None
    } else {
        spans.first()
    }
}

/// The span of a statement, if its ends are known: of an expression
/// statement the expression's; of `echo` from the keyword to the end of
/// the expression; of a function from its keyword to the end of its last
/// statement.
pub open spec fn statement_span(statement: StatementView<ExpressionView>) -> Option<Span>
    decreases statement,
{
    match statement {
        StatementView::Expression { expression } => expression.span(),
        StatementView::Echo { echo_token, expression } => span_across(
            token_span(echo_token),
            expression.span(),
        ),
        StatementView::FunctionDeclaration(function) => span_across(
            token_span(function.function_token),
            if function.body.len() == 0 {
                None
            } else {
                statement_span(function.body.last())
            },
        ),
    }
}

/// The contents of a list of parameters.
pub open spec fn parameters_view(parameters: Seq<FunctionDeclParameter>) -> Seq<
    FunctionDeclParameterView,
> {
    Seq::new(parameters.len(), |i: int| parameters[i].deep_view())
}

/// The content of a statement.
pub open spec fn statement_view(statement: Statement<Expression>) -> StatementView<ExpressionView>
    decreases statement,
{
    match statement {
        Statement::Expression(stmt) => StatementView::Expression {
            expression: stmt.expression.deep_view(),
        },
        Statement::Echo(stmt) => StatementView::Echo {
            echo_token: stmt.echo_token.deep_view(),
            expression: stmt.expression.deep_view(),
        },
        Statement::FunctionDeclaration(function) => StatementView::FunctionDeclaration(
            FunctionDeclView {
                function_token: function.function_token.deep_view(),
                name: function.name.deep_view(),
                left_paren_token: function.left_paren_token.deep_view(),
                parameters: parameters_view(function.parameters@),
                right_paren_token: function.right_paren_token.deep_view(),
                body: Seq::new(
                    function.body@.len(),
                    |i: int|
                        if 0 <= i < function.body@.len() {
                            statement_view(*function.body@[i])
                        } else {
                            arbitrary()
                        },
                ),
            },
        ),
    }
}

/// The contents of a list of statements.
pub open spec fn statements_view(statements: Seq<Box<Statement<Expression>>>) -> Seq<
    StatementView<ExpressionView>,
> {
    Seq::new(statements.len(), |i: int| statement_view(*statements[i]))
}

impl DeepView for Statement<Expression> {
    type V = StatementView<ExpressionView>;

    open spec fn deep_view(&self) -> StatementView<ExpressionView> {
        statement_view(*self)
    }
}

impl<E> GetSpan for Statement<E> where E: GetSpan {
    open spec fn span(&self) -> Option<Span>
        decreases self,
    {
        match self {
            Statement::Expression(stmt) => stmt.expression.span(),
            Statement::Echo(stmt) => span_across(
                token_span(stmt.echo_token.deep_view()),
                stmt.expression.span(),
            ),
            Statement::FunctionDeclaration(function) => span_across(
                token_span(function.function_token.deep_view()),
                if function.body@.len() == 0 {
                    None
                } else {
                    (*function.body@.last()).span()
                },
            ),
        }
    }

    /// The span of the statement, if its ends are known.
    fn get_span(&self) -> (span: Option<Span>)
        decreases self,
    {
        match self {
            Statement::Expression(stmt) => stmt.expression.get_span(),
            Statement::Echo(stmt) => span_from_to(
                span_of_token(&stmt.echo_token),
                stmt.expression.get_span(),
            ),
            Statement::FunctionDeclaration(function) => {
                let n = function.body.len();
                let last = if n == 0 {
                    None
                } else {
                    (*function.body[n - 1]).get_span()
                };
                span_from_to(span_of_token(&function.function_token), last)
            },
        }
    }
}

/// The span of a statement is the span of its content.
pub proof fn lemma_statement_span(statement: Statement<Expression>)
    ensures
        statement.span() == statement_span(statement.deep_view()),
    decreases statement,
{
    match statement {
        Statement::FunctionDeclaration(function) => {
            if function.body@.len() > 0 {
                lemma_statement_span(*function.body@.last());
            }
        },
        _ => {},
    }
}

/// A module: the statements of one source.
#[derive(Debug, PartialEq, Eq)]
pub struct Module<E> where E: GetSpan {
    /// The identifier of the source.
    pub id: String,
    /// The statements of the module.
    pub statements: Vec<Box<Statement<E>>>,
}

/// The mathematical content of a [`Module`] over expressions with
/// content `E`.
pub ghost struct ModuleView<E> {
    pub id: Seq<char>,
    pub statements: Seq<StatementView<E>>,
}

impl DeepView for Module<Expression> {
    type V = ModuleView<ExpressionView>;

    open spec fn deep_view(&self) -> ModuleView<ExpressionView> {
        ModuleView { id: self.id@, statements: statements_view(self.statements@) }
    }
}

/// The span of a module, if its ends are known: from its first
/// statement to the end of its last.
pub open spec fn module_span(module: ModuleView<ExpressionView>) -> Option<Span> {
    if module.statements.len() == 0 {
        None
    } else {
        span_across(
            statement_span(module.statements.first()),
            statement_span(module.statements.last()),
        )
    }
}

impl<E> GetSpan for Module<E> where E: GetSpan {
    open spec fn span(&self) -> Option<Span> {
        if self.statements@.len() == 0 {
            None
        } else {
            span_across(self.statements@.first().span(), self.statements@.last().span())
        }
    }

    /// The span of the module, if its ends are known.
    fn get_span(&self) -> (span: Option<Span>) {
        let n = self.statements.len();
        if n == 0 {
            None
        } else {
            let first = self.statements[0].get_span();
            let last = self.statements[n - 1].get_span();
            span_from_to(first, last)
        }
    }
}

/// The span of a module is the span of its content.
pub proof fn lemma_module_span(module: Module<Expression>)
    ensures
        module.span() == module_span(module.deep_view()),
{
    if module.statements@.len() > 0 {
        lemma_statement_span(*module.statements@.first());
        lemma_statement_span(*module.statements@.last());
    }
}

/// A walk over the syntax tree, node by node. What a walk returns for a
/// module, for an expression and for a statement is its own choice.
pub trait AstVisitor<SourceExprType, SourceStmtType, ModRetType, ExprRetType, StmtRetType> where
    SourceExprType: GetSpan,
    SourceStmtType: GetSpan,
 {
    /// Visits a module.
    fn visit_module(&mut self, module: &Module<SourceExprType>) -> ModRetType;

    /// Visits a statement.
    fn visit_statement(&mut self, statement: &Statement<SourceExprType>) -> StmtRetType;

    /// Visits an expression statement.
    fn visit_expression_stmt(
        &mut self,
        expression_stmt: &ExpressionStmt<SourceExprType>,
    ) -> StmtRetType;

    /// Visits an `echo`.
    fn visit_echo_stmt(&mut self, echo_stmt: &EchoStmt<SourceExprType>) -> StmtRetType;

    /// Visits the declaration of a function.
    fn visit_function_decl_stmt(
        &mut self,
        function_decl_stmt: &FunctionDeclStmt<SourceStmtType>,
    ) -> StmtRetType;

    /// Visits an expression.
    fn visit_expression(&mut self, expression: &Expression) -> ExprRetType;

    /// Visits a literal.
    fn visit_literal_expr(&mut self, literal_expr: &LiteralExpr) -> ExprRetType;

    /// Visits a grouping.
    fn visit_grouping_expr(&mut self, grouping_expr: &GroupingExpr<SourceExprType>) -> ExprRetType;

    /// Visits a unary expression.
    fn visit_unary_expr(&mut self, unary_expr: &UnaryExpr<SourceExprType>) -> ExprRetType;

    /// Visits a binary expression.
    fn visit_binary_expr(&mut self, binary_expr: &BinaryExpr<SourceExprType>) -> ExprRetType;
}

} // verus!
