//! The semantic checker: from the syntax tree to the tree with types.

pub mod laws;
pub mod model;

use crate::annotated_ast::{
    annotated_statement_view, AnnotatedAst, AnnotatedExpression, AnnotatedExpressionView,
    AnnotatedModule, AnnotatedModuleView, AnnotatedStatement, AnnotatedStatementView,
};
use crate::ast::{
    parameters_view, statement_view, statements_view, AstVisitor, BinaryExpr, EchoStmt, Expression,
    ExpressionStmt, ExpressionView, FunctionDeclParameter, FunctionDeclStmt, GetSpan,
    GroupingExpr, LiteralExpr, Module, Statement, StatementView, UnaryExpr, Value,
};
use crate::data_type::{DataType, DataTypeView, KnownDataType};
use crate::diagnostic::{LabelStyle, LabelView};
use crate::message::{message_args_view, Message, MessageArg};
use crate::semantic_checker::model::{
    arithmetic_type, checked_expression, checked_module, checked_statement, checked_statements,
    invalid_negation, invalid_operand_message, invalid_operands, negation_type, operand_label,
    operator_description, operator_label, value_type, SemanticCheckerErrorCode,
    SemanticCheckerErrorView,
};
use crate::span::{Location, Span};
use crate::token::{clone_token, Token};
use vstd::prelude::*;

verus! {

/// A diagnostic of the checker.
#[derive(Debug, PartialEq, Eq)]
pub struct SemanticCheckerError {
    /// Which diagnostic it is.
    pub code: SemanticCheckerErrorCode,
    /// What went wrong.
    pub message: Message,
    /// What may help.
    pub hint: Option<Message>,
    /// The places in the source that the diagnostic shows.
    pub labels: Vec<(LabelStyle, Location, Message)>,
    /// The identifier of the source.
    pub source_id: String,
}

impl DeepView for SemanticCheckerError {
    type V = SemanticCheckerErrorView;

    open spec fn deep_view(&self) -> SemanticCheckerErrorView {
        SemanticCheckerErrorView {
            code: self.code,
            message: self.message.deep_view(),
            hint: self.hint.deep_view(),
            labels: self.labels.deep_view(),
            source_id: self.source_id@,
        }
    }
}

/// What the checker returns.
pub type SemanticCheckerResult<T> = Result<T, SemanticCheckerError>;

/// Whether a result of the checker has the given content.
pub open spec fn delivers<T: DeepView>(
    result: SemanticCheckerResult<T>,
    outcome: Result<T::V, SemanticCheckerErrorView>,
) -> bool {
    match result {
        Ok(value) => outcome == Ok::<T::V, SemanticCheckerErrorView>(value.deep_view()),
        Err(error) => outcome == Err::<T::V, SemanticCheckerErrorView>(error.deep_view()),
    }
}

/// Once a statement of a list has a diagnostic, so has every longer
/// part of the list, and it is the same.
pub proof fn lemma_first_diagnostic_stays(
    statements: Seq<StatementView<ExpressionView>>,
    shorter: int,
    longer: int,
    source_id: Seq<char>,
)
    requires
        0 < shorter <= longer <= statements.len(),
        checked_statements(statements, shorter, source_id) is Err,
    ensures
        checked_statements(statements, longer, source_id) == checked_statements(
            statements,
            shorter,
            source_id,
        ),
    decreases longer - shorter,
{
    if shorter < longer {
        lemma_first_diagnostic_stays(statements, shorter, longer - 1, source_id);
    }
}

/// How a diagnostic names an operator.
fn describe_operator(token: &Option<Token>, fallback: &str) -> (message: Message)
    ensures
        message.deep_view() == operator_description(token.deep_view(), fallback@),
{
    match token {
        Some(token) => token.description(1, "lowercase", None, false, true),
        None => {
            let message = Message::entry(fallback, Vec::new());
            proof {
                assert(message_args_view(Seq::<MessageArg>::empty()) =~= Seq::empty());
            }
            message
        },
    }
}

/// The message of every diagnostic about an operand.
fn operand_message(token: &Option<Token>, fallback: &str) -> (message: Message)
    ensures
        message.deep_view() == invalid_operand_message(
            operator_description(token.deep_view(), fallback@),
        ),
{
    let mut args: Vec<MessageArg> = Vec::new();
    args.push(MessageArg::message("operator", describe_operator(token, fallback)));
    let message = Message::entry("semantic-checker-error-invalid-operand.message", args);
    proof {
        assert(message_args_view(args@) =~= invalid_operand_message(
            operator_description(token.deep_view(), fallback@),
        )->Entry_args);
    }
    message
}

/// Adds the label of an operator, if its token is there.
fn push_operator_label(
    labels: &mut Vec<(LabelStyle, Location, Message)>,
    token: &Option<Token>,
    fallback: &str,
)
    ensures
        final(labels).deep_view() == old(labels).deep_view() + operator_label(
            token.deep_view(),
            fallback@,
        ),
{
    let ghost before = labels.deep_view();
    match token {
        Some(operator) => {
            let description = describe_operator(token, fallback);
            labels.push((LabelStyle::Secondary, Location::Span(operator.span), description));
            proof {
                assert(labels.deep_view() =~= before + operator_label(
                    token.deep_view(),
                    fallback@,
                ));
            }
        },
        None => {
            proof {
                assert(labels.deep_view() =~= before + operator_label(
                    token.deep_view(),
                    fallback@,
                ));
            }
        },
    }
}

/// Adds the label of an operand, if its span is known.
fn push_operand_label(
    labels: &mut Vec<(LabelStyle, Location, Message)>,
    style: LabelStyle,
    span: Option<Span>,
    data_type: &DataType,
)
    ensures
        final(labels).deep_view() == old(labels).deep_view() + operand_label(
            style,
            span,
            data_type.deep_view(),
        ),
{
    let ghost before = labels.deep_view();
    match span {
        Some(span) => {
            let description = data_type.description(1, "lowercase", None, false);
            labels.push((style, Location::Span(span), description));
            proof {
                assert(labels.deep_view() =~= before + operand_label(
                    style,
                    Some(span),
                    data_type.deep_view(),
                ));
            }
        },
        None => {
            proof {
                assert(labels.deep_view() =~= before + operand_label(
                    style,
                    span,
                    data_type.deep_view(),
                ));
            }
        },
    }
}

/// The content of a unary expression.
pub open spec fn unary_view(unary: UnaryExpr<Expression>) -> ExpressionView {
    Expression::Unary(unary).deep_view()
}

/// The content of a binary expression.
pub open spec fn binary_view(binary: BinaryExpr<Expression>) -> ExpressionView {
    Expression::Binary(binary).deep_view()
}

/// The content of a grouping.
pub open spec fn grouping_view(grouping: GroupingExpr<Expression>) -> ExpressionView {
    Expression::Grouping(grouping).deep_view()
}

/// The content of a function.
pub open spec fn function_view(function: FunctionDeclStmt<Statement<Expression>>) -> StatementView<
    ExpressionView,
> {
    Statement::FunctionDeclaration(function).deep_view()
}

/// The checker of one source.
pub struct SemanticChecker {
    source_id: String,
}

impl SemanticChecker {
    /// The identifier of the source.
    pub closed spec fn source(&self) -> Seq<char> {
        self.source_id@
    }

    /// A checker for a source.
    pub fn new(source_id: String) -> (checker: Self)
        ensures
            checker.source() == source_id@,
    {
        Self { source_id }
    }

    /// The module with the type of every expression, or the first
    /// diagnostic.
    pub fn check(source_id: String, module: Module<Expression>) -> (result: SemanticCheckerResult<
        AnnotatedModule<AnnotatedExpression>,
    >)
        ensures
            delivers(result, checked_module(module.deep_view(), source_id@)),
    {
        let checker = Self::new(source_id);
        checker.visit_module(&module)
    }

    /// Checks the statements of a module in order.
    fn visit_module(&self, module: &Module<Expression>) -> (result: SemanticCheckerResult<
        AnnotatedModule<AnnotatedExpression>,
    >)
        ensures
            delivers(result, checked_module(module.deep_view(), self.source())),
    {
        let ghost views = statements_view(module.statements@);
        let mut statements: Vec<AnnotatedStatement<AnnotatedExpression>> = Vec::new();
        let mut i: usize = 0;
        assert(statements.deep_view() =~= Seq::empty());
        while i < module.statements.len()
            invariant
                i <= module.statements.len(),
                views == statements_view(module.statements@),
                checked_statements(views, i as int, self.source()) == Ok::<
                    Seq<AnnotatedStatementView>,
                    SemanticCheckerErrorView,
                >(statements.deep_view()),
            decreases module.statements.len() - i,
        {
            let ghost before = statements.deep_view();
            match self.visit_statement(&module.statements[i]) {
                Ok(statement) => {
                    statements.push(statement);
                    proof {
                        assert(statements.deep_view() =~= before.push(statement.deep_view()));
                    }
                },
                Err(error) => {
                    proof {
                        lemma_first_diagnostic_stays(
                            views,
                            i as int + 1,
                            views.len() as int,
                            self.source(),
                        );
                    }
                    return Err(error);
                },
            }
            i += 1;
        }
        Ok(AnnotatedModule { id: self.source_id.clone(), statements })
    }

    /// Checks a statement.
    fn visit_statement(&self, statement: &Statement<Expression>) -> (result: SemanticCheckerResult<
        AnnotatedStatement<AnnotatedExpression>,
    >)
        ensures
            delivers(result, checked_statement(statement.deep_view(), self.source())),
        decreases statement,
    {
        match statement {
            Statement::Expression(stmt) => self.visit_expression_stmt(stmt),
            Statement::Echo(stmt) => self.visit_echo_stmt(stmt),
            Statement::FunctionDeclaration(func) => self.visit_function_decl_stmt(func),
        }
    }

    /// Checks the statements of a function in order.
    fn visit_function_decl_stmt(
        &self,
        function: &FunctionDeclStmt<Statement<Expression>>,
    ) -> (result: SemanticCheckerResult<AnnotatedStatement<AnnotatedExpression>>)
        ensures
            delivers(result, checked_statement(function_view(*function), self.source())),
        decreases function,
    {
        let ghost views = statements_view(function.body@);
        proof {
            assert(function_view(*function)->FunctionDeclaration_0.body =~= views);
        }
        let mut body: Vec<Box<AnnotatedStatement<AnnotatedExpression>>> = Vec::new();
        let ghost mut checked: Seq<AnnotatedStatementView> = Seq::empty();
        let mut i: usize = 0;
        while i < function.body.len()
            invariant
                i <= function.body.len(),
                views == statements_view(function.body@),
                function_view(*function)->FunctionDeclaration_0.body == views,
                checked_statements(views, i as int, self.source()) == Ok::<
                    Seq<AnnotatedStatementView>,
                    SemanticCheckerErrorView,
                >(checked),
                checked.len() == body@.len(),
                forall|j: int|
                    0 <= j < body@.len() ==> checked[j] == annotated_statement_view(
                        *#[trigger] body@[j],
                    ),
            decreases function.body.len() - i,
        {
            match self.visit_statement(&*function.body[i]) {
                Ok(stmt) => {
                    proof {
                        checked = checked.push(stmt.deep_view());
                    }
                    body.push(Box::new(stmt));
                },
                Err(error) => {
                    proof {
                        lemma_first_diagnostic_stays(
                            views,
                            i as int + 1,
                            views.len() as int,
                            self.source(),
                        );
                    }
                    return Err(error);
                },
            }
            i += 1;
        }
        let mut parameters: Vec<FunctionDeclParameter> = Vec::new();
        let mut k: usize = 0;
        while k < function.parameters.len()
            invariant
                k <= function.parameters.len(),
                parameters@.len() == k,
                forall|j: int|
                    0 <= j < k ==> (#[trigger] parameters@[j]).deep_view()
                        == function.parameters@[j].deep_view(),
            decreases function.parameters.len() - k,
        {
            parameters.push(function.parameters[k].clone());
            k += 1;
        }
        let annotated = AnnotatedStatement::FunctionDecl(
            AnnotatedAst {
                inner: FunctionDeclStmt {
                    function_token: clone_token(&function.function_token),
                    name: clone_token(&function.name),
                    left_paren_token: clone_token(&function.left_paren_token),
                    parameters,
                    right_paren_token: clone_token(&function.right_paren_token),
                    body,
                },
                data_type: None,
            },
        );
        proof {
            assert(annotated.deep_view()->FunctionDecl_body =~= checked);
            assert(annotated.deep_view()->FunctionDecl_parameters =~= parameters_view(
                function.parameters@,
            ));
        }
        Ok(annotated)
    }

    /// Checks the expression of an expression statement.
    fn visit_expression_stmt(&self, expression_stmt: &ExpressionStmt<Expression>) -> (result:
        SemanticCheckerResult<AnnotatedStatement<AnnotatedExpression>>)
        ensures
            delivers(
                result,
                checked_statement(
                    StatementView::Expression {
                        expression: expression_stmt.expression.deep_view(),
                    },
                    self.source(),
                ),
            ),
    {
        match self.visit_expression(&expression_stmt.expression) {
            Ok(annotated_expression) => Ok(
                AnnotatedStatement::Expression(
                    AnnotatedAst {
                        inner: ExpressionStmt { expression: annotated_expression },
                        data_type: None,
                    },
                ),
            ),
            Err(error) => Err(error),
        }
    }

    /// Checks the expression of an `echo`.
    fn visit_echo_stmt(&self, echo_stmt: &EchoStmt<Expression>) -> (result: SemanticCheckerResult<
        AnnotatedStatement<AnnotatedExpression>,
    >)
        ensures
            delivers(
                result,
                checked_statement(
                    StatementView::Echo {
                        echo_token: echo_stmt.echo_token.deep_view(),
                        expression: echo_stmt.expression.deep_view(),
                    },
                    self.source(),
                ),
            ),
    {
        match self.visit_expression(&echo_stmt.expression) {
            Ok(annotated_expression) => Ok(
                AnnotatedStatement::Echo(
                    AnnotatedAst {
                        inner: EchoStmt {
                            echo_token: clone_token(&echo_stmt.echo_token),
                            expression: annotated_expression,
                        },
                        data_type: None,
                    },
                ),
            ),
            Err(error) => Err(error),
        }
    }

    /// Checks an expression.
    fn visit_expression(&self, expression: &Expression) -> (result: SemanticCheckerResult<
        AnnotatedExpression,
    >)
        ensures
            delivers(result, checked_expression(expression.deep_view(), self.source())),
        decreases expression,
    {
        match expression {
            Expression::Literal(literal) => self.visit_literal_expr(literal),
            Expression::Grouping(grouping) => self.visit_grouping_expr(grouping),
            Expression::Unary(unary) => self.visit_unary_expr(unary),
            Expression::Binary(binary) => self.visit_binary_expr(binary),
        }
    }

    /// Checks the operand of a unary operator, then the operator.
    fn visit_unary_expr(&self, unary_expr: &UnaryExpr<Expression>) -> (result:
        SemanticCheckerResult<AnnotatedExpression>)
        ensures
            delivers(result, checked_expression(unary_view(*unary_expr), self.source())),
        decreases unary_expr,
    {
        let right = match self.visit_expression(&*unary_expr.right) {
            Ok(right) => right,
            Err(error) => {
                return Err(error);
            },
        };
        let data_type = match self.check_unary_negate_operands(unary_expr, right.get_data_type()) {
            Ok(data_type) => data_type,
            Err(error) => {
                return Err(error);
            },
        };
        Ok(
            AnnotatedExpression::Unary(
                AnnotatedAst {
                    inner: UnaryExpr {
                        operator: unary_expr.operator,
                        operator_token: clone_token(&unary_expr.operator_token),
                        right: Box::new(right),
                    },
                    data_type,
                },
            ),
        )
    }

    /// Checks what a grouping holds; the grouping itself leaves no node.
    fn visit_grouping_expr(&self, grouping: &GroupingExpr<Expression>) -> (result:
        SemanticCheckerResult<AnnotatedExpression>)
        ensures
            delivers(result, checked_expression(grouping_view(*grouping), self.source())),
        decreases grouping,
    {
        self.visit_expression(&*grouping.expression)
    }

    /// Gives a literal the type of its value.
    fn visit_literal_expr(&self, literal: &LiteralExpr) -> (result: SemanticCheckerResult<
        AnnotatedExpression,
    >)
        ensures
            delivers(
                result,
                checked_expression(ExpressionView::Literal(literal.deep_view()), self.source()),
            ),
    {
        let known = match literal.value {
            Value::UInt8(_) => KnownDataType::UInt8,
            Value::UInt16(_) => KnownDataType::UInt16,
            Value::UInt32(_) => KnownDataType::UInt32,
            Value::UInt64(_) => KnownDataType::UInt64,
            Value::Int8(_) => KnownDataType::Int8,
            Value::Int16(_) => KnownDataType::Int16,
            Value::Int32(_) => KnownDataType::Int32,
            Value::Int64(_) => KnownDataType::Int64,
            Value::Int(_) => KnownDataType::Int,
            Value::UInt(_) => KnownDataType::UInt,
            Value::Float32(_) => KnownDataType::Float32,
            Value::Double(_) => KnownDataType::Double,
        };
        Ok(
            AnnotatedExpression::Literal(
                AnnotatedAst { inner: literal.clone(), data_type: DataType::Known(known) },
            ),
        )
    }

    /// Checks the operands of a binary operator from left to right, then
    /// the operator.
    fn visit_binary_expr(&self, binary: &BinaryExpr<Expression>) -> (result:
        SemanticCheckerResult<AnnotatedExpression>)
        ensures
            delivers(result, checked_expression(binary_view(*binary), self.source())),
        decreases binary,
    {
        let left = match self.visit_expression(&*binary.left) {
            Ok(left) => left,
            Err(error) => {
                return Err(error);
            },
        };
        let right = match self.visit_expression(&*binary.right) {
            Ok(right) => right,
            Err(error) => {
                return Err(error);
            },
        };
        let data_type = match self.check_binary_arithmetic_operands(
            binary,
            left.get_data_type(),
            right.get_data_type(),
        ) {
            Ok(data_type) => data_type,
            Err(error) => {
                return Err(error);
            },
        };
        Ok(
            AnnotatedExpression::Binary(
                AnnotatedAst {
                    inner: BinaryExpr {
                        left: Box::new(left),
                        operator: binary.operator,
                        operator_token: clone_token(&binary.operator_token),
                        right: Box::new(right),
                    },
                    data_type,
                },
            ),
        )
    }

    /// The type of `-` before an operand of type `rhs`: that type where
    /// it is a signed integer or a float, else the diagnostic.
    fn check_unary_negate_operands(&self, unary: &UnaryExpr<Expression>, rhs: &DataType) -> (result:
        SemanticCheckerResult<DataType>)
        ensures
            delivers(
                result,
                negation_type(
                    unary.operator_token.deep_view(),
                    unary.right.deep_view().span(),
                    rhs.deep_view(),
                    self.source(),
                ),
            ),
    {
        if rhs.is_floating_point() || rhs.is_signed_integer() {
            return Ok(rhs.clone());
        }
        let fallback = "semantic-checker-error-invalid-operand.negate-operator";
        let mut labels: Vec<(LabelStyle, Location, Message)> = Vec::new();
        assert(labels.deep_view() =~= Seq::empty());
        push_operator_label(&mut labels, &unary.operator_token, fallback);
        push_operand_label(&mut labels, LabelStyle::Primary, unary.right.get_span(), rhs);
        let mut hint_args: Vec<MessageArg> = Vec::new();
        hint_args.push(MessageArg::message("data_type", rhs.description(1, "uppercase", None, true)));
        hint_args.push(
            MessageArg::message("operator", describe_operator(&unary.operator_token, fallback)),
        );
        let hint = Message::entry("semantic-checker-error-invalid-operand.negate-hint", hint_args);
        let error = SemanticCheckerError {
            code: SemanticCheckerErrorCode::InvalidOperand,
            message: operand_message(&unary.operator_token, fallback),
            hint: Some(hint),
            labels,
            source_id: self.source_id.clone(),
        };
        proof {
            let expected = invalid_negation(
                unary.operator_token.deep_view(),
                unary.right.deep_view().span(),
                rhs.deep_view(),
                self.source(),
            );
            assert(message_args_view(hint_args@) =~= expected.hint->0->Entry_args);
            assert(error.deep_view().labels =~= expected.labels);
        }
        Err(error)
    }

    /// The type of an arithmetic operator between operands of types
    /// `lhs` and `rhs`: the type they come to, else the diagnostic.
    fn check_binary_arithmetic_operands(
        &self,
        binary: &BinaryExpr<Expression>,
        lhs: &DataType,
        rhs: &DataType,
    ) -> (result: SemanticCheckerResult<DataType>)
        ensures
            delivers(
                result,
                arithmetic_type(
                    binary.operator_token.deep_view(),
                    binary.left.deep_view().span(),
                    binary.right.deep_view().span(),
                    lhs.deep_view(),
                    rhs.deep_view(),
                    self.source(),
                ),
            ),
    {
        match DataType::binary_expr_result_data_type(lhs, rhs) {
            Some(data_type) => {
                return Ok(data_type);
            },
            None => {},
        }
        let fallback = "semantic-checker-error-invalid-operand.binary-operator";
        let mut labels: Vec<(LabelStyle, Location, Message)> = Vec::new();
        assert(labels.deep_view() =~= Seq::empty());
        push_operator_label(&mut labels, &binary.operator_token, fallback);
        push_operand_label(&mut labels, LabelStyle::Secondary, binary.left.get_span(), lhs);
        push_operand_label(&mut labels, LabelStyle::Primary, binary.right.get_span(), rhs);
        let mut hint_args: Vec<MessageArg> = Vec::new();
        hint_args.push(
            MessageArg::message("data_type1", lhs.description(1, "uppercase", None, true)),
        );
        hint_args.push(
            MessageArg::message("data_type2", rhs.description(1, "lowercase", None, true)),
        );
        hint_args.push(
            MessageArg::message("operator", describe_operator(&binary.operator_token, fallback)),
        );
        let hint = Message::entry("semantic-checker-error-invalid-operand.binary-hint", hint_args);
        let error = SemanticCheckerError {
            code: SemanticCheckerErrorCode::InvalidOperand,
            message: operand_message(&binary.operator_token, fallback),
            hint: Some(hint),
            labels,
            source_id: self.source_id.clone(),
        };
        proof {
            let expected = invalid_operands(
                binary.operator_token.deep_view(),
                binary.left.deep_view().span(),
                binary.right.deep_view().span(),
                lhs.deep_view(),
                rhs.deep_view(),
                self.source(),
            );
            assert(message_args_view(hint_args@) =~= expected.hint->0->Entry_args);
            assert(error.deep_view().labels =~= expected.labels);
        }
        Err(error)
    }
}

impl AstVisitor<
    Expression,
    Statement<Expression>,
    SemanticCheckerResult<AnnotatedModule<AnnotatedExpression>>,
    SemanticCheckerResult<AnnotatedExpression>,
    SemanticCheckerResult<AnnotatedStatement<AnnotatedExpression>>,
> for SemanticChecker {
    /// Checks the statements of a module in order.
    fn visit_module(&mut self, module: &Module<Expression>) -> (result: SemanticCheckerResult<
        AnnotatedModule<AnnotatedExpression>,
    >)
        ensures
            *final(self) == *old(self),
            delivers(result, checked_module(module.deep_view(), old(self).source())),
    {
        SemanticChecker::visit_module(self, module)
    }

    /// Checks a statement.
    fn visit_statement(&mut self, statement: &Statement<Expression>) -> (result:
        SemanticCheckerResult<AnnotatedStatement<AnnotatedExpression>>)
        ensures
            *final(self) == *old(self),
            delivers(result, checked_statement(statement.deep_view(), old(self).source())),
    {
        SemanticChecker::visit_statement(self, statement)
    }

    /// Checks the expression of an expression statement.
    fn visit_expression_stmt(&mut self, expression_stmt: &ExpressionStmt<Expression>) -> (result:
        SemanticCheckerResult<AnnotatedStatement<AnnotatedExpression>>)
        ensures
            *final(self) == *old(self),
            delivers(
                result,
                checked_statement(
                    StatementView::Expression {
                        expression: expression_stmt.expression.deep_view(),
                    },
                    old(self).source(),
                ),
            ),
    {
        SemanticChecker::visit_expression_stmt(self, expression_stmt)
    }

    /// Checks the expression of an `echo`.
    fn visit_echo_stmt(&mut self, echo_stmt: &EchoStmt<Expression>) -> (result:
        SemanticCheckerResult<AnnotatedStatement<AnnotatedExpression>>)
        ensures
            *final(self) == *old(self),
            delivers(
                result,
                checked_statement(
                    StatementView::Echo {
                        echo_token: echo_stmt.echo_token.deep_view(),
                        expression: echo_stmt.expression.deep_view(),
                    },
                    old(self).source(),
                ),
            ),
    {
        SemanticChecker::visit_echo_stmt(self, echo_stmt)
    }

    /// Checks the statements of a function in order.
    fn visit_function_decl_stmt(
        &mut self,
        function_decl_stmt: &FunctionDeclStmt<Statement<Expression>>,
    ) -> (result: SemanticCheckerResult<AnnotatedStatement<AnnotatedExpression>>)
        ensures
            *final(self) == *old(self),
            delivers(
                result,
                checked_statement(function_view(*function_decl_stmt), old(self).source()),
            ),
    {
        SemanticChecker::visit_function_decl_stmt(self, function_decl_stmt)
    }

    /// Checks an expression.
    fn visit_expression(&mut self, expression: &Expression) -> (result: SemanticCheckerResult<
        AnnotatedExpression,
    >)
        ensures
            *final(self) == *old(self),
            delivers(result, checked_expression(expression.deep_view(), old(self).source())),
    {
        SemanticChecker::visit_expression(self, expression)
    }

    /// Gives a literal the type of its value.
    fn visit_literal_expr(&mut self, literal_expr: &LiteralExpr) -> (result: SemanticCheckerResult<
        AnnotatedExpression,
    >)
        ensures
            *final(self) == *old(self),
            delivers(
                result,
                checked_expression(
                    ExpressionView::Literal(literal_expr.deep_view()),
                    old(self).source(),
                ),
            ),
    {
        SemanticChecker::visit_literal_expr(self, literal_expr)
    }

    /// Checks what a grouping holds.
    fn visit_grouping_expr(&mut self, grouping_expr: &GroupingExpr<Expression>) -> (result:
        SemanticCheckerResult<AnnotatedExpression>)
        ensures
            *final(self) == *old(self),
            delivers(result, checked_expression(grouping_view(*grouping_expr), old(self).source())),
    {
        SemanticChecker::visit_grouping_expr(self, grouping_expr)
    }

    /// Checks the operand of a unary operator, then the operator.
    fn visit_unary_expr(&mut self, unary_expr: &UnaryExpr<Expression>) -> (result:
        SemanticCheckerResult<AnnotatedExpression>)
        ensures
            *final(self) == *old(self),
            delivers(result, checked_expression(unary_view(*unary_expr), old(self).source())),
    {
        SemanticChecker::visit_unary_expr(self, unary_expr)
    }

    /// Checks the operands of a binary operator, then the operator.
    fn visit_binary_expr(&mut self, binary_expr: &BinaryExpr<Expression>) -> (result:
        SemanticCheckerResult<AnnotatedExpression>)
        ensures
            *final(self) == *old(self),
            delivers(result, checked_expression(binary_view(*binary_expr), old(self).source())),
    {
        SemanticChecker::visit_binary_expr(self, binary_expr)
    }
}

} // verus!
