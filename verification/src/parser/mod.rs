//! The parser: from tokens to the syntax tree.

pub mod laws;
pub mod literal;
pub mod model;

use crate::ast::{
    lemma_statement_span, statements_view, BinaryExpr, BinaryOperator, EchoStmt, Expression,
    ExpressionStmt, ExpressionView, FunctionDeclStmt, GetSpan, GroupingExpr, LiteralExpr, Module,
    ModuleView, Statement, StatementView, UnaryExpr, UnaryOperator,
};
use crate::message::Message;
use crate::parser::literal::{read_float_literal, read_integer_literal};
use crate::parser::model::{
    binary_operator, continued, expected_expression, expression_at, literal_expression,
    main_function, module_of, newlines_end, parsable, parse_rule, right_operand_precedence,
    statement_at, statements_from, Associativity, InfixHandler, ParseRule, Parsed,
    ParserErrorCode, ParserErrorView, Precedence, PrefixHandler,
};
use crate::span::{Location, Position, Span};
use crate::token::{
    FloatLiteralToken, IntegerLiteralToken, LiteralTokenKind, Token, TokenKind, TokenView,
};
use vstd::prelude::*;

verus! {

/// A diagnostic of the parser.
#[derive(Debug, PartialEq, Eq)]
pub struct ParserError {
    /// Which diagnostic it is.
    pub code: ParserErrorCode,
    /// What went wrong.
    pub message: Message,
    /// What may help.
    pub hint: Option<Message>,
    /// Where in the source it went wrong.
    pub location: Location,
    /// The identifier of the source.
    pub source_id: String,
}

impl DeepView for ParserError {
    type V = ParserErrorView;

    open spec fn deep_view(&self) -> ParserErrorView {
        ParserErrorView {
            code: self.code,
            message: self.message.deep_view(),
            hint: self.hint.deep_view(),
            location: self.location,
            source_id: self.source_id@,
        }
    }
}

/// What the parser returns.
pub type ParserResult<T> = Result<T, ParserError>;

/// Whether a result of the parser, with the position the parser has
/// come to, has the given content.
pub open spec fn delivers<T: DeepView>(
    result: ParserResult<T>,
    position: int,
    outcome: Parsed<T::V>,
) -> bool {
    match result {
        Ok(value) => outcome == Ok::<(T::V, int), ParserErrorView>((value.deep_view(), position)),
        Err(error) => outcome == Err::<(T::V, int), ParserErrorView>(error.deep_view()),
    }
}

/// The rank of a precedence.
fn level(precedence: Precedence) -> (rank: u8)
    ensures
        rank == precedence.level(),
{
    match precedence {
        Precedence::Lowest => 0,
        Precedence::Term => 1,
        Precedence::Factor => 2,
        Precedence::Unary => 3,
        Precedence::Exponent => 4,
        Precedence::Primary => 5,
    }
}

/// The precedence one rank above.
fn next_precedence(precedence: Precedence) -> (next: Precedence)
    ensures
        next == precedence.next(),
{
    match precedence {
        Precedence::Lowest => Precedence::Term,
        Precedence::Term => Precedence::Factor,
        Precedence::Factor => Precedence::Unary,
        Precedence::Unary => Precedence::Exponent,
        Precedence::Exponent => Precedence::Primary,
        Precedence::Primary => Precedence::Primary,
    }
}

/// The parser: the tokens of a source and how far reading has come.
pub struct Parser {
    source_id: String,
    tokens: Vec<Token>,
    current: usize,
    is_main_module: bool,
}

impl Parser {
    /// The contents of the tokens.
    pub closed spec fn tokens_view(&self) -> Seq<TokenView> {
        self.tokens.deep_view()
    }

    /// The identifier of the source.
    pub closed spec fn source(&self) -> Seq<char> {
        self.source_id@
    }

    /// The number of tokens that were read.
    pub closed spec fn position(&self) -> int {
        self.current as int
    }

    /// Whether the module is the one the program begins with.
    pub closed spec fn main_module(&self) -> bool {
        self.is_main_module
    }

    /// The tokens end with the end of input, and reading has not come
    /// behind them.
    pub open spec fn well_formed(&self) -> bool {
        parsable(self.tokens_view()) && 0 <= self.position() < self.tokens_view().len()
    }

    /// Whether two parsers read the same tokens of the same source.
    pub open spec fn same_input(&self, other: &Parser) -> bool {
        &&& self.tokens_view() == other.tokens_view()
        &&& self.source() == other.source()
        &&& self.main_module() == other.main_module()
    }

    /// A parser before the first token.
    fn new(tokens: Vec<Token>, source_id: String, is_main_module: bool) -> (parser: Parser)
        requires
            parsable(tokens.deep_view()),
        ensures
            parser.well_formed(),
            parser.tokens_view() == tokens.deep_view(),
            parser.source() == source_id@,
            parser.main_module() == is_main_module,
            parser.position() == 0,
    {
        Parser { source_id, tokens, is_main_module, current: 0 }
    }

    /// The module of a sequence of tokens that ends with the end of
    /// input, or the first diagnostic. The statements of a main module
    /// are wrapped in one function, `main`.
    pub fn parse(source_id: String, is_main_module: bool, tokens: Vec<Token>) -> (result:
        ParserResult<Module<Expression>>)
        requires
            parsable(tokens.deep_view()),
        ensures
            match result {
                Ok(module) => module_of(tokens.deep_view(), source_id@, is_main_module) == Ok::<
                    ModuleView<ExpressionView>,
                    ParserErrorView,
                >(module.deep_view()),
                Err(error) => module_of(tokens.deep_view(), source_id@, is_main_module) == Err::<
                    ModuleView<ExpressionView>,
                    ParserErrorView,
                >(error.deep_view()),
            },
    {
        let mut parser = Parser::new(tokens, source_id, is_main_module);
        parser.parse_module()
    }

    /// Reads the module from the first token on.
    fn parse_module(&mut self) -> (result: ParserResult<Module<Expression>>)
        requires
            old(self).well_formed(),
            old(self).position() == 0,
        ensures
            match result {
                Ok(module) => module_of(
                    old(self).tokens_view(),
                    old(self).source(),
                    old(self).main_module(),
                ) == Ok::<ModuleView<ExpressionView>, ParserErrorView>(module.deep_view()),
                Err(error) => module_of(
                    old(self).tokens_view(),
                    old(self).source(),
                    old(self).main_module(),
                ) == Err::<ModuleView<ExpressionView>, ParserErrorView>(error.deep_view()),
            },
    {
        self.consume_newlines();
        let statements = match self.parse_statements() {
            Ok(statements) => statements,
            Err(error) => {
                return Err(error);
            },
        };
        if self.is_main_module {
            let first_stmt_span = if statements.len() > 0 {
                proof {
                    lemma_statement_span(*statements@[0]);
                }
                statements[0].get_span()
            } else {
                None
            };
            let ghost body = statements_view(statements@);
            let func = FunctionDeclStmt {
                function_token: Some(
                    Token::new(
                        TokenKind::Function,
                        match first_stmt_span {
                            Some(span) => span,
                            None => Span::default(),
                        },
                        "func".to_string(),
                        self.source_id.clone(),
                    ),
                ),
                name: Some(
                    Token::new(
                        TokenKind::Identifier,
                        Span::default(),
                        "main".to_string(),
                        self.source_id.clone(),
                    ),
                ),
                left_paren_token: None,
                parameters: Vec::new(),
                right_paren_token: None,
                body: statements,
            };
            let mut wrapped: Vec<Box<Statement<Expression>>> = Vec::new();
            wrapped.push(Box::new(Statement::FunctionDeclaration(func)));
            let module = Module { id: self.source_id.clone(), statements: wrapped };
            proof {
                let function = wrapped@[0].deep_view();
                assert(function->FunctionDeclaration_0.body =~= body);
                assert(function->FunctionDeclaration_0.parameters =~= Seq::empty());
                assert(function == main_function(self.source(), body));
                assert(module.deep_view().statements =~= seq![
                    main_function(self.source(), body),
                ]);
            }
            Ok(module)
        } else {
            Ok(Module { id: self.source_id.clone(), statements })
        }
    }

    /// Whether the next token is the end of input.
    fn is_eoi(&self) -> (result: bool)
        requires
            self.well_formed(),
        ensures
            result == (self.tokens_view()[self.position()].kind == TokenKind::EndOfInput),
    {
        match self.tokens[self.current].kind {
            TokenKind::EndOfInput => true,
            _ => false,
        }
    }

    /// Reads statements up to the end of input.
    fn parse_statements(&mut self) -> (result: ParserResult<Vec<Box<Statement<Expression>>>>)
        requires
            old(self).well_formed(),
        ensures
            final(self).same_input(old(self)),
            match result {
                Ok(statements) => statements_from(
                    old(self).tokens_view(),
                    old(self).source(),
                    old(self).position(),
                ) == Ok::<Seq<StatementView<ExpressionView>>, ParserErrorView>(
                    statements_view(statements@),
                ),
                Err(error) => statements_from(
                    old(self).tokens_view(),
                    old(self).source(),
                    old(self).position(),
                ) == Err::<Seq<StatementView<ExpressionView>>, ParserErrorView>(error.deep_view()),
            },
    {
        let ghost tokens = self.tokens_view();
        let ghost source = self.source();
        let ghost goal = statements_from(tokens, source, self.position());
        let mut statements: Vec<Box<Statement<Expression>>> = Vec::new();
        assert(statements_view(statements@) =~= Seq::empty());
        while !self.is_eoi()
            invariant
                self.well_formed(),
                self.same_input(old(self)),
                tokens == old(self).tokens_view(),
                source == old(self).source(),
                goal == statements_from(tokens, source, old(self).position()),
                match statements_from(tokens, source, self.position()) {
                    Ok(rest) => goal == Ok::<Seq<StatementView<ExpressionView>>, ParserErrorView>(
                        statements_view(statements@) + rest,
                    ),
                    Err(error) => goal == Err::<
                        Seq<StatementView<ExpressionView>>,
                        ParserErrorView,
                    >(error),
                },
            decreases self.tokens_view().len() - self.position(),
        {
            let ghost before = statements_view(statements@);
            match self.parse_statement() {
                Ok(mut statement) => {
                    let ghost one = statements_view(statement@);
                    statements.append(&mut statement);
                    proof {
                        assert(statements_view(statements@) =~= before + one);
                        assert(forall|rest: Seq<StatementView<ExpressionView>>|
                            before + (one + rest) =~= (before + one) + rest);
                    }
                },
                Err(error) => {
                    return Err(error);
                },
            }
        }
        proof {
            assert(statements_view(statements@) + Seq::empty() =~= statements_view(statements@));
        }
        Ok(statements)
    }

    /// Passes over the line breaks that come next.
    fn consume_newlines(&mut self)
        requires
            old(self).well_formed(),
        ensures
            final(self).well_formed(),
            final(self).same_input(old(self)),
            final(self).position() == newlines_end(old(self).tokens_view(), old(self).position()),
            final(self).position() >= old(self).position(),
    {
        let ghost tokens = self.tokens_view();
        let ghost end = newlines_end(tokens, self.position());
        while self.next_is_newline()
            invariant
                self.well_formed(),
                self.same_input(old(self)),
                tokens == self.tokens_view(),
                self.position() >= old(self).position(),
                newlines_end(tokens, self.position()) == end,
            decreases self.tokens_view().len() - self.position(),
        {
            self.step();
        }
    }

    /// Moves behind the next token, which is not the end of input.
    fn step(&mut self)
        requires
            old(self).well_formed(),
            old(self).tokens_view()[old(self).position()].kind != TokenKind::EndOfInput,
        ensures
            final(self).well_formed(),
            final(self).same_input(old(self)),
            final(self).position() == old(self).position() + 1,
    {
        let length = self.tokens.len();
        assert(self.current + 1 < length);
        self.current = self.current + 1;
    }

    /// Whether the next token is a line break.
    fn next_is_newline(&self) -> (result: bool)
        requires
            self.well_formed(),
        ensures
            result == (self.tokens_view()[self.position()].kind == TokenKind::NewLine),
    {
        match self.tokens[self.current].kind {
            TokenKind::NewLine => true,
            _ => false,
        }
    }

    /// Reads one statement and the line breaks behind it.
    fn parse_statement(&mut self) -> (result: ParserResult<Vec<Box<Statement<Expression>>>>)
        requires
            old(self).well_formed(),
        ensures
            final(self).same_input(old(self)),
            match result {
                Ok(statements) => {
                    &&& final(self).well_formed()
                    &&& statement_at(
                        old(self).tokens_view(),
                        old(self).source(),
                        old(self).position(),
                    ) matches Ok((statement, next))
                    &&& statements_view(statements@) == seq![statement]
                    &&& final(self).position() == newlines_end(old(self).tokens_view(), next)
                    &&& final(self).position() > old(self).position()
                },
                Err(error) => statement_at(
                    old(self).tokens_view(),
                    old(self).source(),
                    old(self).position(),
                ) == Err::<(StatementView<ExpressionView>, int), ParserErrorView>(
                    error.deep_view(),
                ),
            },
    {
        let stmts = match self.parse_simple_stmts() {
            Ok(stmts) => stmts,
            Err(error) => {
                return Err(error);
            },
        };
        self.consume_newlines();
        Ok(stmts)
    }

    /// Reads the statements of one line; for now a line holds one.
    fn parse_simple_stmts(&mut self) -> (result: ParserResult<Vec<Box<Statement<Expression>>>>)
        requires
            old(self).well_formed(),
        ensures
            final(self).same_input(old(self)),
            match result {
                Ok(statements) => {
                    &&& final(self).well_formed()
                    &&& statement_at(
                        old(self).tokens_view(),
                        old(self).source(),
                        old(self).position(),
                    ) == Ok::<(StatementView<ExpressionView>, int), ParserErrorView>(
                        (statements_view(statements@)[0], final(self).position()),
                    )
                    &&& statements@.len() == 1
                    &&& final(self).position() > old(self).position()
                },
                Err(error) => statement_at(
                    old(self).tokens_view(),
                    old(self).source(),
                    old(self).position(),
                ) == Err::<(StatementView<ExpressionView>, int), ParserErrorView>(
                    error.deep_view(),
                ),
            },
    {
        let stmt = match self.parse_simple_stmt() {
            Ok(stmt) => stmt,
            Err(error) => {
                return Err(error);
            },
        };
        let mut stmts: Vec<Box<Statement<Expression>>> = Vec::new();
        stmts.push(stmt);
        Ok(stmts)
    }

    /// Reads one statement: `echo` with an expression, or an expression.
    fn parse_simple_stmt(&mut self) -> (result: ParserResult<Box<Statement<Expression>>>)
        requires
            old(self).well_formed(),
        ensures
            final(self).same_input(old(self)),
            delivers(
                result,
                final(self).position(),
                statement_at(old(self).tokens_view(), old(self).source(), old(self).position()),
            ),
            result is Ok ==> final(self).well_formed() && final(self).position() > old(
                self,
            ).position(),
    {
        if self.match_and_consume(TokenKind::Echo) {
            self.parse_echo_stmt()
        } else {
            self.parse_expression_stmt()
        }
    }

    /// Passes over the next token if it is of the given kind, which is
    /// not the end of input.
    fn match_and_consume(&mut self, kind: TokenKind) -> (result: bool)
        requires
            old(self).well_formed(),
            kind != TokenKind::EndOfInput,
        ensures
            final(self).well_formed(),
            final(self).same_input(old(self)),
            result == (old(self).tokens_view()[old(self).position()].kind == kind),
            final(self).position() == old(self).position() + if result {
                1int
            } else {
                0int
            },
    {
        if self.tokens[self.current].kind == kind {
            self.step();
            true
        } else {
            false
        }
    }

    /// Passes over the next token, which is not the end of input, and
    /// returns it.
    fn advance(&mut self) -> (token: Token)
        requires
            old(self).well_formed(),
            old(self).tokens_view()[old(self).position()].kind != TokenKind::EndOfInput,
        ensures
            final(self).well_formed(),
            final(self).same_input(old(self)),
            final(self).position() == old(self).position() + 1,
            token.deep_view() == old(self).tokens_view()[old(self).position()],
    {
        self.step();
        self.tokens[self.current - 1].clone()
    }

    /// The token that was read last.
    fn previous(&self) -> (token: Token)
        requires
            self.well_formed(),
            self.position() > 0,
        ensures
            token.deep_view() == self.tokens_view()[self.position() - 1],
    {
        self.tokens[self.current - 1].clone()
    }

    /// The token that comes next.
    fn peek(&self) -> (token: Token)
        requires
            self.well_formed(),
        ensures
            token.deep_view() == self.tokens_view()[self.position()],
    {
        self.tokens[self.current].clone()
    }

    /// The diagnostic that an expression was expected where a token
    /// stands.
    fn expected_expression(&self, token: &Token) -> (error: ParserError)
        ensures
            error.deep_view() == expected_expression(token.deep_view(), self.source()),
    {
        ParserError {
            code: ParserErrorCode::ExpectedExpression,
            message: Message::joined(
                Message::text("expected an expression, found "),
                token.description(1, "lowercase", None, true, true),
            ),
            hint: None,
            location: Location::Span(token.span),
            source_id: self.source_id.clone(),
        }
    }

    /// Reads the expression behind `echo`, which was read last.
    fn parse_echo_stmt(&mut self) -> (result: ParserResult<Box<Statement<Expression>>>)
        requires
            old(self).well_formed(),
            old(self).position() > 0,
            old(self).tokens_view()[old(self).position() - 1].kind == TokenKind::Echo,
        ensures
            final(self).same_input(old(self)),
            delivers(
                result,
                final(self).position(),
                statement_at(
                    old(self).tokens_view(),
                    old(self).source(),
                    old(self).position() - 1,
                ),
            ),
            result is Ok ==> final(self).well_formed() && final(self).position() > old(
                self,
            ).position(),
    {
        let echo_token = self.previous();
        match self.parse_expression() {
            Ok(expression) => Ok(
                Box::new(Statement::Echo(EchoStmt { echo_token: Some(echo_token), expression })),
            ),
            Err(error) => Err(error),
        }
    }

    /// Reads an expression that stands as a statement.
    fn parse_expression_stmt(&mut self) -> (result: ParserResult<Box<Statement<Expression>>>)
        requires
            old(self).well_formed(),
            old(self).tokens_view()[old(self).position()].kind != TokenKind::Echo,
        ensures
            final(self).same_input(old(self)),
            delivers(
                result,
                final(self).position(),
                statement_at(old(self).tokens_view(), old(self).source(), old(self).position()),
            ),
            result is Ok ==> final(self).well_formed() && final(self).position() > old(
                self,
            ).position(),
    {
        match self.parse_expression() {
            Ok(expression) => Ok(Box::new(Statement::Expression(ExpressionStmt { expression }))),
            Err(error) => Err(error),
        }
    }

    /// Reads an expression with operators of any precedence.
    fn parse_expression(&mut self) -> (result: ParserResult<Expression>)
        requires
            old(self).well_formed(),
        ensures
            final(self).same_input(old(self)),
            delivers(
                result,
                final(self).position(),
                expression_at(
                    old(self).tokens_view(),
                    old(self).source(),
                    old(self).position(),
                    Precedence::Term,
                ),
            ),
            result is Ok ==> final(self).well_formed() && final(self).position() > old(
                self,
            ).position(),
        decreases old(self).tokens_view().len() - old(self).position(), 1int,
    {
        self.pratt_parse(Precedence::Term)
    }

    /// Reads an expression whose operators bind at least as strongly as
    /// `precedence`: a prefix expression, continued by infix operators.
    fn pratt_parse(&mut self, precedence: Precedence) -> (result: ParserResult<Expression>)
        requires
            old(self).well_formed(),
        ensures
            final(self).same_input(old(self)),
            delivers(
                result,
                final(self).position(),
                expression_at(
                    old(self).tokens_view(),
                    old(self).source(),
                    old(self).position(),
                    precedence,
                ),
            ),
            result is Ok ==> final(self).well_formed() && final(self).position() > old(
                self,
            ).position(),
        decreases old(self).tokens_view().len() - old(self).position(), 0int,
    {
        let ghost tokens = self.tokens_view();
        let ghost source = self.source();
        let ghost begin = self.position();
        let lhs_token = self.peek();
        let prefix_rule = self.get_parse_rule(lhs_token.kind);
        let handler = match prefix_rule.prefix_fn {
            Some(handler) => handler,
            None => {
                return Err(self.expected_expression(&lhs_token));
            },
        };
        self.advance();
        let prefix = match handler {
            PrefixHandler::Literal => self.parse_literal_expr(),
            PrefixHandler::Unary => self.parse_unary_expr(),
            PrefixHandler::Grouping => self.parse_grouping_expr(),
        };
        let mut lhs = match prefix {
            Ok(lhs) => lhs,
            Err(error) => {
                return Err(error);
            },
        };
        let ghost goal = expression_at(tokens, source, begin, precedence);
        assert(goal == continued(tokens, source, self.position(), lhs.deep_view(), precedence));
        loop
            invariant
                self.well_formed(),
                self.same_input(old(self)),
                tokens == old(self).tokens_view(),
                source == old(self).source(),
                begin == old(self).position(),
                self.position() > begin,
                goal == expression_at(tokens, source, begin, precedence),
                goal == continued(tokens, source, self.position(), lhs.deep_view(), precedence),
            decreases self.tokens_view().len() - self.position(),
        {
            let token = self.peek();
            let rule = self.get_parse_rule(token.kind);
            if level(precedence) > level(rule.precedence) {
                return Ok(lhs);
            }
            match rule.infix_fn {
                None => {
                    return Err(self.expected_expression(&token));
                },
                Some(InfixHandler::Binary) => {
                    self.advance();
                    match self.parse_binary_expr(lhs) {
                        Ok(expression) => {
                            lhs = expression;
                        },
                        Err(error) => {
                            return Err(error);
                        },
                    }
                },
            }
        }
    }

    /// The rule of a kind of token.
    fn get_parse_rule(&self, kind: TokenKind) -> (rule: ParseRule)
        ensures
            rule == parse_rule(kind),
    {
        match kind {
            TokenKind::Add => ParseRule {
                prefix_fn: None,
                infix_fn: Some(InfixHandler::Binary),
                precedence: Precedence::Term,
                associativity: Associativity::Left,
            },
            TokenKind::SubtractOrNegate => ParseRule {
                prefix_fn: Some(PrefixHandler::Unary),
                infix_fn: Some(InfixHandler::Binary),
                precedence: Precedence::Term,
                associativity: Associativity::Left,
            },
            TokenKind::Multiply => ParseRule {
                prefix_fn: None,
                infix_fn: Some(InfixHandler::Binary),
                precedence: Precedence::Factor,
                associativity: Associativity::Left,
            },
            TokenKind::Divide => ParseRule {
                prefix_fn: None,
                infix_fn: Some(InfixHandler::Binary),
                precedence: Precedence::Factor,
                associativity: Associativity::Left,
            },
            TokenKind::Exponent => ParseRule {
                prefix_fn: None,
                infix_fn: Some(InfixHandler::Binary),
                precedence: Precedence::Exponent,
                associativity: Associativity::Right,
            },
            TokenKind::Modulo => ParseRule {
                prefix_fn: None,
                infix_fn: Some(InfixHandler::Binary),
                precedence: Precedence::Factor,
                associativity: Associativity::Left,
            },
            TokenKind::LeftParen => ParseRule {
                prefix_fn: Some(PrefixHandler::Grouping),
                infix_fn: None,
                precedence: Precedence::Primary,
                associativity: Associativity::Neither,
            },
            TokenKind::Literal { .. } => ParseRule {
                prefix_fn: Some(PrefixHandler::Literal),
                infix_fn: None,
                precedence: Precedence::Primary,
                associativity: Associativity::Neither,
            },
            _ => ParseRule {
                prefix_fn: None,
                infix_fn: None,
                precedence: Precedence::Lowest,
                associativity: Associativity::Neither,
            },
        }
    }

    /// Reads the rest of a grouping behind `(`, which was read last: an
    /// expression and the token behind it, which closes the grouping.
    fn parse_grouping_expr(&mut self) -> (result: ParserResult<Expression>)
        requires
            old(self).well_formed(),
            old(self).position() > 0,
        ensures
            final(self).same_input(old(self)),
            delivers(
                result,
                final(self).position(),
                match expression_at(
                    old(self).tokens_view(),
                    old(self).source(),
                    old(self).position(),
                    Precedence::Term,
                ) {
                    Ok((inner, next)) => if old(self).position() <= next < old(
                        self,
                    ).tokens_view().len() && old(self).tokens_view()[next].kind
                        != TokenKind::EndOfInput {
                        Ok(
                            (
                                ExpressionView::Grouping {
                                    left_paren_token: Some(
                                        old(self).tokens_view()[old(self).position() - 1],
                                    ),
                                    expression: Box::new(inner),
                                    right_paren_token: Some(old(self).tokens_view()[next]),
                                },
                                next + 1,
                            ),
                        )
                    } else {
                        Err(
                            expected_expression(
                                crate::parser::model::token_at(old(self).tokens_view(), next),
                                old(self).source(),
                            ),
                        )
                    },
                    Err(error) => Err(error),
                },
            ),
            result is Ok ==> final(self).well_formed() && final(self).position() > old(
                self,
            ).position(),
        decreases old(self).tokens_view().len() - old(self).position(), 2int,
    {
        let left_paren_token = self.previous();
        let expression = match self.parse_expression() {
            Ok(expression) => Box::new(expression),
            Err(error) => {
                return Err(error);
            },
        };
        if self.is_eoi() {
            let found = self.peek();
            return Err(self.expected_expression(&found));
        }
        let right_paren_token = self.advance();
        Ok(
            Expression::Grouping(
                GroupingExpr {
                    left_paren_token: Some(left_paren_token),
                    expression,
                    right_paren_token: Some(right_paren_token),
                },
            ),
        )
    }

    /// Reads the operand of `-`, which was read last.
    fn parse_unary_expr(&mut self) -> (result: ParserResult<Expression>)
        requires
            old(self).well_formed(),
            old(self).position() > 0,
        ensures
            final(self).same_input(old(self)),
            delivers(
                result,
                final(self).position(),
                match expression_at(
                    old(self).tokens_view(),
                    old(self).source(),
                    old(self).position(),
                    Precedence::Unary,
                ) {
                    Ok((right, next)) => Ok(
                        (
                            ExpressionView::Unary {
                                operator: UnaryOperator::Negate,
                                operator_token: Some(
                                    old(self).tokens_view()[old(self).position() - 1],
                                ),
                                right: Box::new(right),
                            },
                            next,
                        ),
                    ),
                    Err(error) => Err(error),
                },
            ),
            result is Ok ==> final(self).well_formed() && final(self).position() > old(
                self,
            ).position(),
        decreases old(self).tokens_view().len() - old(self).position(), 2int,
    {
        let operator_token = self.previous();
        let operator = UnaryOperator::Negate;
        let right = match self.pratt_parse(Precedence::Unary) {
            Ok(right) => Box::new(right),
            Err(error) => {
                return Err(error);
            },
        };
        Ok(Expression::Unary(UnaryExpr { operator, operator_token: Some(operator_token), right }))
    }

    /// Reads the right operand of the operator that was read last, and
    /// joins it with the left one.
    fn parse_binary_expr(&mut self, left: Expression) -> (result: ParserResult<Expression>)
        requires
            old(self).well_formed(),
            old(self).position() > 0,
        ensures
            final(self).same_input(old(self)),
            delivers(
                result,
                final(self).position(),
                match expression_at(
                    old(self).tokens_view(),
                    old(self).source(),
                    old(self).position(),
                    right_operand_precedence(
                        parse_rule(old(self).tokens_view()[old(self).position() - 1].kind),
                    ),
                ) {
                    Ok((right, next)) => Ok(
                        (
                            ExpressionView::Binary {
                                left: Box::new(left.deep_view()),
                                operator: binary_operator(
                                    old(self).tokens_view()[old(self).position() - 1].kind,
                                ),
                                operator_token: Some(
                                    old(self).tokens_view()[old(self).position() - 1],
                                ),
                                right: Box::new(right),
                            },
                            next,
                        ),
                    ),
                    Err(error) => Err(error),
                },
            ),
            result is Ok ==> final(self).well_formed() && final(self).position() > old(
                self,
            ).position(),
        decreases old(self).tokens_view().len() - old(self).position(), 2int,
    {
        let operator_token = self.previous();
        let operator = match operator_token.kind {
            TokenKind::Add => BinaryOperator::Add,
            TokenKind::SubtractOrNegate => BinaryOperator::Subtract,
            TokenKind::Multiply => BinaryOperator::Multiply,
            TokenKind::Divide => BinaryOperator::Divide,
            TokenKind::Modulo => BinaryOperator::Modulo,
            _ => BinaryOperator::Exponent,
        };
        let rule = self.get_parse_rule(operator_token.kind);
        let precedence = match rule.associativity {
            Associativity::Right => rule.precedence,
            _ => next_precedence(rule.precedence),
        };
        let right = match self.pratt_parse(precedence) {
            Ok(right) => Box::new(right),
            Err(error) => {
                return Err(error);
            },
        };
        Ok(
            Expression::Binary(
                BinaryExpr {
                    left: Box::new(left),
                    operator,
                    operator_token: Some(operator_token),
                    right,
                },
            ),
        )
    }

    /// The literal expression of the token that was read last.
    fn parse_literal_expr(&self) -> (result: ParserResult<Expression>)
        requires
            self.well_formed(),
            self.position() > 0,
        ensures
            match result {
                Ok(expression) => literal_expression(
                    self.tokens_view()[self.position() - 1],
                    self.source(),
                ) == Ok::<ExpressionView, ParserErrorView>(expression.deep_view()),
                Err(error) => literal_expression(
                    self.tokens_view()[self.position() - 1],
                    self.source(),
                ) == Err::<ExpressionView, ParserErrorView>(error.deep_view()),
            },
    {
        let literal = self.previous();
        match literal.kind {
            TokenKind::Literal { kind: LiteralTokenKind::Integer(integer), suffix_start } => {
                self.parse_integer_literal_expr(literal, integer, suffix_start)
            },
            TokenKind::Literal { kind: LiteralTokenKind::Float(float), suffix_start } => {
                self.parse_float_literal_expr(literal, float, suffix_start)
            },
            _ => Err(self.expected_expression(&literal)),
        }
    }

    /// The expression of an integer literal: its digits, without the
    /// prefix of their base, read in that base as the type that its suffix
    /// names, or as an integer of platform width where it has none.
    fn parse_integer_literal_expr(
        &self,
        parent_token: Token,
        integer: IntegerLiteralToken,
        suffix_start: Option<Position>,
    ) -> (result: ParserResult<Expression>)
        requires
            parent_token.kind == (TokenKind::Literal {
                kind: LiteralTokenKind::Integer(integer),
                suffix_start,
            }),
        ensures
            match result {
                Ok(expression) => literal_expression(parent_token.deep_view(), self.source())
                    == Ok::<ExpressionView, ParserErrorView>(expression.deep_view()),
                Err(error) => literal_expression(parent_token.deep_view(), self.source()) == Err::<
                    ExpressionView,
                    ParserErrorView,
                >(error.deep_view()),
            },
    {
        match read_integer_literal(&parent_token, integer, suffix_start) {
            Some(value) => Ok(Expression::Literal(LiteralExpr { value, token: Some(parent_token) })),
            None => Err(self.expected_expression(&parent_token)),
        }
    }

    /// The expression of a float literal: its digits as the float type
    /// that its suffix names, or as a float of 64 bits where it has none.
    fn parse_float_literal_expr(
        &self,
        parent_token: Token,
        float: FloatLiteralToken,
        suffix_start: Option<Position>,
    ) -> (result: ParserResult<Expression>)
        requires
            parent_token.kind == (TokenKind::Literal {
                kind: LiteralTokenKind::Float(float),
                suffix_start,
            }),
        ensures
            match result {
                Ok(expression) => literal_expression(parent_token.deep_view(), self.source())
                    == Ok::<ExpressionView, ParserErrorView>(expression.deep_view()),
                Err(error) => literal_expression(parent_token.deep_view(), self.source()) == Err::<
                    ExpressionView,
                    ParserErrorView,
                >(error.deep_view()),
            },
    {
        match read_float_literal(&parent_token, suffix_start) {
            Some(value) => Ok(Expression::Literal(LiteralExpr { value, token: Some(parent_token) })),
            None => Err(self.expected_expression(&parent_token)),
        }
    }
}

} // verus!
