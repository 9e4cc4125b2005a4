//! The stages in a row: source text to tokens, tokens to the syntax
//! tree, the syntax tree to the tree with types. The first stage that
//! fails ends the row, and the stages behind it do not run.

use crate::annotated_ast::{AnnotatedExpression, AnnotatedModule, AnnotatedModuleView};
use crate::ast::{Expression, ExpressionView, Module, ModuleView};
use crate::common::ExitCode;
use crate::error::{Error, ErrorKind};
use crate::lexer::laws::{lemma_end_of_input_is_last, lemma_tokens_in_order};
use crate::lexer::model::{clusters_of, scannable, tokens_of, Cluster, ClusterView, LexerErrorView};
use crate::lexer::Lexer;
use crate::parser::model::{module_of, ParserErrorView};
use crate::parser::Parser;
use crate::semantic_checker::model::{checked_module, SemanticCheckerErrorView};
use crate::semantic_checker::SemanticChecker;
use crate::text::byte_len;
use crate::token::Token;
use vstd::prelude::*;

verus! {

/// What the syntactic stages come to on the clusters of a main module.
pub ghost enum Parse {
    /// The lexer's diagnostic.
    Lexical(LexerErrorView),
    /// The parser's diagnostic.
    Syntactic(ParserErrorView),
    /// The module.
    Parsed(ModuleView<ExpressionView>),
}

/// What all stages come to on the clusters of a main module.
pub ghost enum Analysis {
    /// The lexer's diagnostic.
    Lexical(LexerErrorView),
    /// The parser's diagnostic.
    Syntactic(ParserErrorView),
    /// The checker's diagnostic.
    Semantic(SemanticCheckerErrorView),
    /// The module with types.
    Checked(AnnotatedModuleView),
}

/// Lexing, then parsing as a main module.
pub open spec fn parse_of(clusters: Seq<ClusterView>, source_id: Seq<char>) -> Parse {
    match tokens_of(clusters, source_id) {
        Err(error) => Parse::Lexical(error),
        Ok(tokens) => match module_of(tokens, source_id, true) {
            Err(error) => Parse::Syntactic(error),
            Ok(module) => Parse::Parsed(module),
        },
    }
}

/// Lexing, then parsing as a main module, then checking.
pub open spec fn analysis_of(clusters: Seq<ClusterView>, source_id: Seq<char>) -> Analysis {
    match parse_of(clusters, source_id) {
        Parse::Lexical(error) => Analysis::Lexical(error),
        Parse::Syntactic(error) => Analysis::Syntactic(error),
        Parse::Parsed(module) => match checked_module(module, source_id) {
            Err(error) => Analysis::Semantic(error),
            Ok(module) => Analysis::Checked(module),
        },
    }
}

/// Whether a result of the syntactic stages has the given content. A
/// diagnostic of the lexer or the parser comes with the exit code for
/// syntax errors.
pub open spec fn delivers_parse(result: Result<Module<Expression>, Error>, parse: Parse) -> bool {
    match parse {
        Parse::Lexical(diagnostic) => {
            &&& result matches Err(error)
            &&& error.exit_code == ExitCode(11)
            &&& error.kind matches ErrorKind::LexerError(lexer_error)
            &&& lexer_error.deep_view() == diagnostic
        },
        Parse::Syntactic(diagnostic) => {
            &&& result matches Err(error)
            &&& error.exit_code == ExitCode(11)
            &&& error.kind matches ErrorKind::ParserError(parser_error)
            &&& parser_error.deep_view() == diagnostic
        },
        Parse::Parsed(content) => result matches Ok(module) && module.deep_view() == content,
    }
}

/// Whether a result of all stages has the given content. A diagnostic
/// of the lexer or the parser comes with the exit code for syntax errors,
/// one of the checker with the exit code for semantic errors.
pub open spec fn delivers_analysis(
    result: Result<AnnotatedModule<AnnotatedExpression>, Error>,
    analysis: Analysis,
) -> bool {
    match analysis {
        Analysis::Lexical(diagnostic) => {
            &&& result matches Err(error)
            &&& error.exit_code == ExitCode(11)
            &&& error.kind matches ErrorKind::LexerError(lexer_error)
            &&& lexer_error.deep_view() == diagnostic
        },
        Analysis::Syntactic(diagnostic) => {
            &&& result matches Err(error)
            &&& error.exit_code == ExitCode(11)
            &&& error.kind matches ErrorKind::ParserError(parser_error)
            &&& parser_error.deep_view() == diagnostic
        },
        Analysis::Semantic(diagnostic) => {
            &&& result matches Err(error)
            &&& error.exit_code == ExitCode(12)
            &&& error.kind matches ErrorKind::SemanticCheckerError(checker_error)
            &&& checker_error.deep_view() == diagnostic
        },
        Analysis::Checked(content) => result matches Ok(module) && module.deep_view() == content,
    }
}

/// Parses tokens that the lexer made of clusters as a main module.
fn parse_tokens(source_id: &String, tokens: Vec<Token>, Ghost(clusters): Ghost<Seq<ClusterView>>) -> (result:
    Result<Module<Expression>, Error>)
    requires
        scannable(clusters),
        tokens_of(clusters, source_id@) == Ok::<Seq<crate::token::TokenView>, LexerErrorView>(
            tokens.deep_view(),
        ),
    ensures
        delivers_parse(result, parse_of(clusters, source_id@)),
{
    proof {
        lemma_tokens_in_order(clusters, source_id@, 0);
        lemma_end_of_input_is_last(tokens.deep_view(), clusters, 0);
    }
    match Parser::parse(source_id.clone(), true, tokens) {
        Ok(module) => Ok(module),
        Err(parser_error) => Err(
            Error::new(ErrorKind::ParserError(parser_error), ExitCode::SYNTAX_ERROR()),
        ),
    }
}

/// The module of clusters that were segmented already, read as a main
/// module, or the diagnostic of the first stage that fails.
pub fn parse_clusters(source_id: &String, clusters: Vec<Cluster>) -> (result: Result<
    Module<Expression>,
    Error,
>)
    requires
        scannable(clusters.deep_view()),
    ensures
        delivers_parse(result, parse_of(clusters.deep_view(), source_id@)),
{
    let ghost content = clusters.deep_view();
    match Lexer::tokenize_clusters(source_id.clone(), clusters) {
        Ok(tokens) => parse_tokens(source_id, tokens, Ghost(content)),
        Err(lexer_error) => Err(
            Error::new(ErrorKind::LexerError(lexer_error), ExitCode::SYNTAX_ERROR()),
        ),
    }
}

/// The module of a source, read as a main module, or the diagnostic of
/// the first stage that fails.
pub fn parse_source(source_id: &String, source_code: &String) -> (result: Result<
    Module<Expression>,
    Error,
>)
    requires
        byte_len(source_code@) < usize::MAX,
    ensures
        delivers_parse(result, parse_of(clusters_of(source_code@), source_id@)),
{
    match Lexer::tokenize(source_id.clone(), source_code.clone()) {
        Ok(tokens) => parse_tokens(source_id, tokens, Ghost(clusters_of(source_code@))),
        Err(lexer_error) => Err(
            Error::new(ErrorKind::LexerError(lexer_error), ExitCode::SYNTAX_ERROR()),
        ),
    }
}

/// Checks a module that the syntactic stages delivered.
fn check_parsed(
    source_id: &String,
    parsed: Result<Module<Expression>, Error>,
    Ghost(clusters): Ghost<Seq<ClusterView>>,
) -> (result: Result<AnnotatedModule<AnnotatedExpression>, Error>)
    requires
        delivers_parse(parsed, parse_of(clusters, source_id@)),
    ensures
        delivers_analysis(result, analysis_of(clusters, source_id@)),
{
    match parsed {
        Err(error) => Err(error),
        Ok(module) => match SemanticChecker::check(source_id.clone(), module) {
            Ok(annotated) => Ok(annotated),
            Err(checker_error) => Err(
                Error::new(
                    ErrorKind::SemanticCheckerError(checker_error),
                    ExitCode::SEMANTIC_ERROR(),
                ),
            ),
        },
    }
}

/// The module with types of clusters that were segmented already, read
/// as a main module, or the diagnostic of the first stage that fails.
pub fn check_clusters(source_id: &String, clusters: Vec<Cluster>) -> (result: Result<
    AnnotatedModule<AnnotatedExpression>,
    Error,
>)
    requires
        scannable(clusters.deep_view()),
    ensures
        delivers_analysis(result, analysis_of(clusters.deep_view(), source_id@)),
{
    let ghost content = clusters.deep_view();
    let parsed = parse_clusters(source_id, clusters);
    check_parsed(source_id, parsed, Ghost(content))
}

/// The module with types of a source, read as a main module, or the
/// diagnostic of the first stage that fails.
pub fn check_source(source_id: &String, source_code: &String) -> (result: Result<
    AnnotatedModule<AnnotatedExpression>,
    Error,
>)
    requires
        byte_len(source_code@) < usize::MAX,
    ensures
        delivers_analysis(result, analysis_of(clusters_of(source_code@), source_id@)),
{
    let parsed = parse_source(source_id, source_code);
    check_parsed(source_id, parsed, Ghost(clusters_of(source_code@)))
}

} // verus!
