//! The one error type of the front end: what failed and the exit code
//! that the failure calls for.

use crate::common::ExitCode;
use crate::diagnostic::{
    checker_diagnostic, lexer_diagnostic, parser_diagnostic, Diagnostic, DiagnosticView,
};
use crate::lexer::LexerError;
use crate::message::{entry, message_arg, message_args_view, text_arg, Message, MessageArg, MessageView};
use crate::parser::ParserError;
use crate::semantic_checker::SemanticCheckerError;
use vstd::prelude::*;

verus! {

/// An error of the operating system. What is inside is the standard
/// library's matter; the front end only hands such errors on.
#[verifier::external_type_specification]
#[verifier::external_body]
pub struct ExIoError(std::io::Error);

/// The kinds of error of the operating system that have a message of
/// their own.
#[derive(Debug, Clone, Copy, PartialEq, Eq, Structural)]
pub enum IoErrorKind {
    /// The path leads nowhere.
    NotFound,
    /// The path leads to a directory.
    IsADirectory,
    /// The path may not be read.
    PermissionDenied,
    /// Any other kind.
    Other,
}

/// The kind of an error of the operating system.
pub uninterp spec fn io_kind_of(error: std::io::Error) -> IoErrorKind;

/// Calls `std::io::Error::kind` and tells the three kinds that have a
/// message of their own from the others. The result is only named.
#[verifier::external_body]
fn io_error_kind(error: &std::io::Error) -> (kind: IoErrorKind)
    ensures
        kind == io_kind_of(*error),
{
    match error.kind() {
        std::io::ErrorKind::NotFound => IoErrorKind::NotFound,
        std::io::ErrorKind::IsADirectory => IoErrorKind::IsADirectory,
        std::io::ErrorKind::PermissionDenied => IoErrorKind::PermissionDenied,
        _ => IoErrorKind::Other,
    }
}

/// The catalogue entry for a kind of error of the operating system.
pub open spec fn io_error_key(kind: IoErrorKind) -> Seq<char> {
    match kind {
        IoErrorKind::NotFound => "utils-source-code-read-error.not-found"@,
        IoErrorKind::IsADirectory => "utils-source-code-read-error.is-directory"@,
        IoErrorKind::PermissionDenied => "utils-source-code-read-error.permission-denied"@,
        IoErrorKind::Other => "utils-source-code-read-error.generic"@,
    }
}

/// The message for an error of the operating system of a kind at a path.
pub open spec fn io_error_message(kind: IoErrorKind, path: Seq<char>) -> MessageView {
    entry(io_error_key(kind), seq![text_arg("path"@, path)])
}

/// The message for an error of a kind at a path.
pub fn io_error_kind_to_string(kind: IoErrorKind, path: String) -> (message: Message)
    ensures
        message.deep_view() == io_error_message(kind, path@),
{
    let key = match kind {
        IoErrorKind::NotFound => "utils-source-code-read-error.not-found",
        IoErrorKind::IsADirectory => "utils-source-code-read-error.is-directory",
        IoErrorKind::PermissionDenied => "utils-source-code-read-error.permission-denied",
        IoErrorKind::Other => "utils-source-code-read-error.generic",
    };
    let mut args: Vec<MessageArg> = Vec::new();
    args.push(MessageArg::text("path", path));
    let message = Message::entry(key, args);
    proof {
        assert(message_args_view(args@) =~= io_error_message(kind, path@)->Entry_args);
    }
    message
}

/// The message for an error of the operating system at a path.
pub fn io_error_to_string(error: &std::io::Error, path: String) -> (message: Message)
    ensures
        message.deep_view() == io_error_message(io_kind_of(*error), path@),
{
    io_error_kind_to_string(io_error_kind(error), path)
}

/// The line that shows an error with a message.
pub open spec fn error_line(message: MessageView) -> MessageView {
    entry("utils-error.template"@, seq![message_arg("error"@, message)])
}

/// What failed.
#[derive(Debug)]
pub enum ErrorKind {
    /// Something with a message.
    BasicError(String),
    /// Reading, writing or finding a path; with the path.
    IOError(std::io::Error, String),
    /// Lexing.
    LexerError(LexerError),
    /// Parsing.
    ParserError(ParserError),
    /// Checking.
    SemanticCheckerError(SemanticCheckerError),
}

/// An error with the exit code that it calls for.
#[derive(Debug)]
pub struct Error {
    /// What failed.
    pub kind: ErrorKind,
    /// The code to end the program with.
    pub exit_code: ExitCode,
}

impl Error {
    /// An error of a kind with an exit code.
    pub fn new(kind: ErrorKind, exit_code: ExitCode) -> (error: Error)
        ensures
            error.kind == kind,
            error.exit_code == exit_code,
    {
        Self { kind, exit_code }
    }

    /// The line that shows the error, where it is shown as one line: a
    /// basic error by its message, an error of the operating system by
    /// the message for its kind and path. Diagnostics are shown with the
    /// source they point at, not as a line.
    pub fn line(&self) -> (line: Option<Message>)
        ensures
            line.deep_view() == match self.kind {
                ErrorKind::BasicError(message) => Some(error_line(MessageView::Text(message@))),
                ErrorKind::IOError(error, path) => Some(
                    error_line(io_error_message(io_kind_of(error), path@)),
                ),
                _ => None,
            },
    {
        let message = match &self.kind {
            ErrorKind::BasicError(message) => Message::Text(message.clone()),
            ErrorKind::IOError(error, path) => io_error_to_string(error, path.clone()),
            _ => {
                return None;
            },
        };
        let ghost content = message.deep_view();
        let mut args: Vec<MessageArg> = Vec::new();
        args.push(MessageArg::message("error", message));
        let line = Message::entry("utils-error.template", args);
        proof {
            assert(message_args_view(args@) =~= error_line(content)->Entry_args);
        }
        Some(line)
    }

    /// The diagnostic of the error, where it is one of the stages'
    /// diagnostics, which are shown with the source they point at.
    pub fn diagnostic(&self) -> (diagnostic: Option<Diagnostic>)
        ensures
            diagnostic.deep_view() == match self.kind {
                ErrorKind::LexerError(error) => Some(lexer_diagnostic(error.deep_view())),
                ErrorKind::ParserError(error) => Some(parser_diagnostic(error.deep_view())),
                ErrorKind::SemanticCheckerError(error) => Some(
                    checker_diagnostic(error.deep_view()),
                ),
                _ => None::<DiagnosticView>,
            },
    {
        match &self.kind {
            ErrorKind::LexerError(error) => Some(error.create_diagnostic()),
            ErrorKind::ParserError(error) => Some(error.create_diagnostic()),
            ErrorKind::SemanticCheckerError(error) => Some(error.create_diagnostic()),
            _ => None,
        }
    }

    /// Whether the error is about the path with the given text, with the
    /// exit code for input and output.
    pub open spec fn is_io_error_at(self, path: Seq<char>) -> bool {
        &&& self.exit_code == ExitCode(3)
        &&& self.kind matches ErrorKind::IOError(_, text)
        &&& text@ == path
    }
}

} // verus!
