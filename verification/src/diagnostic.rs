//! The one shape of all diagnostics: a code, a message, labels that
//! point into the source, and notes. Each stage has diagnostics of its
//! own; the host shows them all in this shape.

use crate::lexer::model::{LexerErrorCode, LexerErrorView};
use crate::lexer::LexerError;
use crate::message::{clone_message, Message, MessageView};
use crate::parser::model::{ParserErrorCode, ParserErrorView};
use crate::parser::ParserError;
use crate::semantic_checker::model::{SemanticCheckerErrorCode, SemanticCheckerErrorView};
use crate::semantic_checker::SemanticCheckerError;
use crate::span::Location;
use vstd::prelude::*;

verus! {

/// How a label of a diagnostic is shown.
#[derive(Debug, Clone, Copy, PartialEq, Eq, Structural)]
pub enum LabelStyle {
    /// The place that the diagnostic is about.
    Primary,
    /// A place that explains the diagnostic.
    Secondary,
}

impl DeepView for LabelStyle {
    type V = LabelStyle;

    open spec fn deep_view(&self) -> LabelStyle {
        *self
    }
}

impl DeepView for Location {
    type V = Location;

    open spec fn deep_view(&self) -> Location {
        *self
    }
}

/// The mathematical content of a label: its style, its place and its
/// text.
pub type LabelView = (LabelStyle, Location, MessageView);

/// A diagnostic as the host shows it.
#[derive(Debug, PartialEq, Eq)]
pub struct Diagnostic {
    /// The name of the diagnostic's code.
    pub code: String,
    /// What went wrong, ending with a line break.
    pub message: Message,
    /// The places in the source that the diagnostic shows.
    pub labels: Vec<(LabelStyle, Location, Message)>,
    /// What may help.
    pub notes: Vec<Message>,
    /// The identifier of the source.
    pub source_id: String,
}

/// The mathematical content of a [`Diagnostic`].
pub ghost struct DiagnosticView {
    pub code: Seq<char>,
    pub message: MessageView,
    pub labels: Seq<LabelView>,
    pub notes: Seq<MessageView>,
    pub source_id: Seq<char>,
}

impl DeepView for Diagnostic {
    type V = DiagnosticView;

    open spec fn deep_view(&self) -> DiagnosticView {
        DiagnosticView {
            code: self.code@,
            message: self.message.deep_view(),
            labels: self.labels.deep_view(),
            notes: self.notes.deep_view(),
            source_id: self.source_id@,
        }
    }
}

/// A message followed by a line break.
pub open spec fn with_line_break(message: MessageView) -> MessageView {
    MessageView::Joined(Box::new(message), Box::new(MessageView::Text("\n"@)))
}

/// The notes of a diagnostic: its hint, if it has one.
pub open spec fn notes_of(hint: Option<MessageView>) -> Seq<MessageView> {
    match hint {
        Some(hint) => seq![hint],
        None => Seq::empty(),
    }
}

/// The name of a code of the lexer.
pub open spec fn lexer_code_name(code: LexerErrorCode) -> Seq<char> {
    match code {
        LexerErrorCode::UnexpectedCharacter => "UnexpectedCharacter"@,
        LexerErrorCode::InvalidNumberLiteralWidth => "InvalidNumberLiteralWidth"@,
        LexerErrorCode::UnimplementedFeature => "UnimplementedFeature"@,
    }
}

/// The name of a code of the parser.
pub open spec fn parser_code_name(code: ParserErrorCode) -> Seq<char> {
    match code {
        ParserErrorCode::ExpectedExpression => "ExpectedExpression"@,
    }
}

/// The name of a code of the checker.
pub open spec fn checker_code_name(code: SemanticCheckerErrorCode) -> Seq<char> {
    match code {
        SemanticCheckerErrorCode::InvalidOperand => "InvalidOperand"@,
    }
}

/// The diagnostic with one label: the primary one, at the place of the
/// error, with the message as its text.
pub open spec fn located_diagnostic(
    code: Seq<char>,
    message: MessageView,
    hint: Option<MessageView>,
    location: Location,
    source_id: Seq<char>,
) -> DiagnosticView {
    DiagnosticView {
        code,
        message: with_line_break(message),
        labels: seq![(LabelStyle::Primary, location, message)],
        notes: notes_of(hint),
        source_id,
    }
}

/// The diagnostic of an error of the lexer.
pub open spec fn lexer_diagnostic(error: LexerErrorView) -> DiagnosticView {
    located_diagnostic(
        lexer_code_name(error.code),
        error.message,
        error.hint,
        error.location,
        error.source_id,
    )
}

/// The diagnostic of an error of the parser.
pub open spec fn parser_diagnostic(error: ParserErrorView) -> DiagnosticView {
    located_diagnostic(
        parser_code_name(error.code),
        error.message,
        error.hint,
        error.location,
        error.source_id,
    )
}

/// The diagnostic of an error of the checker, with the labels of the
/// error.
pub open spec fn checker_diagnostic(error: SemanticCheckerErrorView) -> DiagnosticView {
    DiagnosticView {
        code: checker_code_name(error.code),
        message: with_line_break(error.message),
        labels: error.labels,
        notes: notes_of(error.hint),
        source_id: error.source_id,
    }
}

/// A message followed by a line break.
fn line_of(message: &Message) -> (line: Message)
    ensures
        line.deep_view() == with_line_break(message.deep_view()),
{
    Message::joined(message.clone(), Message::text("\n"))
}

/// The notes of a diagnostic: its hint, if it has one.
fn notes(hint: &Option<Message>) -> (notes: Vec<Message>)
    ensures
        notes.deep_view() == notes_of(hint.deep_view()),
{
    let mut notes: Vec<Message> = Vec::new();
    match clone_message(hint) {
        Some(hint) => {
            notes.push(hint);
            proof {
                assert(notes.deep_view() =~= seq![hint.deep_view()]);
            }
        },
        None => {
            proof {
                assert(notes.deep_view() =~= Seq::<MessageView>::empty());
            }
        },
    }
    notes
}

/// The diagnostic with one label at the place of the error.
fn located(
    code: &str,
    message: &Message,
    hint: &Option<Message>,
    location: Location,
    source_id: &String,
) -> (diagnostic: Diagnostic)
    ensures
        diagnostic.deep_view() == located_diagnostic(
            code@,
            message.deep_view(),
            hint.deep_view(),
            location,
            source_id@,
        ),
{
    let mut labels: Vec<(LabelStyle, Location, Message)> = Vec::new();
    labels.push((LabelStyle::Primary, location, message.clone()));
    proof {
        assert(labels.deep_view() =~= seq![(LabelStyle::Primary, location, message.deep_view())]);
    }
    Diagnostic {
        code: code.to_string(),
        message: line_of(message),
        labels,
        notes: notes(hint),
        source_id: source_id.clone(),
    }
}

impl LexerError {
    /// The diagnostic of the error.
    pub fn create_diagnostic(&self) -> (diagnostic: Diagnostic)
        ensures
            diagnostic.deep_view() == lexer_diagnostic(self.deep_view()),
    {
        let code = match self.code {
            LexerErrorCode::UnexpectedCharacter => "UnexpectedCharacter",
            LexerErrorCode::InvalidNumberLiteralWidth => "InvalidNumberLiteralWidth",
            LexerErrorCode::UnimplementedFeature => "UnimplementedFeature",
        };
        located(code, &self.message, &self.hint, self.location, &self.source_id)
    }
}

impl ParserError {
    /// The diagnostic of the error.
    pub fn create_diagnostic(&self) -> (diagnostic: Diagnostic)
        ensures
            diagnostic.deep_view() == parser_diagnostic(self.deep_view()),
    {
        let code = match self.code {
            ParserErrorCode::ExpectedExpression => "ExpectedExpression",
        };
        located(code, &self.message, &self.hint, self.location, &self.source_id)
    }
}

impl SemanticCheckerError {
    /// The diagnostic of the error.
    pub fn create_diagnostic(&self) -> (diagnostic: Diagnostic)
        ensures
            diagnostic.deep_view() == checker_diagnostic(self.deep_view()),
    {
        let code = match self.code {
            SemanticCheckerErrorCode::InvalidOperand => "InvalidOperand",
        };
        let mut labels: Vec<(LabelStyle, Location, Message)> = Vec::new();
        let mut i: usize = 0;
        while i < self.labels.len()
            invariant
                i <= self.labels.len(),
                labels@.len() == i,
                forall|j: int|
                    0 <= j < i ==> (#[trigger] labels@[j]).deep_view()
                        == self.labels@[j].deep_view(),
            decreases self.labels.len() - i,
        {
            let label = &self.labels[i];
            labels.push((label.0, label.1, label.2.clone()));
            i += 1;
        }
        proof {
            assert(labels.deep_view() =~= self.labels.deep_view());
        }
        Diagnostic {
            code: code.to_string(),
            message: line_of(&self.message),
            labels,
            notes: notes(&self.hint),
            source_id: self.source_id.clone(),
        }
    }
}

} // verus!
