//! Tokens: what the lexer hands to the parser.

use crate::message::{
    entry, message_args_view, number_arg, text_arg, Message, MessageArg, MessageView,
};
use crate::span::{Position, Span};
use crate::unicode::{json_quote, json_string};
use vstd::prelude::*;

verus! {

/// The bases in which a number literal can be written.
#[derive(Debug, Clone, Copy, PartialEq, Eq, Structural)]
pub enum NumberBase {
    /// Digits `0` and `1`, after `0b`.
    Binary,
    /// Digits `0` to `7`, after `0o`.
    Octal,
    /// Digits `0` to `9`.
    Decimal,
    /// Digits `0` to `9` and `a` to `f` in either case, after `0x`.
    Hexadecimal,
}

/// What the lexer found out about an integer literal.
#[derive(Debug, Clone, Copy, PartialEq, Eq, Structural)]
pub struct IntegerLiteralToken {
    /// The base the literal is written in.
    pub base: NumberBase,
    /// Whether any digit follows the base prefix; `0x` alone has none.
    pub has_integer_part: bool,
}

/// What the lexer found out about a float literal.
#[derive(Debug, Clone, Copy, PartialEq, Eq, Structural)]
pub struct FloatLiteralToken {
    /// The base the literal is written in.
    pub base: NumberBase,
    /// Whether the literal has an exponent.
    pub has_exponent_part: bool,
}

/// The two kinds of number literal.
#[derive(Debug, Clone, Copy, PartialEq, Eq, Structural)]
pub enum LiteralTokenKind {
    /// A literal without fraction and exponent.
    Integer(IntegerLiteralToken),
    /// A literal with a fraction, an exponent or both.
    Float(FloatLiteralToken),
}

/// The kinds of token.
#[derive(Debug, Clone, Copy, PartialEq, Eq, Structural)]
pub enum TokenKind {
    /// A number literal; `suffix_start` is where its type suffix begins,
    /// if it has one.
    Literal { kind: LiteralTokenKind, suffix_start: Option<Position> },
    /// An identifier.
    Identifier,
    /// `+`
    Add,
    /// `-`, as subtraction or as negation.
    SubtractOrNegate,
    /// `*`
    Multiply,
    /// `/`
    Divide,
    /// `%`
    Modulo,
    /// `**`
    Exponent,
    /// The keyword `echo`.
    Echo,
    /// The keyword that introduces a function.
    Function,
    /// `;`
    SemiColon,
    /// `:`
    Colon,
    /// `(`
    LeftParen,
    /// `)`
    RightParen,
    /// A comment from `//` to the end of the line.
    SingleLineComment,
    /// Spaces that indent a line.
    Whitespace,
    /// Tabs that indent a line.
    Tab,
    /// A line break.
    NewLine,
    /// The end of the source.
    EndOfInput,
}

/// A token: its kind, where it stands, its text and the source it is from.
#[derive(Debug, PartialEq, Eq)]
pub struct Token {
    /// The kind of the token.
    pub kind: TokenKind,
    /// The range of source that the token covers.
    pub span: Span,
    /// The text of that range.
    pub lexeme: String,
    /// The identifier of the source, such as `mabel://stdin`.
    pub source_id: String,
}

/// The mathematical content of a [`Token`].
pub ghost struct TokenView {
    pub kind: TokenKind,
    pub span: Span,
    pub lexeme: Seq<char>,
    pub source_id: Seq<char>,
}

impl DeepView for Token {
    type V = TokenView;

    open spec fn deep_view(&self) -> TokenView {
        TokenView {
            kind: self.kind,
            span: self.span,
            lexeme: self.lexeme@,
            source_id: self.source_id@,
        }
    }
}

impl Clone for Token {
    /// A token with the same content.
    fn clone(&self) -> (token: Token)
        ensures
            token.deep_view() == self.deep_view(),
    {
        Token {
            kind: self.kind,
            span: self.span,
            lexeme: self.lexeme.clone(),
            source_id: self.source_id.clone(),
        }
    }
}

/// A copy of a token that may be missing.
pub fn clone_token(token: &Option<Token>) -> (copy: Option<Token>)
    ensures
        copy.deep_view() == token.deep_view(),
{
    match token {
        Some(token) => Some(token.clone()),
        None => None,
    }
}

/// The catalogue entry that describes tokens of a kind.
pub open spec fn description_key(kind: TokenKind) -> Seq<char> {
    match kind {
        TokenKind::Literal { kind: LiteralTokenKind::Integer(_), .. } => "token-description-int"@,
        TokenKind::Literal { kind: LiteralTokenKind::Float(_), .. } => "token-description-float"@,
        TokenKind::Identifier => "token-description-identifier"@,
        TokenKind::Add
        | TokenKind::SubtractOrNegate
        | TokenKind::Multiply
        | TokenKind::Divide
        | TokenKind::Modulo
        | TokenKind::Exponent => "token-description-operator"@,
        TokenKind::Echo | TokenKind::Function => "token-description-keyword"@,
        TokenKind::SemiColon => "token-description-semicolon"@,
        TokenKind::Colon => "token-description-colon"@,
        TokenKind::LeftParen => "token-description-left-paren"@,
        TokenKind::RightParen => "token-description-right-paren"@,
        TokenKind::SingleLineComment => "token-description-single-line-comment"@,
        TokenKind::Whitespace => "token-description-whitespace"@,
        TokenKind::Tab => "token-description-tab"@,
        TokenKind::NewLine => "token-description-newline"@,
        TokenKind::EndOfInput => "token-description-eoi"@,
    }
}

/// `true` or `false`, spelled out.
pub open spec fn bool_text(flag: bool) -> Seq<char> {
    if flag {
        "true"@
    } else {
        "false"@
    }
}

/// The description of a token: the entry for its kind, with the value to
/// show (the given one, else the token's text) as a JSON string, the
/// capitalization, the count and the two switches.
pub open spec fn token_description(
    token: TokenView,
    count: usize,
    capitalization: Seq<char>,
    value: Option<Seq<char>>,
    show_count: bool,
    show_value: bool,
) -> MessageView {
    entry(
        description_key(token.kind),
        seq![
            text_arg(
                "value"@,
                json_string(
                    match value {
                        Some(text) => text,
                        None => token.lexeme,
                    },
                ),
            ),
            text_arg("capitalization"@, capitalization),
            number_arg("count"@, count),
            text_arg("show_count"@, bool_text(show_count)),
            text_arg("show_value"@, bool_text(show_value)),
        ],
    )
}

/// Spells a flag out.
pub fn bool_to_text(flag: bool) -> (text: String)
    ensures
        text@ == bool_text(flag),
{
    if flag {
        "true".to_string()
    } else {
        "false".to_string()
    }
}

impl Token {
    /// Builds a token from its four parts.
    pub fn new(kind: TokenKind, span: Span, lexeme: String, source_id: String) -> (token: Token)
        ensures
            token.deep_view() == (TokenView {
                kind,
                span,
                lexeme: lexeme@,
                source_id: source_id@,
            }),
    {
        Token { kind, span, lexeme, source_id }
    }

    /// The key of the catalogue entry that describes the token's kind.
    pub fn description_key(&self) -> (key: &'static str)
        ensures
            key@ == description_key(self.kind),
    {
        match self.kind {
            TokenKind::Literal { kind, .. } => match kind {
                LiteralTokenKind::Integer(_) => "token-description-int",
                LiteralTokenKind::Float(_) => "token-description-float",
            },
            TokenKind::Identifier => "token-description-identifier",
            TokenKind::Add
            | TokenKind::SubtractOrNegate
            | TokenKind::Multiply
            | TokenKind::Divide
            | TokenKind::Modulo
            | TokenKind::Exponent => "token-description-operator",
            TokenKind::Echo | TokenKind::Function => "token-description-keyword",
            TokenKind::SemiColon => "token-description-semicolon",
            TokenKind::Colon => "token-description-colon",
            TokenKind::LeftParen => "token-description-left-paren",
            TokenKind::RightParen => "token-description-right-paren",
            TokenKind::SingleLineComment => "token-description-single-line-comment",
            TokenKind::Whitespace => "token-description-whitespace",
            TokenKind::Tab => "token-description-tab",
            TokenKind::NewLine => "token-description-newline",
            TokenKind::EndOfInput => "token-description-eoi",
        }
    }

    /// A description of the token for people to read.
    pub fn description(
        &self,
        count: usize,
        capitalization: &str,
        value: Option<String>,
        show_count: bool,
        show_value: bool,
    ) -> (message: Message)
        ensures
            message.deep_view() == token_description(
                self.deep_view(),
                count,
                capitalization@,
                value.deep_view(),
                show_count,
                show_value,
            ),
    {
        let shown = match &value {
            Some(text) => json_quote(text.as_str()),
            None => json_quote(self.lexeme.as_str()),
        };
        let mut args: Vec<MessageArg> = Vec::new();
        args.push(MessageArg::text("value", shown));
        args.push(MessageArg::text("capitalization", capitalization.to_string()));
        args.push(MessageArg::number("count", count));
        args.push(MessageArg::text("show_count", bool_to_text(show_count)));
        args.push(MessageArg::text("show_value", bool_to_text(show_value)));
        let message = Message::entry(self.description_key(), args);
        proof {
            assert(message_args_view(args@) =~= token_description(
                self.deep_view(),
                count,
                capitalization@,
                value.deep_view(),
                show_count,
                show_value,
            )->Entry_args);
        }
        message
    }
}

} // verus!
