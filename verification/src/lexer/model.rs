//! What lexing means, stated over the grapheme clusters of a source.
//!
//! A source is a sequence of clusters. A position is determined by the
//! number of clusters before it, a token by the clusters it covers, and
//! the token sequence by scanning from the first cluster on.

use crate::message::{entry, message_arg, text_arg, MessageView};
use crate::span::{Location, Position, Span};
use crate::text::{all_xid_continue, all_xid_start, byte_len};
use crate::token::{
    FloatLiteralToken, IntegerLiteralToken, LiteralTokenKind, NumberBase, TokenKind, TokenView,
};
use crate::unicode::{graphemes_of, json_string};
use vstd::prelude::*;

verus! {

/// The codes of the lexer's diagnostics.
#[derive(Debug, Clone, Copy, PartialEq, Eq, Structural)]
pub enum LexerErrorCode {
    /// A cluster that begins no token.
    UnexpectedCharacter,
    /// A type suffix with a width that the suffix does not have.
    InvalidNumberLiteralWidth,
    /// A part of the language that is not there yet.
    UnimplementedFeature,
}

/// The mathematical content of a lexer diagnostic.
pub ghost struct LexerErrorView {
    pub code: LexerErrorCode,
    pub message: MessageView,
    pub hint: Option<MessageView>,
    pub location: Location,
    pub source_id: Seq<char>,
}

/// A grapheme cluster of a source, with what the lexer has to know of
/// it beyond its text.
#[derive(Debug, Clone, PartialEq, Eq)]
pub struct Cluster {
    /// The text of the cluster.
    pub text: String,
    /// Whether the cluster can begin an identifier: every character of it
    /// has the Unicode property `XID_Start`.
    pub identifier_start: bool,
    /// Whether the cluster can continue an identifier: every character
    /// of it has the Unicode property `XID_Continue`.
    pub identifier_continue: bool,
}

/// The mathematical content of a [`Cluster`].
pub ghost struct ClusterView {
    pub text: Seq<char>,
    pub identifier_start: bool,
    pub identifier_continue: bool,
}

impl DeepView for Cluster {
    type V = ClusterView;

    open spec fn deep_view(&self) -> ClusterView {
        ClusterView {
            text: self.text@,
            identifier_start: self.identifier_start,
            identifier_continue: self.identifier_continue,
        }
    }
}

/// The cluster with a text, as Unicode classifies it.
pub open spec fn classified(text: Seq<char>) -> ClusterView {
    ClusterView {
        text,
        identifier_start: all_xid_start(text),
        identifier_continue: all_xid_continue(text),
    }
}

/// The clusters of a source: its extended grapheme clusters, each as
/// Unicode classifies it.
pub open spec fn clusters_of(source: Seq<char>) -> Seq<ClusterView> {
    graphemes_of(source).map_values(|text: Seq<char>| classified(text))
}

/// The texts of clusters.
pub open spec fn texts_of(clusters: Seq<ClusterView>) -> Seq<Seq<char>> {
    clusters.map_values(|cluster: ClusterView| cluster.text)
}

/// The classes of cluster that the lexer consumes in runs.
#[derive(Debug, Clone, Copy, PartialEq, Eq, Structural)]
pub enum ClusterClass {
    /// White space that is part of no token.
    Skipable,
    /// A space.
    Space,
    /// A tab.
    Tab,
    /// Anything but a line break.
    WithinLine,
    /// Characters that continue an identifier.
    IdentifierContinue,
    /// Digits of a base.
    Digit(NumberBase),
}

/// A line break: a line feed, alone or after a carriage return.
pub open spec fn is_newline_text(cluster: Seq<char>) -> bool {
    cluster == "\n"@ || cluster == "\r\n"@
}

/// White space of one byte that no token is made of: a vertical tab, a
/// form feed or a carriage return that no line feed follows.
pub open spec fn is_skipable_text(cluster: Seq<char>) -> bool {
    cluster == "\u{b}"@ || cluster == "\u{c}"@ || cluster == "\r"@
}

/// Whether a character is a digit of a base.
pub open spec fn is_digit_char(c: char, base: NumberBase) -> bool {
    match base {
        NumberBase::Binary => '0' <= c <= '1',
        NumberBase::Octal => '0' <= c <= '7',
        NumberBase::Decimal => '0' <= c <= '9',
        NumberBase::Hexadecimal => '0' <= c <= '9' || 'a' <= c <= 'f' || 'A' <= c <= 'F',
    }
}

/// Whether every character of a cluster is a digit of a base.
pub open spec fn is_digit_text(cluster: Seq<char>, base: NumberBase) -> bool {
    forall|i: int| 0 <= i < cluster.len() ==> is_digit_char(#[trigger] cluster[i], base)
}

/// Whether a cluster belongs to a class.
pub open spec fn in_class(cluster: ClusterView, class: ClusterClass) -> bool {
    match class {
        ClusterClass::Skipable => is_skipable_text(cluster.text),
        ClusterClass::Space => cluster.text == " "@,
        ClusterClass::Tab => cluster.text == "\t"@,
        ClusterClass::WithinLine => !is_newline_text(cluster.text),
        ClusterClass::IdentifierContinue => cluster.identifier_continue,
        ClusterClass::Digit(base) => is_digit_text(cluster.text, base),
    }
}

/// Whether the cluster at `index` exists and is `text`.
pub open spec fn cluster_is(clusters: Seq<ClusterView>, index: int, text: Seq<char>) -> bool {
    0 <= index < clusters.len() && clusters[index].text == text
}

/// Whether the cluster at `index` exists and belongs to `class`.
pub open spec fn cluster_in(clusters: Seq<ClusterView>, index: int, class: ClusterClass) -> bool {
    0 <= index < clusters.len() && in_class(clusters[index], class)
}

/// The end of the longest run of clusters of `class` that begins at
/// `index`.
pub open spec fn run_end(clusters: Seq<ClusterView>, index: int, class: ClusterClass) -> int
    decreases clusters.len() - index,
{
    if cluster_in(clusters, index, class) {
        run_end(clusters, index + 1, class)
    } else {
        index
    }
}

/// The line of the position before which `index` clusters stand.
pub open spec fn line_at(clusters: Seq<ClusterView>, index: int) -> int
    decreases index,
{
    if index <= 0 {
        1
    } else if is_newline_text(clusters[index - 1].text) {
        line_at(clusters, index - 1) + 1
    } else {
        line_at(clusters, index - 1)
    }
}

/// The column of the position before which `index` clusters stand.
pub open spec fn column_at(clusters: Seq<ClusterView>, index: int) -> int
    decreases index,
{
    if index <= 0 {
        1
    } else if is_newline_text(clusters[index - 1].text) {
        1
    } else {
        column_at(clusters, index - 1) + 1
    }
}

/// The number of bytes that the first `index` clusters take.
pub open spec fn offset_at(clusters: Seq<ClusterView>, index: int) -> int
    decreases index,
{
    if index <= 0 {
        0
    } else {
        offset_at(clusters, index - 1) + byte_len(clusters[index - 1].text)
    }
}

/// The position before which `index` clusters stand.
pub open spec fn position_at(clusters: Seq<ClusterView>, index: int) -> Position {
    Position {
        line: line_at(clusters, index) as usize,
        column: column_at(clusters, index) as usize,
        char_index: index as usize,
        offset: offset_at(clusters, index) as usize,
    }
}

/// The span of the clusters from `start` up to `end`.
pub open spec fn span_between(clusters: Seq<ClusterView>, start: int, end: int) -> Span {
    Span { start: position_at(clusters, start), end: position_at(clusters, end) }
}

/// The text of the clusters from `start` up to `end`.
pub open spec fn text_between(clusters: Seq<ClusterView>, start: int, end: int) -> Seq<char>
    decreases end - start,
{
    if end <= start {
        Seq::empty()
    } else {
        text_between(clusters, start, end - 1) + clusters[end - 1].text
    }
}

/// The token of a kind that covers the clusters from `start` up to `end`.
pub open spec fn token_between(
    clusters: Seq<ClusterView>,
    source_id: Seq<char>,
    kind: TokenKind,
    start: int,
    end: int,
) -> TokenView {
    TokenView {
        kind,
        span: span_between(clusters, start, end),
        lexeme: text_between(clusters, start, end),
        source_id,
    }
}

/// What scanning from one cluster on comes to.
pub ghost enum Scan {
    /// A token of `kind` that ends before the cluster `end`.
    Token { kind: TokenKind, end: int },
    /// Text up to `end` that makes no token.
    Nothing { end: int },
    /// A diagnostic.
    Failure { code: LexerErrorCode, message: MessageView, location: Location },
}

/// The items of a list with a separator between each two.
pub open spec fn joined(items: Seq<Seq<char>>, separator: Seq<char>) -> Seq<char>
    decreases items.len(),
{
    if items.len() == 0 {
        Seq::empty()
    } else if items.len() == 1 {
        items[0]
    } else {
        joined(items.drop_last(), separator) + separator + items.last()
    }
}

/// The widths that an integer suffix can have.
pub open spec fn integer_widths() -> Seq<Seq<char>> {
    seq!["8"@, "16"@, "32"@, "64"@]
}

/// The widths that a float suffix can have.
pub open spec fn float_widths() -> Seq<Seq<char>> {
    seq!["32"@, "64"@]
}

/// Whether a type suffix can have a width, the empty width included:
/// `f` has none, 32 or 64; `d` has none; `i` and `u` have none, 8, 16,
/// 32 or 64. Nothing else is a suffix.
pub open spec fn valid_width(suffix: Seq<char>, width: Seq<char>) -> bool {
    if suffix == "f"@ {
        width.len() == 0 || width == "32"@ || width == "64"@
    } else if suffix == "d"@ {
        width.len() == 0
    } else if suffix == "i"@ || suffix == "u"@ {
        width.len() == 0 || width == "8"@ || width == "16"@ || width == "32"@ || width == "64"@
    } else {
        false
    }
}

/// Whether a cluster is one of the four type suffixes.
pub open spec fn is_suffix_text(cluster: Seq<char>) -> bool {
    cluster == "f"@ || cluster == "d"@ || cluster == "i"@ || cluster == "u"@
}

/// The message for a cluster that begins no token.
pub open spec fn unexpected_character_message(cluster: Seq<char>) -> MessageView {
    entry("lexer-error-unexpected-character"@, seq![text_arg("character"@, json_string(cluster))])
}

/// The message for an identifier, which the language does not have yet.
pub open spec fn unimplemented_identifier_message() -> MessageView {
    entry("lexer-error-unimplemented-feature"@, seq![text_arg("feature"@, "identifier"@)])
}

/// The message for a width that the suffix does not have. A width
/// after `d` has a message of its own; the others name the width, the
/// kind of literal and the widths of that kind.
pub open spec fn invalid_width_message(suffix: Seq<char>, width: Seq<char>, is_integer: bool) -> MessageView {
    if suffix == "d"@ {
        entry("lexer-error-invalid-number-literal-width.no-width-for-double"@, Seq::empty())
    } else {
        entry(
            "lexer-error-invalid-number-literal-width"@,
            seq![
                text_arg("width"@, json_string(width)),
                message_arg(
                    "literal_kind"@,
                    entry(
                        if is_integer {
                            "common-data-type-desc.int"@
                        } else {
                            "common-data-type-desc.float"@
                        },
                        Seq::empty(),
                    ),
                ),
                text_arg(
                    "valid_widths"@,
                    joined(
                        if is_integer {
                            integer_widths()
                        } else {
                            float_widths()
                        },
                        ", "@,
                    ),
                ),
            ],
        )
    }
}

/// The index behind the base prefix of a number that begins at `start`:
/// behind `0x`, `0b` or `0o`, else behind the first digit.
pub open spec fn number_base(clusters: Seq<ClusterView>, start: int) -> (NumberBase, int) {
    if clusters[start].text == "0"@ && cluster_is(clusters, start + 1, "x"@) {
        (NumberBase::Hexadecimal, start + 2)
    } else if clusters[start].text == "0"@ && cluster_is(clusters, start + 1, "b"@) {
        (NumberBase::Binary, start + 2)
    } else if clusters[start].text == "0"@ && cluster_is(clusters, start + 1, "o"@) {
        (NumberBase::Octal, start + 2)
    } else {
        (NumberBase::Decimal, start + 1)
    }
}

/// The parts of a number literal whose digits begin at `digits`.
pub ghost struct NumberParts {
    /// Whether digits follow the prefix (always, in decimal).
    pub has_integer_part: bool,
    /// Whether a dot and a digit follow the integer part.
    pub has_fraction: bool,
    /// Whether an `e` or `E` follows.
    pub has_exponent: bool,
    /// Where the digits and the exponent end.
    pub body_end: int,
    /// Whether a type suffix follows.
    pub has_suffix: bool,
    /// Where the literal ends, with the suffix and its width.
    pub end: int,
}

/// Whether a fraction begins at `index`: in decimal only, a dot that a
/// digit follows.
pub open spec fn has_fraction_at(clusters: Seq<ClusterView>, index: int, base: NumberBase) -> bool {
    base == NumberBase::Decimal && cluster_is(clusters, index, "."@) && cluster_in(
        clusters,
        index + 1,
        ClusterClass::Digit(base),
    )
}

/// Where the fraction ends that may begin at `index`.
pub open spec fn fraction_end(clusters: Seq<ClusterView>, index: int, base: NumberBase) -> int {
    if has_fraction_at(clusters, index, base) {
        run_end(clusters, index + 1, ClusterClass::Digit(base))
    } else {
        index
    }
}

/// Whether an exponent begins at `index`: in decimal only, `e` or `E`.
pub open spec fn has_exponent_at(clusters: Seq<ClusterView>, index: int, base: NumberBase) -> bool {
    base == NumberBase::Decimal && (cluster_is(clusters, index, "e"@) || cluster_is(
        clusters,
        index,
        "E"@,
    ))
}

/// Where the exponent ends that may begin at `index`: behind the `e`, an
/// optional sign and the digits that follow.
pub open spec fn exponent_end(clusters: Seq<ClusterView>, index: int, base: NumberBase) -> int {
    if !has_exponent_at(clusters, index, base) {
        index
    } else if cluster_is(clusters, index + 1, "+"@) || cluster_is(clusters, index + 1, "-"@) {
        run_end(clusters, index + 2, ClusterClass::Digit(base))
    } else {
        run_end(clusters, index + 1, ClusterClass::Digit(base))
    }
}

/// Whether a type suffix begins at `index`.
pub open spec fn has_suffix_at(clusters: Seq<ClusterView>, index: int) -> bool {
    0 <= index < clusters.len() && is_suffix_text(clusters[index].text)
}

/// Where the suffix ends that may begin at `index`: behind the letter
/// and the decimal digits of its width.
pub open spec fn suffix_end(clusters: Seq<ClusterView>, index: int) -> int {
    if has_suffix_at(clusters, index) {
        run_end(clusters, index + 1, ClusterClass::Digit(NumberBase::Decimal))
    } else {
        index
    }
}

/// Splits a number literal into its parts: the digits of the base, then
/// a fraction, an exponent and a type suffix.
pub open spec fn number_parts(clusters: Seq<ClusterView>, digits: int, base: NumberBase) -> NumberParts {
    let int_end = run_end(clusters, digits, ClusterClass::Digit(base));
    let fraction_end = fraction_end(clusters, int_end, base);
    let body_end = exponent_end(clusters, fraction_end, base);
    NumberParts {
        has_integer_part: base == NumberBase::Decimal || int_end > digits,
        has_fraction: has_fraction_at(clusters, int_end, base),
        has_exponent: has_exponent_at(clusters, fraction_end, base),
        body_end,
        has_suffix: has_suffix_at(clusters, body_end),
        end: suffix_end(clusters, body_end),
    }
}

/// The kind of a number literal with the given parts. A fraction or an
/// exponent makes a float; the suffix does not.
pub open spec fn number_kind(clusters: Seq<ClusterView>, base: NumberBase, parts: NumberParts) -> TokenKind {
    TokenKind::Literal {
        kind: if !parts.has_fraction && !parts.has_exponent {
            LiteralTokenKind::Integer(
                IntegerLiteralToken { base, has_integer_part: parts.has_integer_part },
            )
        } else {
            LiteralTokenKind::Float(
                FloatLiteralToken { base, has_exponent_part: parts.has_exponent },
            )
        },
        suffix_start: if parts.has_suffix {
            Some(position_at(clusters, parts.body_end))
        } else {
            None
        },
    }
}

/// Scans a number literal whose digits begin at `digits`: the token, or
/// the diagnostic for a suffix with a width it does not have, which
/// points at the suffix and its width.
pub open spec fn scan_number(clusters: Seq<ClusterView>, digits: int, base: NumberBase) -> Scan {
    let parts = number_parts(clusters, digits, base);
    let width = text_between(clusters, parts.body_end + 1, parts.end);
    if parts.has_suffix && !valid_width(clusters[parts.body_end].text, width) {
        Scan::Failure {
            code: LexerErrorCode::InvalidNumberLiteralWidth,
            message: invalid_width_message(
                clusters[parts.body_end].text,
                width,
                !parts.has_fraction && !parts.has_exponent,
            ),
            location: Location::Span(span_between(clusters, parts.body_end, parts.end)),
        }
    } else {
        Scan::Token { kind: number_kind(clusters, base, parts), end: parts.end }
    }
}

/// Scans an identifier that begins at `start`: the longest run of
/// clusters that continue it. Only `echo` is a token.
pub open spec fn scan_identifier(clusters: Seq<ClusterView>, start: int) -> Scan {
    let end = run_end(clusters, start + 1, ClusterClass::IdentifierContinue);
    if text_between(clusters, start, end) == "echo"@ {
        Scan::Token { kind: TokenKind::Echo, end }
    } else {
        Scan::Failure {
            code: LexerErrorCode::UnimplementedFeature,
            message: unimplemented_identifier_message(),
            location: Location::Span(span_between(clusters, start, end)),
        }
    }
}

/// Scans a run of spaces or of tabs that begins at `start`. The run is a
/// token only where it indents a line: it begins in the first column and
/// something other than a line break follows it.
pub open spec fn scan_indentation(
    clusters: Seq<ClusterView>,
    start: int,
    class: ClusterClass,
    kind: TokenKind,
) -> Scan {
    let end = run_end(clusters, start + 1, class);
    if column_at(clusters, start) == 1 && cluster_in(clusters, end, ClusterClass::WithinLine) {
        Scan::Token { kind, end }
    } else {
        Scan::Nothing { end }
    }
}

/// Scans the token that begins at the cluster `start`.
pub open spec fn scan_at(clusters: Seq<ClusterView>, start: int) -> Scan {
    let cluster = clusters[start].text;
    if clusters[start].identifier_start {
        scan_identifier(clusters, start)
    } else if is_digit_text(cluster, NumberBase::Decimal) {
        let (base, digits) = number_base(clusters, start);
        scan_number(clusters, digits, base)
    } else if cluster == "+"@ {
        Scan::Token { kind: TokenKind::Add, end: start + 1 }
    } else if cluster == "-"@ {
        Scan::Token { kind: TokenKind::SubtractOrNegate, end: start + 1 }
    } else if cluster == "*"@ {
        if cluster_is(clusters, start + 1, "*"@) {
            Scan::Token { kind: TokenKind::Exponent, end: start + 2 }
        } else {
            Scan::Token { kind: TokenKind::Multiply, end: start + 1 }
        }
    } else if cluster == "/"@ {
        if cluster_is(clusters, start + 1, "/"@) {
            Scan::Token {
                kind: TokenKind::SingleLineComment,
                end: run_end(clusters, start + 2, ClusterClass::WithinLine),
            }
        } else {
            Scan::Token { kind: TokenKind::Divide, end: start + 1 }
        }
    } else if cluster == "%"@ {
        Scan::Token { kind: TokenKind::Modulo, end: start + 1 }
    } else if cluster == "("@ {
        Scan::Token { kind: TokenKind::LeftParen, end: start + 1 }
    } else if cluster == ")"@ {
        Scan::Token { kind: TokenKind::RightParen, end: start + 1 }
    } else if cluster == ";"@ {
        Scan::Token { kind: TokenKind::SemiColon, end: start + 1 }
    } else if cluster == ":"@ {
        Scan::Token { kind: TokenKind::Colon, end: start + 1 }
    } else if cluster == " "@ {
        scan_indentation(clusters, start, ClusterClass::Space, TokenKind::Whitespace)
    } else if cluster == "\t"@ {
        scan_indentation(clusters, start, ClusterClass::Tab, TokenKind::Tab)
    } else if is_newline_text(cluster) {
        Scan::Token { kind: TokenKind::NewLine, end: start + 1 }
    } else {
        Scan::Failure {
            code: LexerErrorCode::UnexpectedCharacter,
            message: unexpected_character_message(cluster),
            location: Location::Position(position_at(clusters, start)),
        }
    }
}

/// Where the token begins that is scanned from `index` on: behind the
/// skipable clusters.
pub open spec fn token_start(clusters: Seq<ClusterView>, index: int) -> int {
    run_end(clusters, index, ClusterClass::Skipable)
}

/// One step of the lexer from `index` on: skipable clusters are passed
/// over, then one token is scanned, unless the source ends there.
pub open spec fn scan_step(clusters: Seq<ClusterView>, index: int) -> Scan {
    let start = token_start(clusters, index);
    if start >= clusters.len() {
        Scan::Nothing { end: start }
    } else {
        scan_at(clusters, start)
    }
}

/// The token that ends every sequence: it covers nothing, at the end of
/// the source.
pub open spec fn end_of_input(clusters: Seq<ClusterView>, source_id: Seq<char>) -> TokenView {
    token_between(clusters, source_id, TokenKind::EndOfInput, clusters.len() as int, clusters.len() as int)
}

/// The tokens of the clusters from `index` on, or the first diagnostic.
/// Steps follow one another until the source ends. (A step that did not
/// move on would end the sequence without a token; no step is such.)
pub open spec fn tokens_from(
    clusters: Seq<ClusterView>,
    source_id: Seq<char>,
    index: int,
) -> Result<Seq<TokenView>, LexerErrorView>
    decreases clusters.len() - index,
{
    if index >= clusters.len() {
        Ok(seq![end_of_input(clusters, source_id)])
    } else {
        match scan_step(clusters, index) {
            Scan::Token { kind, end } => if !(index < end <= clusters.len()) {
                Ok(Seq::empty())
            } else {
                match tokens_from(clusters, source_id, end) {
                    Ok(rest) => Ok(
                        seq![
                            token_between(
                                clusters,
                                source_id,
                                kind,
                                token_start(clusters, index),
                                end,
                            ),
                        ] + rest,
                    ),
                    Err(error) => Err(error),
                }
            },
            Scan::Nothing { end } => if !(index < end <= clusters.len()) {
                Ok(Seq::empty())
            } else {
                tokens_from(clusters, source_id, end)
            },
            Scan::Failure { code, message, location } => Err(
                LexerErrorView { code, message, hint: None, location, source_id },
            ),
        }
    }
}

/// The tokens of a sequence of clusters, or the first diagnostic.
pub open spec fn tokens_of(clusters: Seq<ClusterView>, source_id: Seq<char>) -> Result<
    Seq<TokenView>,
    LexerErrorView,
> {
    tokens_from(clusters, source_id, 0)
}

/// What a scan delivers to the caller: the token between `start` and the
/// scan's end, nothing, or the diagnostic.
pub open spec fn scan_outcome(
    scan: Scan,
    clusters: Seq<ClusterView>,
    source_id: Seq<char>,
    start: int,
) -> Result<Option<TokenView>, LexerErrorView> {
    match scan {
        Scan::Token { kind, end } => Ok(
            Some(token_between(clusters, source_id, kind, start, end)),
        ),
        Scan::Nothing { end } => Ok(None),
        Scan::Failure { code, message, location } => Err(
            LexerErrorView { code, message, hint: None, location, source_id },
        ),
    }
}

/// Where a scan that began at `index` leaves the lexer.
pub open spec fn scan_end(scan: Scan, index: int) -> int {
    match scan {
        Scan::Token { kind, end } => end,
        Scan::Nothing { end } => end,
        Scan::Failure { code, message, location } => index,
    }
}

/// Clusters that can be scanned: none is empty, and together they take
/// fewer bytes than the largest `usize`.
pub open spec fn scannable(clusters: Seq<ClusterView>) -> bool {
    &&& forall|i: int| 0 <= i < clusters.len() ==> (#[trigger] clusters[i]).text.len() > 0
    &&& offset_at(clusters, clusters.len() as int) < usize::MAX
}

} // verus!
