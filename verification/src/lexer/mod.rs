//! The lexer: from source text to tokens.

pub mod laws;
pub mod model;

use crate::lexer::laws::{
    gaps_are_blank, in_order, is_blank, lemma_position_exact, lemma_round_trip_without_blanks,
    lemma_run_end, lemma_segmentation_scannable, lemma_tokens_and_blanks, lexemes_and_gaps,
    lexemes_in_a_row,
};
use crate::lexer::model::{
    cluster_in, cluster_is, exponent_end, float_widths, fraction_end, has_exponent_at,
    has_fraction_at, has_suffix_at, suffix_end, in_class, integer_widths, invalid_width_message,
    is_digit_char, is_digit_text, is_newline_text, is_skipable_text, is_suffix_text, joined,
    number_base, number_kind, number_parts, position_at, run_end, scan_at, scan_end,
    scan_identifier, scan_indentation, scan_number, scan_outcome, scan_step, scannable,
    text_between, token_between, token_start, tokens_from, tokens_of, unexpected_character_message,
    unimplemented_identifier_message, valid_width, classified, clusters_of, texts_of, Cluster,
    ClusterClass, ClusterView, LexerErrorCode, LexerErrorView, Scan,
};
use crate::message::{message_args_view, Message, MessageArg};
use crate::span::{Location, Position, Span};
use crate::text::{byte_len, is_identifier_continue, is_identifier_start, text_equals};
use crate::token::{
    FloatLiteralToken, IntegerLiteralToken, LiteralTokenKind, NumberBase, Token, TokenKind,
    TokenView,
};
use crate::unicode::{concat_all, grapheme_clusters, json_quote};
use vstd::prelude::*;
use vstd::string::*;

verus! {

/// A diagnostic of the lexer.
#[derive(Debug, PartialEq, Eq)]
pub struct LexerError {
    /// Which diagnostic it is.
    pub code: LexerErrorCode,
    /// What went wrong.
    pub message: Message,
    /// What may help.
    pub hint: Option<Message>,
    /// Where in the source it went wrong.
    pub location: Location,
    /// The identifier of the source.
    pub source_id: String,
}

impl DeepView for LexerError {
    type V = LexerErrorView;

    open spec fn deep_view(&self) -> LexerErrorView {
        LexerErrorView {
            code: self.code,
            message: self.message.deep_view(),
            hint: self.hint.deep_view(),
            location: self.location,
            source_id: self.source_id@,
        }
    }
}

/// What the lexer returns.
pub type LexerResult<T> = Result<T, LexerError>;

/// Whether a result of the lexer has the given content.
pub open spec fn delivers(
    result: LexerResult<Option<Token>>,
    outcome: Result<Option<TokenView>, LexerErrorView>,
) -> bool {
    match result {
        Ok(token) => outcome == Ok::<Option<TokenView>, LexerErrorView>(token.deep_view()),
        Err(error) => outcome == Err::<Option<TokenView>, LexerErrorView>(error.deep_view()),
    }
}

/// Tells whether a cluster is a line break.
fn newline_text(cluster: &str) -> (result: bool)
    ensures
        result == is_newline_text(cluster@),
{
    text_equals(cluster, "\n") || text_equals(cluster, "\r\n")
}

/// Tells whether a cluster is white space that is part of no token.
fn skipable_text(cluster: &str) -> (result: bool)
    ensures
        result == is_skipable_text(cluster@),
{
    text_equals(cluster, "\u{b}") || text_equals(cluster, "\u{c}") || text_equals(cluster, "\r")
}

/// Tells whether a character is a digit of a base.
fn digit_char(c: char, base: NumberBase) -> (result: bool)
    ensures
        result == is_digit_char(c, base),
{
    match base {
        NumberBase::Binary => '0' <= c && c <= '1',
        NumberBase::Octal => '0' <= c && c <= '7',
        NumberBase::Decimal => '0' <= c && c <= '9',
        NumberBase::Hexadecimal => ('0' <= c && c <= '9') || ('a' <= c && c <= 'f') || ('A' <= c
            && c <= 'F'),
    }
}

/// Tells whether every character of a cluster is a digit of a base.
fn digit_text(cluster: &str, base: NumberBase) -> (result: bool)
    ensures
        result == is_digit_text(cluster@, base),
{
    let n = cluster.unicode_len();
    let mut i: usize = 0;
    while i < n
        invariant
            n == cluster@.len(),
            i <= n,
            forall|j: int| 0 <= j < i ==> is_digit_char(#[trigger] cluster@[j], base),
        decreases n - i,
    {
        if !digit_char(cluster.get_char(i), base) {
            return false;
        }
        i += 1;
    }
    true
}

/// Tells whether a cluster belongs to a class.
fn cluster_in_class(cluster: &Cluster, class: ClusterClass) -> (result: bool)
    ensures
        result == in_class(cluster.deep_view(), class),
{
    match class {
        ClusterClass::Skipable => skipable_text(cluster.text.as_str()),
        ClusterClass::Space => text_equals(cluster.text.as_str(), " "),
        ClusterClass::Tab => text_equals(cluster.text.as_str(), "\t"),
        ClusterClass::WithinLine => !newline_text(cluster.text.as_str()),
        ClusterClass::IdentifierContinue => cluster.identifier_continue,
        ClusterClass::Digit(base) => digit_text(cluster.text.as_str(), base),
    }
}

/// The cluster with a text, as Unicode classifies it.
pub fn classify(text: String) -> (cluster: Cluster)
    ensures
        cluster.deep_view() == classified(text@),
{
    let identifier_start = is_identifier_start(text.as_str());
    let identifier_continue = is_identifier_continue(text.as_str());
    Cluster { text, identifier_start, identifier_continue }
}

/// The clusters of a source.
pub fn segment(source_code: &str) -> (clusters: Vec<Cluster>)
    ensures
        clusters.deep_view() == clusters_of(source_code@),
        concat_all(texts_of(clusters.deep_view())) == source_code@,
        forall|i: int| 0 <= i < clusters.len() ==> (#[trigger] clusters.deep_view()[i]).text.len() > 0,
{
    let mut texts = grapheme_clusters(source_code);
    let ghost graphemes = texts.deep_view();
    let mut clusters: Vec<Cluster> = Vec::new();
    let mut i: usize = 0;
    while i < texts.len()
        invariant
            i <= texts.len(),
            texts@.len() == graphemes.len(),
            forall|j: int| i <= j < texts.len() ==> (#[trigger] texts@[j])@ == graphemes[j],
            clusters@.len() == i,
            forall|j: int|
                0 <= j < i ==> (#[trigger] clusters@[j]).deep_view() == classified(graphemes[j]),
        decreases texts.len() - i,
    {
        let mut text = String::new();
        std::mem::swap(&mut text, &mut texts[i]);
        clusters.push(classify(text));
        i += 1;
    }
    proof {
        assert(clusters.deep_view() =~= clusters_of(source_code@));
        assert(texts_of(clusters.deep_view()) =~= graphemes);
    }
    clusters
}

/// Whether a cluster is white space that the lexer passes over: a
/// vertical tab, a form feed or a carriage return without a line feed.
pub fn is_skipable(c: String) -> (result: bool)
    ensures
        result == is_skipable_text(c@),
{
    skipable_text(c.as_str())
}

/// Whether a cluster is a line break: `\n` or `\r\n`.
pub fn is_newline(c: String) -> (result: bool)
    ensures
        result == is_newline_text(c@),
{
    newline_text(c.as_str())
}

/// Whether every character of a cluster is a digit of a base.
pub fn is_digit(c: String, base: NumberBase) -> (result: bool)
    ensures
        result == is_digit_text(c@, base),
{
    digit_text(c.as_str(), base)
}

/// Joins the items of a list with `, `.
fn join_with_commas(items: &Vec<&'static str>) -> (text: String)
    ensures
        text@ == joined(items.deep_view(), ", "@),
{
    let mut text = String::new();
    let mut i: usize = 0;
    while i < items.len()
        invariant
            i <= items.len(),
            text@ == joined(items.deep_view().take(i as int), ", "@),
        decreases items.len() - i,
    {
        proof {
            assert(items.deep_view().take(i as int + 1).drop_last() =~= items.deep_view().take(
                i as int,
            ));
            assert(items.deep_view().take(1) =~= seq![items.deep_view()[0]]);
        }
        if i > 0 {
            text.append(", ");
        }
        text.append(items[i]);
        i += 1;
    }
    proof {
        assert(items.deep_view().take(items.len() as int) =~= items.deep_view());
    }
    text
}

/// The lexer: the clusters of a source and two positions in it, where
/// the token being scanned begins and how far the scan has come.
pub struct Lexer {
    source_id: String,
    graphemes: Vec<Cluster>,
    start: Position,
    current: Position,
}

impl Lexer {
    /// The clusters of the source.
    pub closed spec fn clusters(&self) -> Seq<ClusterView> {
        self.graphemes.deep_view()
    }

    /// The identifier of the source.
    pub closed spec fn source(&self) -> Seq<char> {
        self.source_id@
    }

    /// Where the token being scanned begins.
    pub closed spec fn start_position(&self) -> Position {
        self.start
    }

    /// How far the scan has come.
    pub closed spec fn current_position(&self) -> Position {
        self.current
    }

    /// The number of clusters before the token being scanned.
    pub open spec fn start_index(&self) -> int {
        self.start_position().char_index as int
    }

    /// The number of clusters that the scan has passed.
    pub open spec fn current_index(&self) -> int {
        self.current_position().char_index as int
    }

    /// The clusters can be scanned and both positions are positions of
    /// the source, the start not behind the current one.
    pub open spec fn well_formed(&self) -> bool {
        &&& scannable(self.clusters())
        &&& 0 <= self.start_index() <= self.current_index() <= self.clusters().len()
        &&& self.start_position() == position_at(self.clusters(), self.start_index())
        &&& self.current_position() == position_at(self.clusters(), self.current_index())
    }

    /// Whether two lexers read the same source.
    pub open spec fn same_source(&self, other: &Lexer) -> bool {
        self.clusters() == other.clusters() && self.source() == other.source()
    }

    /// A lexer at the beginning of clusters that were segmented already.
    pub fn from_clusters(source_id: String, clusters: Vec<Cluster>) -> (lexer: Lexer)
        requires
            scannable(clusters.deep_view()),
        ensures
            lexer.well_formed(),
            lexer.clusters() == clusters.deep_view(),
            lexer.source() == source_id@,
            lexer.current_index() == 0,
            lexer.start_index() == 0,
    {
        Lexer {
            source_id,
            graphemes: clusters,
            start: Position::default(),
            current: Position::default(),
        }
    }

    /// A lexer at the beginning of a source.
    pub fn new(source_id: String, source_code: String) -> (lexer: Lexer)
        requires
            byte_len(source_code@) < usize::MAX,
        ensures
            lexer.well_formed(),
            lexer.clusters() == clusters_of(source_code@),
            concat_all(texts_of(lexer.clusters())) == source_code@,
            lexer.source() == source_id@,
            lexer.current_index() == 0,
            lexer.start_index() == 0,
    {
        let clusters = segment(source_code.as_str());
        proof {
            lemma_segmentation_scannable(clusters.deep_view(), source_code@);
        }
        Lexer::from_clusters(source_id, clusters)
    }

    /// How far the scan has come.
    pub fn current(&self) -> (position: Position)
        ensures
            position == self.current_position(),
    {
        self.current
    }

    /// Whether the scan has come to the end of the source.
    fn is_eoi(&self) -> (result: bool)
        ensures
            result == (self.current_index() >= self.clusters().len()),
    {
        self.current.char_index >= self.graphemes.len()
    }

    /// The text of the next cluster, if the source has not ended.
    pub fn peek(&self) -> (text: Option<String>)
        requires
            self.well_formed(),
        ensures
            text.deep_view() == if self.current_index() < self.clusters().len() {
                Some(self.clusters()[self.current_index()].text)
            } else {
                None
            },
    {
        self.peek_nth(0)
    }

    /// The text of the cluster `n` places behind the next, if the
    /// source reaches that far.
    pub fn peek_nth(&self, n: usize) -> (text: Option<String>)
        requires
            self.well_formed(),
        ensures
            text.deep_view() == if self.current_index() + n < self.clusters().len() {
                Some(self.clusters()[self.current_index() + n].text)
            } else {
                None
            },
    {
        let length = self.graphemes.len();
        if n < length - self.current.char_index {
            Some(self.graphemes[self.current.char_index + n].text.clone())
        } else {
            None
        }
    }

    /// The text of the cluster that the scan passed last, if it has
    /// passed any.
    pub fn previous(&self) -> (text: Option<String>)
        requires
            self.well_formed(),
        ensures
            text.deep_view() == if self.current_index() > 0 {
                Some(self.clusters()[self.current_index() - 1].text)
            } else {
                None
            },
    {
        if self.current.char_index > 0 {
            Some(self.graphemes[self.current.char_index - 1].text.clone())
        } else {
            None
        }
    }

    /// Whether the next cluster is `text`.
    fn next_is(&self, text: &str) -> (result: bool)
        requires
            self.well_formed(),
        ensures
            result == cluster_is(self.clusters(), self.current_index(), text@),
    {
        self.current.char_index < self.graphemes.len() && text_equals(
            self.graphemes[self.current.char_index].text.as_str(),
            text,
        )
    }

    /// Whether the cluster `ahead` places behind the next belongs to
    /// `class`.
    fn nth_in(&self, ahead: usize, class: ClusterClass) -> (result: bool)
        requires
            self.well_formed(),
            ahead <= 1,
        ensures
            result == cluster_in(self.clusters(), self.current_index() + ahead, class),
    {
        proof {
            lemma_position_exact(self.clusters(), self.current_index());
        }
        let index = self.current.char_index + ahead;
        index < self.graphemes.len() && cluster_in_class(&self.graphemes[index], class)
    }

    /// The position behind a position, which stands before the cluster
    /// `index`.
    fn position_after(&self, position: Position, index: usize) -> (next: Position)
        requires
            scannable(self.clusters()),
            index < self.clusters().len(),
            position == position_at(self.clusters(), index as int),
        ensures
            next == position_at(self.clusters(), index as int + 1),
    {
        proof {
            lemma_position_exact(self.clusters(), index as int);
            lemma_position_exact(self.clusters(), index as int + 1);
        }
        let cluster = self.graphemes[index].text.as_str();
        let mut next = position;
        if newline_text(cluster) {
            next.line = next.line + 1;
            next.column = 1;
        } else {
            next.column = next.column + 1;
        }
        next.char_index = next.char_index + 1;
        next.offset = next.offset + cluster.len();
        next
    }

    /// The position that stands `n` clusters before the current one.
    pub fn get_previous_position(&self, n: usize) -> (position: Position)
        requires
            self.well_formed(),
            n <= self.current_index(),
        ensures
            position == position_at(self.clusters(), self.current_index() - n),
    {
        let target = self.current.char_index - n;
        let mut position = Position::default();
        let mut index: usize = 0;
        proof {
            lemma_position_exact(self.clusters(), 0);
        }
        while index < target
            invariant
                self.well_formed(),
                index <= target <= self.current_index(),
                position == position_at(self.clusters(), index as int),
            decreases target - index,
        {
            position = self.position_after(position, index);
            index += 1;
        }
        position
    }

    /// Moves the scan over the next cluster.
    pub fn advance(&mut self)
        requires
            old(self).well_formed(),
            old(self).current_index() < old(self).clusters().len(),
        ensures
            final(self).well_formed(),
            final(self).same_source(old(self)),
            final(self).start_position() == old(self).start_position(),
            final(self).current_index() == old(self).current_index() + 1,
    {
        proof {
            lemma_position_exact(self.clusters(), self.current_index());
        }
        self.current = self.position_after(self.current, self.current.char_index);
    }

    /// Moves the scan over the next cluster if it is `expected`.
    fn match_and_consume(&mut self, expected: &str) -> (result: bool)
        requires
            old(self).well_formed(),
        ensures
            final(self).well_formed(),
            final(self).same_source(old(self)),
            final(self).start_position() == old(self).start_position(),
            result == cluster_is(old(self).clusters(), old(self).current_index(), expected@),
            final(self).current_index() == old(self).current_index() + if result {
                1int
            } else {
                0int
            },
    {
        if self.next_is(expected) {
            self.advance();
            true
        } else {
            false
        }
    }

    /// Moves the scan over the longest run of clusters of a class.
    fn consume_run(&mut self, class: ClusterClass)
        requires
            old(self).well_formed(),
        ensures
            final(self).well_formed(),
            final(self).same_source(old(self)),
            final(self).start_position() == old(self).start_position(),
            final(self).current_index() == run_end(
                old(self).clusters(),
                old(self).current_index(),
                class,
            ),
            final(self).current_index() >= old(self).current_index(),
    {
        let ghost clusters = self.clusters();
        let ghost source = self.source();
        let ghost start = self.start_position();
        let ghost begin = self.current_index();
        let ghost end = run_end(clusters, self.current_index(), class);
        while self.nth_in(0, class)
            invariant
                self.well_formed(),
                self.current_index() >= begin,
                self.clusters() == clusters,
                self.source() == source,
                self.start_position() == start,
                run_end(clusters, self.current_index(), class) == end,
            decreases self.clusters().len() - self.current_index(),
        {
            self.advance();
        }
    }

    /// Moves the scan over white space that is part of no token.
    pub fn skip_skipable(&mut self)
        requires
            old(self).well_formed(),
        ensures
            final(self).well_formed(),
            final(self).same_source(old(self)),
            final(self).start_position() == old(self).start_position(),
            final(self).current_index() == token_start(
                old(self).clusters(),
                old(self).current_index(),
            ),
            final(self).current_index() >= old(self).current_index(),
    {
        self.consume_run(ClusterClass::Skipable);
    }

    /// The text of the clusters from `start` up to `end`.
    fn text_of(&self, start: usize, end: usize) -> (text: String)
        requires
            start <= end <= self.clusters().len(),
        ensures
            text@ == text_between(self.clusters(), start as int, end as int),
    {
        let mut text = String::new();
        let mut i = start;
        while i < end
            invariant
                start <= i <= end <= self.clusters().len(),
                text@ == text_between(self.clusters(), start as int, i as int),
            decreases end - i,
        {
            text.append(self.graphemes[i].text.as_str());
            i += 1;
        }
        text
    }

    /// The token of a kind between the start and the current position.
    fn new_token(&self, kind: TokenKind) -> (token: Option<Token>)
        requires
            self.well_formed(),
        ensures
            token.deep_view() == Some(
                token_between(
                    self.clusters(),
                    self.source(),
                    kind,
                    self.start_index(),
                    self.current_index(),
                ),
            ),
    {
        Some(
            Token::new(
                kind,
                Span::new(self.start, self.current),
                self.text_of(self.start.char_index, self.current.char_index),
                self.source_id.clone(),
            ),
        )
    }

    /// Whether a type suffix can have a width, together with the widths
    /// that integer suffixes and float suffixes can have.
    pub fn validate_number_width(&self, width_lexeme: String, suffix: String) -> (result: (
        bool,
        Vec<&'static str>,
        Vec<&'static str>,
    ))
        ensures
            result.0 == valid_width(suffix@, width_lexeme@),
            result.1.deep_view() == integer_widths(),
            result.2.deep_view() == float_widths(),
    {
        let mut int_possible_widths: Vec<&'static str> = Vec::new();
        int_possible_widths.push("8");
        int_possible_widths.push("16");
        int_possible_widths.push("32");
        int_possible_widths.push("64");
        let mut float_possible_widths: Vec<&'static str> = Vec::new();
        float_possible_widths.push("32");
        float_possible_widths.push("64");
        proof {
            assert(int_possible_widths.deep_view() =~= integer_widths());
            assert(float_possible_widths.deep_view() =~= float_widths());
        }
        let width = width_lexeme.as_str();
        let no_width = width.unicode_len() == 0;
        let valid = if text_equals(suffix.as_str(), "f") {
            no_width || text_equals(width, "32") || text_equals(width, "64")
        } else if text_equals(suffix.as_str(), "d") {
            no_width
        } else if text_equals(suffix.as_str(), "i") || text_equals(suffix.as_str(), "u") {
            no_width || text_equals(width, "8") || text_equals(width, "16") || text_equals(
                width,
                "32",
            ) || text_equals(width, "64")
        } else {
            false
        };
        (valid, int_possible_widths, float_possible_widths)
    }

    /// The message for a width that the suffix does not have.
    fn invalid_width(
        suffix: &str,
        width: &str,
        is_integer: bool,
        int_possible_widths: &Vec<&'static str>,
        float_possible_widths: &Vec<&'static str>,
    ) -> (message: Message)
        requires
            int_possible_widths.deep_view() == integer_widths(),
            float_possible_widths.deep_view() == float_widths(),
        ensures
            message.deep_view() == invalid_width_message(suffix@, width@, is_integer),
    {
        if text_equals(suffix, "d") {
            let message = Message::entry(
                "lexer-error-invalid-number-literal-width.no-width-for-double",
                Vec::new(),
            );
            proof {
                assert(message_args_view(Seq::<MessageArg>::empty()) =~= Seq::empty());
            }
            return message;
        }
        let literal_kind = Message::entry(
            if is_integer {
                "common-data-type-desc.int"
            } else {
                "common-data-type-desc.float"
            },
            Vec::new(),
        );
        let valid_widths = if is_integer {
            join_with_commas(int_possible_widths)
        } else {
            join_with_commas(float_possible_widths)
        };
        let mut args: Vec<MessageArg> = Vec::new();
        args.push(MessageArg::text("width", json_quote(width)));
        args.push(MessageArg::message("literal_kind", literal_kind));
        args.push(MessageArg::text("valid_widths", valid_widths));
        let message = Message::entry("lexer-error-invalid-number-literal-width", args);
        proof {
            assert(message_args_view(Seq::<MessageArg>::empty()) =~= Seq::empty());
            assert(message_args_view(args@) =~= invalid_width_message(
                suffix@,
                width@,
                is_integer,
            )->Entry_args);
        }
        message
    }

    /// Scans a fraction if one begins here: a dot and the digits behind
    /// it, where at least one digit follows the dot.
    fn consume_fraction(&mut self, base: NumberBase) -> (found: bool)
        requires
            old(self).well_formed(),
        ensures
            final(self).well_formed(),
            final(self).same_source(old(self)),
            final(self).start_position() == old(self).start_position(),
            found == has_fraction_at(old(self).clusters(), old(self).current_index(), base),
            final(self).current_index() == fraction_end(
                old(self).clusters(),
                old(self).current_index(),
                base,
            ),
            final(self).current_index() >= old(self).current_index(),
    {
        let decimal = match base {
            NumberBase::Decimal => true,
            _ => false,
        };
        if decimal && self.next_is(".") && self.nth_in(1, ClusterClass::Digit(base)) {
            self.advance();
            self.consume_run(ClusterClass::Digit(base));
            true
        } else {
            false
        }
    }

    /// Scans an exponent if one begins here: `e` or `E`, an optional
    /// sign and the digits behind it.
    fn consume_exponent(&mut self, base: NumberBase) -> (found: bool)
        requires
            old(self).well_formed(),
        ensures
            final(self).well_formed(),
            final(self).same_source(old(self)),
            final(self).start_position() == old(self).start_position(),
            found == has_exponent_at(old(self).clusters(), old(self).current_index(), base),
            final(self).current_index() == exponent_end(
                old(self).clusters(),
                old(self).current_index(),
                base,
            ),
            final(self).current_index() >= old(self).current_index(),
    {
        let decimal = match base {
            NumberBase::Decimal => true,
            _ => false,
        };
        if decimal && (self.next_is("e") || self.next_is("E")) {
            self.advance();
            if self.next_is("+") || self.next_is("-") {
                self.advance();
            }
            self.consume_run(ClusterClass::Digit(base));
            true
        } else {
            false
        }
    }

    /// Scans a type suffix if one begins here: the letter and the
    /// decimal digits of its width. Returns the two texts.
    fn consume_suffix(&mut self) -> (found: Option<(String, String)>)
        requires
            old(self).well_formed(),
        ensures
            final(self).well_formed(),
            final(self).same_source(old(self)),
            final(self).start_position() == old(self).start_position(),
            found is Some == has_suffix_at(old(self).clusters(), old(self).current_index()),
            final(self).current_index() == suffix_end(
                old(self).clusters(),
                old(self).current_index(),
            ),
            final(self).current_index() >= old(self).current_index(),
            found matches Some(texts) ==> texts.0@ == old(self).clusters()[old(
                self,
            ).current_index()].text && texts.1@ == text_between(
                old(self).clusters(),
                old(self).current_index() + 1,
                final(self).current_index(),
            ),
    {
        if self.next_is("f") || self.next_is("d") || self.next_is("i") || self.next_is("u") {
            let suffix_index = self.current.char_index;
            self.advance();
            let width_index = self.current.char_index;
            self.consume_run(ClusterClass::Digit(NumberBase::Decimal));
            let suffix = self.graphemes[suffix_index].text.clone();
            let width_lexeme = self.text_of(width_index, self.current.char_index);
            Some((suffix, width_lexeme))
        } else {
            None
        }
    }

    /// Scans the rest of a number literal of a base, behind its prefix:
    /// digits, then in decimal a fraction and an exponent, then a type
    /// suffix with its width.
    fn consume_number(&mut self, base: NumberBase) -> (result: LexerResult<Option<Token>>)
        requires
            old(self).well_formed(),
        ensures
            final(self).same_source(old(self)),
            final(self).current_index() >= old(self).current_index(),
            delivers(
                result,
                scan_outcome(
                    scan_number(old(self).clusters(), old(self).current_index(), base),
                    old(self).clusters(),
                    old(self).source(),
                    old(self).start_index(),
                ),
            ),
            result is Ok ==> final(self).well_formed() && final(self).current_index() == scan_end(
                scan_number(old(self).clusters(), old(self).current_index(), base),
                old(self).current_index(),
            ),
    {
        let ghost clusters = self.clusters();
        let ghost parts = number_parts(clusters, self.current_index(), base);
        let decimal = match base {
            NumberBase::Decimal => true,
            _ => false,
        };
        let digits = self.current.char_index;
        self.consume_run(ClusterClass::Digit(base));
        let has_int_part = decimal || self.current.char_index > digits;
        let has_fraction = self.consume_fraction(base);
        let has_exponent = self.consume_exponent(base);
        let is_int = !has_fraction && !has_exponent;
        let suffix_start = self.current;
        assert(self.current_index() == parts.body_end);
        let suffix_start_pos = match self.consume_suffix() {
            Some((suffix, width_lexeme)) => {
                let (valid_width, int_possible_widths, float_possible_widths) =
                    self.validate_number_width(width_lexeme.clone(), suffix.clone());
                if !valid_width {
                    let message = Lexer::invalid_width(
                        suffix.as_str(),
                        width_lexeme.as_str(),
                        is_int,
                        &int_possible_widths,
                        &float_possible_widths,
                    );
                    return Err(
                        self.failure(
                            LexerErrorCode::InvalidNumberLiteralWidth,
                            message,
                            Location::Span(Span::new(suffix_start, self.current)),
                        ),
                    );
                }
                Some(suffix_start)
            },
            None => None,
        };
        assert(self.current_index() == parts.end);
        let kind = if is_int {
            LiteralTokenKind::Integer(IntegerLiteralToken { base, has_integer_part: has_int_part })
        } else {
            LiteralTokenKind::Float(FloatLiteralToken { base, has_exponent_part: has_exponent })
        };
        assert(TokenKind::Literal { kind, suffix_start: suffix_start_pos } == number_kind(
            clusters,
            base,
            parts,
        ));
        Ok(self.new_token(TokenKind::Literal { kind, suffix_start: suffix_start_pos }))
    }

    /// Scans a number literal whose first digit the scan has just
    /// passed: `0x`, `0b` and `0o` choose the base.
    fn create_number_token(&mut self) -> (result: LexerResult<Option<Token>>)
        requires
            old(self).well_formed(),
            old(self).current_index() == old(self).start_index() + 1,
        ensures
            final(self).same_source(old(self)),
            final(self).current_index() >= old(self).current_index(),
            delivers(
                result,
                scan_outcome(
                    scan_number(
                        old(self).clusters(),
                        number_base(old(self).clusters(), old(self).start_index()).1,
                        number_base(old(self).clusters(), old(self).start_index()).0,
                    ),
                    old(self).clusters(),
                    old(self).source(),
                    old(self).start_index(),
                ),
            ),
            result is Ok ==> final(self).well_formed() && final(self).current_index() == scan_end(
                scan_number(
                    old(self).clusters(),
                    number_base(old(self).clusters(), old(self).start_index()).1,
                    number_base(old(self).clusters(), old(self).start_index()).0,
                ),
                old(self).current_index(),
            ),
    {
        let starts_with_zero = text_equals(self.graphemes[self.start.char_index].text.as_str(), "0");
        if starts_with_zero {
            if self.match_and_consume("x") {
                self.consume_number(NumberBase::Hexadecimal)
            } else if self.match_and_consume("b") {
                self.consume_number(NumberBase::Binary)
            } else if self.match_and_consume("o") {
                self.consume_number(NumberBase::Octal)
            } else {
                self.consume_number(NumberBase::Decimal)
            }
        } else {
            self.consume_number(NumberBase::Decimal)
        }
    }

    /// Scans a comment behind its `//`, up to the end of the line.
    fn create_single_line_comment_token(&mut self) -> (result: LexerResult<Option<Token>>)
        requires
            old(self).well_formed(),
        ensures
            final(self).same_source(old(self)),
            final(self).well_formed(),
            final(self).current_index() >= old(self).current_index(),
            final(self).current_index() == run_end(
                old(self).clusters(),
                old(self).current_index(),
                ClusterClass::WithinLine,
            ),
            delivers(
                result,
                Ok(
                    Some(
                        token_between(
                            old(self).clusters(),
                            old(self).source(),
                            TokenKind::SingleLineComment,
                            old(self).start_index(),
                            final(self).current_index(),
                        ),
                    ),
                ),
            ),
    {
        self.consume_run(ClusterClass::WithinLine);
        Ok(self.new_token(TokenKind::SingleLineComment))
    }

    /// Scans an identifier whose first cluster the scan has just passed.
    /// `echo` is a keyword; any other identifier is a diagnostic.
    fn create_reserved_or_identifier_token(&mut self) -> (result: LexerResult<Option<Token>>)
        requires
            old(self).well_formed(),
            old(self).current_index() == old(self).start_index() + 1,
        ensures
            final(self).same_source(old(self)),
            final(self).current_index() >= old(self).current_index(),
            delivers(
                result,
                scan_outcome(
                    scan_identifier(old(self).clusters(), old(self).start_index()),
                    old(self).clusters(),
                    old(self).source(),
                    old(self).start_index(),
                ),
            ),
            result is Ok ==> final(self).well_formed() && final(self).current_index() == scan_end(
                scan_identifier(old(self).clusters(), old(self).start_index()),
                old(self).current_index(),
            ),
    {
        self.consume_run(ClusterClass::IdentifierContinue);
        let lexeme = self.text_of(self.start.char_index, self.current.char_index);
        if text_equals(lexeme.as_str(), "echo") {
            Ok(self.new_token(TokenKind::Echo))
        } else {
            let mut args: Vec<MessageArg> = Vec::new();
            args.push(MessageArg::text("feature", "identifier".to_string()));
            let message = Message::entry("lexer-error-unimplemented-feature", args);
            proof {
                assert(message_args_view(args@) =~= unimplemented_identifier_message()->Entry_args);
            }
            Err(
                self.failure(
                    LexerErrorCode::UnimplementedFeature,
                    message,
                    Location::Span(Span::new(self.start, self.current)),
                ),
            )
        }
    }

    /// Scans a run of spaces or tabs whose first cluster the scan has
    /// just passed. It is a token only where it indents a line.
    fn create_indentation_token(&mut self, class: ClusterClass, kind: TokenKind) -> (result:
        LexerResult<Option<Token>>)
        requires
            old(self).well_formed(),
            old(self).current_index() == old(self).start_index() + 1,
        ensures
            final(self).same_source(old(self)),
            final(self).well_formed(),
            final(self).current_index() >= old(self).current_index(),
            delivers(
                result,
                scan_outcome(
                    scan_indentation(old(self).clusters(), old(self).start_index(), class, kind),
                    old(self).clusters(),
                    old(self).source(),
                    old(self).start_index(),
                ),
            ),
            final(self).current_index() == scan_end(
                scan_indentation(old(self).clusters(), old(self).start_index(), class, kind),
                old(self).current_index(),
            ),
    {
        self.consume_run(class);
        proof {
            lemma_position_exact(self.clusters(), self.start_index());
        }
        if self.start.column == 1 && self.nth_in(0, ClusterClass::WithinLine) {
            Ok(self.new_token(kind))
        } else {
            Ok(None)
        }
    }

    /// Scans the next token: passes over skipable white space, then
    /// reads one token, or nothing where the text makes none.
    fn scan_token(&mut self) -> (result: LexerResult<Option<Token>>)
        requires
            old(self).well_formed(),
            old(self).current_index() < old(self).clusters().len(),
        ensures
            final(self).same_source(old(self)),
            delivers(
                result,
                scan_outcome(
                    scan_step(old(self).clusters(), old(self).current_index()),
                    old(self).clusters(),
                    old(self).source(),
                    token_start(old(self).clusters(), old(self).current_index()),
                ),
            ),
            result is Ok ==> final(self).well_formed() && final(self).current_index() == scan_end(
                scan_step(old(self).clusters(), old(self).current_index()),
                old(self).current_index(),
            ) && final(self).current_index() > old(self).current_index(),
    {
        self.skip_skipable();
        self.start = self.current;
        if self.is_eoi() {
            return Ok(None);
        }
        self.advance();
        let first = self.start.char_index;
        if self.graphemes[first].identifier_start {
            return self.create_reserved_or_identifier_token();
        }
        if digit_text(self.graphemes[first].text.as_str(), NumberBase::Decimal) {
            return self.create_number_token();
        }
        let c = self.graphemes[first].text.as_str();
        if text_equals(c, "+") {
            Ok(self.new_token(TokenKind::Add))
        } else if text_equals(c, "-") {
            Ok(self.new_token(TokenKind::SubtractOrNegate))
        } else if text_equals(c, "*") {
            if self.match_and_consume("*") {
                Ok(self.new_token(TokenKind::Exponent))
            } else {
                Ok(self.new_token(TokenKind::Multiply))
            }
        } else if text_equals(c, "/") {
            if self.match_and_consume("/") {
                self.create_single_line_comment_token()
            } else {
                Ok(self.new_token(TokenKind::Divide))
            }
        } else if text_equals(c, "%") {
            Ok(self.new_token(TokenKind::Modulo))
        } else if text_equals(c, "(") {
            Ok(self.new_token(TokenKind::LeftParen))
        } else if text_equals(c, ")") {
            Ok(self.new_token(TokenKind::RightParen))
        } else if text_equals(c, ";") {
            Ok(self.new_token(TokenKind::SemiColon))
        } else if text_equals(c, ":") {
            Ok(self.new_token(TokenKind::Colon))
        } else if text_equals(c, " ") {
            self.create_indentation_token(ClusterClass::Space, TokenKind::Whitespace)
        } else if text_equals(c, "\t") {
            self.create_indentation_token(ClusterClass::Tab, TokenKind::Tab)
        } else if newline_text(c) {
            Ok(self.new_token(TokenKind::NewLine))
        } else {
            let mut args: Vec<MessageArg> = Vec::new();
            args.push(MessageArg::text("character", json_quote(c)));
            let message = Message::entry("lexer-error-unexpected-character", args);
            proof {
                assert(message_args_view(args@) =~= unexpected_character_message(
                    c@,
                )->Entry_args);
            }
            Err(
                self.failure(
                    LexerErrorCode::UnexpectedCharacter,
                    message,
                    Location::Position(self.start),
                ),
            )
        }
    }


    /// Scans the whole source from the current position on.
    fn tokenize_internal(&mut self) -> (result: LexerResult<Vec<Token>>)
        requires
            old(self).well_formed(),
        ensures
            match result {
                Ok(tokens) => tokens_from(
                    old(self).clusters(),
                    old(self).source(),
                    old(self).current_index(),
                ) == Ok::<Seq<TokenView>, LexerErrorView>(tokens.deep_view()),
                Err(error) => tokens_from(
                    old(self).clusters(),
                    old(self).source(),
                    old(self).current_index(),
                ) == Err::<Seq<TokenView>, LexerErrorView>(error.deep_view()),
            },
    {
        let ghost clusters = self.clusters();
        let ghost source = self.source();
        let ghost goal = tokens_from(clusters, source, self.current_index());
        let mut tokens: Vec<Token> = Vec::new();
        while !self.is_eoi()
            invariant
                self.well_formed(),
                self.clusters() == clusters,
                self.source() == source,
                clusters == old(self).clusters(),
                source == old(self).source(),
                goal == tokens_from(clusters, source, old(self).current_index()),
                match tokens_from(clusters, source, self.current_index()) {
                    Ok(rest) => goal == Ok::<Seq<TokenView>, LexerErrorView>(
                        tokens.deep_view() + rest,
                    ),
                    Err(error) => goal == Err::<Seq<TokenView>, LexerErrorView>(error),
                },
            decreases self.clusters().len() - self.current_index(),
        {
            let ghost before = tokens.deep_view();
            let ghost index = self.current_index();
            let ghost step = scan_step(clusters, index);
            match self.scan_token() {
                Ok(Some(token)) => {
                    tokens.push(token);
                    proof {
                        assert(tokens.deep_view() =~= before.push(token.deep_view()));
                        assert(forall|rest: Seq<TokenView>|
                            before + (seq![token.deep_view()] + rest) =~= before.push(
                                token.deep_view(),
                            ) + rest);
                    }
                },
                Ok(None) => {},
                Err(error) => {
                    proof {
                        assert(step is Failure);
                        assert(tokens_from(clusters, source, index) == Err::<
                            Seq<TokenView>,
                            LexerErrorView,
                        >(error.deep_view()));
                    }
                    return Err(error);
                },
            }
        }
        self.start = self.current;
        match self.new_token(TokenKind::EndOfInput) {
            Some(token) => {
                let ghost before = tokens.deep_view();
                tokens.push(token);
                proof {
                    assert(tokens.deep_view() =~= before + seq![token.deep_view()]);
                }
            },
            None => {},
        }
        Ok(tokens)
    }

    /// The tokens of clusters that were segmented already, ending with
    /// the end of input, or the first diagnostic. The tokens stand in the
    /// source in order, and what they leave out is blank: with the text
    /// between them they are the text of the clusters, and without it
    /// where no cluster is blank.
    pub fn tokenize_clusters(source_id: String, clusters: Vec<Cluster>) -> (result: LexerResult<
        Vec<Token>,
    >)
        requires
            scannable(clusters.deep_view()),
        ensures
            match result {
                Ok(tokens) => tokens_of(clusters.deep_view(), source_id@) == Ok::<
                    Seq<TokenView>,
                    LexerErrorView,
                >(tokens.deep_view()),
                Err(error) => tokens_of(clusters.deep_view(), source_id@) == Err::<
                    Seq<TokenView>,
                    LexerErrorView,
                >(error.deep_view()),
            },
            result matches Ok(tokens) ==> ({
                let source = clusters.deep_view();
                let text = concat_all(texts_of(source));
                &&& in_order(tokens.deep_view(), source, 0)
                &&& gaps_are_blank(tokens.deep_view(), source, 0)
                &&& lexemes_and_gaps(tokens.deep_view(), source, 0) == text
                &&& (forall|i: int| 0 <= i < source.len() ==> !is_blank(#[trigger] source[i]))
                    ==> lexemes_in_a_row(tokens.deep_view()) == text
            }),
    {
        let ghost source = clusters.deep_view();
        let mut lexer = Lexer::from_clusters(source_id, clusters);
        let result = lexer.tokenize_internal();
        proof {
            if result is Ok {
                lemma_tokens_and_blanks(source, source_id@);
                if forall|i: int| 0 <= i < source.len() ==> !is_blank(#[trigger] source[i]) {
                    lemma_round_trip_without_blanks(source, source_id@);
                }
            }
        }
        result
    }

    /// The tokens of a source, ending with the end of input, or the
    /// first diagnostic. The source is cut into extended grapheme
    /// clusters, and the clusters are scanned from the first on. The
    /// tokens stand in the source in order, and what they leave out is
    /// blank: with the text between them they are the source, and
    /// without it where the source has no blank cluster.
    pub fn tokenize(source_id: String, source_code: String) -> (result: LexerResult<Vec<Token>>)
        requires
            byte_len(source_code@) < usize::MAX,
        ensures
            scannable(clusters_of(source_code@)),
            concat_all(texts_of(clusters_of(source_code@))) == source_code@,
            match result {
                Ok(tokens) => tokens_of(clusters_of(source_code@), source_id@) == Ok::<
                    Seq<TokenView>,
                    LexerErrorView,
                >(tokens.deep_view()),
                Err(error) => tokens_of(clusters_of(source_code@), source_id@) == Err::<
                    Seq<TokenView>,
                    LexerErrorView,
                >(error.deep_view()),
            },
            result matches Ok(tokens) ==> ({
                let source = clusters_of(source_code@);
                &&& in_order(tokens.deep_view(), source, 0)
                &&& gaps_are_blank(tokens.deep_view(), source, 0)
                &&& lexemes_and_gaps(tokens.deep_view(), source, 0) == source_code@
                &&& (forall|i: int| 0 <= i < source.len() ==> !is_blank(#[trigger] source[i]))
                    ==> lexemes_in_a_row(tokens.deep_view()) == source_code@
            }),
    {
        let ghost source = clusters_of(source_code@);
        let mut lexer = Lexer::new(source_id, source_code);
        let result = lexer.tokenize_internal();
        proof {
            if result is Ok {
                lemma_tokens_and_blanks(source, source_id@);
                if forall|i: int| 0 <= i < source.len() ==> !is_blank(#[trigger] source[i]) {
                    lemma_round_trip_without_blanks(source, source_id@);
                }
            }
        }
        result
    }

    /// A diagnostic at a location of this source.
    fn failure(&self, code: LexerErrorCode, message: Message, location: Location) -> (error:
        LexerError)
        ensures
            error.deep_view() == (LexerErrorView {
                code,
                message: message.deep_view(),
                hint: None,
                location,
                source_id: self.source(),
            }),
    {
        LexerError { code, message, hint: None, location, source_id: self.source_id.clone() }
    }
}

} // verus!
