//! Facts about the lexer's model.

use crate::lexer::model::{
    cluster_in, column_at, end_of_input, exponent_end, fraction_end, in_class, is_skipable_text,
    line_at, number_base, number_parts, offset_at, position_at, run_end, scan_at, scan_end,
    scan_step, scannable, suffix_end, text_between, texts_of, token_between, token_start,
    tokens_from, tokens_of, ClusterClass, ClusterView, LexerErrorView, Scan,
};
use crate::token::{NumberBase, TokenKind, TokenView};
use vstd::utf8::encode_utf8;
use crate::text::{byte_len, lemma_encode_concat};
use crate::unicode::concat_all;
use vstd::prelude::*;

verus! {

/// A run ends at or behind its beginning and within the source; every
/// cluster of the run belongs to the class, and the cluster behind the
/// run does not.
pub proof fn lemma_run_end(clusters: Seq<ClusterView>, index: int, class: ClusterClass)
    requires
        0 <= index <= clusters.len(),
    ensures
        index <= run_end(clusters, index, class) <= clusters.len(),
        forall|i: int|
            index <= i < run_end(clusters, index, class) ==> in_class(
                #[trigger] clusters[i],
                class,
            ),
        !cluster_in(clusters, run_end(clusters, index, class), class),
    decreases clusters.len() - index,
{
    if cluster_in(clusters, index, class) {
        lemma_run_end(clusters, index + 1, class);
    }
}

/// The bytes before a position grow with the position.
pub proof fn lemma_offset_monotone(clusters: Seq<ClusterView>, first: int, second: int)
    requires
        0 <= first <= second,
    ensures
        0 <= offset_at(clusters, first) <= offset_at(clusters, second),
    decreases second,
{
    if first < second {
        lemma_offset_monotone(clusters, first, second - 1);
    } else if second > 0 {
        lemma_offset_monotone(clusters, 0, second - 1);
    }
}

/// Lines and columns count from one and grow by at most one per
/// cluster; every cluster takes at least one byte.
pub proof fn lemma_position_bounds(clusters: Seq<ClusterView>, index: int)
    requires
        0 <= index <= clusters.len(),
        forall|i: int| 0 <= i < clusters.len() ==> (#[trigger] clusters[i]).text.len() > 0,
    ensures
        1 <= line_at(clusters, index) <= index + 1,
        1 <= column_at(clusters, index) <= index + 1,
        index <= offset_at(clusters, index) <= offset_at(clusters, clusters.len() as int),
    decreases index,
{
    lemma_offset_monotone(clusters, index, clusters.len() as int);
    if index > 0 {
        lemma_position_bounds(clusters, index - 1);
        assert(byte_len(clusters[index - 1].text) > 0);
    }
}

/// The coordinates of a position within scannable clusters fit in
/// `usize`, so the position holds them exactly.
pub proof fn lemma_position_exact(clusters: Seq<ClusterView>, index: int)
    requires
        0 <= index <= clusters.len(),
        scannable(clusters),
    ensures
        position_at(clusters, index).line == line_at(clusters, index),
        position_at(clusters, index).column == column_at(clusters, index),
        position_at(clusters, index).char_index == index,
        position_at(clusters, index).offset == offset_at(clusters, index),
        index < usize::MAX,
{
    lemma_position_bounds(clusters, index);
}

/// The text of all clusters is the text between the first and the last.
pub proof fn lemma_text_of_all(clusters: Seq<ClusterView>)
    ensures
        text_between(clusters, 0, clusters.len() as int) == concat_all(texts_of(clusters)),
    decreases clusters.len(),
{
    if clusters.len() > 0 {
        let front = clusters.drop_last();
        lemma_text_of_all(front);
        lemma_text_between_prefix(clusters, front, 0, front.len() as int);
        assert(texts_of(clusters).drop_last() =~= texts_of(front));
    }
}

/// The text between two indices depends only on the clusters before the
/// second.
pub proof fn lemma_text_between_prefix(
    clusters: Seq<ClusterView>,
    front: Seq<ClusterView>,
    start: int,
    end: int,
)
    requires
        0 <= start,
        end <= front.len() <= clusters.len(),
        forall|i: int| 0 <= i < front.len() ==> front[i] == clusters[i],
    ensures
        text_between(clusters, start, end) == text_between(front, start, end),
    decreases end - start,
{
    if end > start {
        lemma_text_between_prefix(clusters, front, start, end - 1);
    }
}

/// The offset of a position is the number of bytes of the text before it.
pub proof fn lemma_offset_is_byte_len(clusters: Seq<ClusterView>, index: int)
    requires
        0 <= index <= clusters.len(),
    ensures
        offset_at(clusters, index) == byte_len(text_between(clusters, 0, index)),
    decreases index,
{
    if index > 0 {
        lemma_offset_is_byte_len(clusters, index - 1);
        lemma_encode_concat(text_between(clusters, 0, index - 1), clusters[index - 1].text);
    }
}

/// Clusters that segment a text of fewer bytes than the largest `usize`,
/// none of them empty, can be scanned.
pub proof fn lemma_segmentation_scannable(clusters: Seq<ClusterView>, text: Seq<char>)
    requires
        concat_all(texts_of(clusters)) == text,
        forall|i: int| 0 <= i < clusters.len() ==> (#[trigger] clusters[i]).text.len() > 0,
        byte_len(text) < usize::MAX,
    ensures
        scannable(clusters),
{
    lemma_text_of_all(clusters);
    lemma_offset_is_byte_len(clusters, clusters.len() as int);
}

/// A number literal ends at or behind the place where its digits begin,
/// and within the source.
pub proof fn lemma_number_end(clusters: Seq<ClusterView>, digits: int, base: NumberBase)
    requires
        0 <= digits <= clusters.len(),
    ensures
        digits <= number_parts(clusters, digits, base).body_end <= number_parts(
            clusters,
            digits,
            base,
        ).end <= clusters.len(),
{
    let digit = ClusterClass::Digit(base);
    let int_end = run_end(clusters, digits, digit);
    lemma_run_end(clusters, digits, digit);
    let fraction_end = fraction_end(clusters, int_end, base);
    if fraction_end != int_end {
        lemma_run_end(clusters, int_end + 1, digit);
    }
    let body_end = exponent_end(clusters, fraction_end, base);
    if body_end != fraction_end {
        if body_end == run_end(clusters, fraction_end + 2, digit) && fraction_end + 2
            <= clusters.len() {
            lemma_run_end(clusters, fraction_end + 2, digit);
        }
        if fraction_end + 1 <= clusters.len() {
            lemma_run_end(clusters, fraction_end + 1, digit);
        }
    }
    if suffix_end(clusters, body_end) != body_end {
        lemma_run_end(clusters, body_end + 1, ClusterClass::Digit(NumberBase::Decimal));
    }
}

/// Every step of the lexer that does not fail passes at least one
/// cluster and stays within the source.
pub proof fn lemma_scan_progress(clusters: Seq<ClusterView>, index: int)
    requires
        0 <= index < clusters.len(),
    ensures
        index <= token_start(clusters, index) <= clusters.len(),
        !(scan_step(clusters, index) is Failure) ==> index < scan_end(
            scan_step(clusters, index),
            index,
        ) <= clusters.len() && token_start(clusters, index) <= scan_end(
            scan_step(clusters, index),
            index,
        ),
{
    lemma_run_end(clusters, index, ClusterClass::Skipable);
    let start = token_start(clusters, index);
    if start < clusters.len() {
        lemma_run_end(clusters, start + 1, ClusterClass::IdentifierContinue);
        lemma_run_end(clusters, start + 1, ClusterClass::Space);
        lemma_run_end(clusters, start + 1, ClusterClass::Tab);
        if start + 2 <= clusters.len() {
            lemma_run_end(clusters, start + 2, ClusterClass::WithinLine);
        }
        let (base, digits) = number_base(clusters, start);
        lemma_number_end(clusters, digits, base);
    }
}

/// The texts of tokens, one after the other.
pub open spec fn lexemes_in_a_row(tokens: Seq<TokenView>) -> Seq<char>
    decreases tokens.len(),
{
    if tokens.len() == 0 {
        Seq::empty()
    } else {
        tokens.first().lexeme + lexemes_in_a_row(tokens.drop_first())
    }
}

/// Whether a token covers the clusters from `start` up to `end`: its
/// span reaches from the one position to the other, and its text is the
/// text between them.
pub open spec fn covers(token: TokenView, clusters: Seq<ClusterView>, start: int, end: int) -> bool {
    token.span == crate::lexer::model::span_between(clusters, start, end) && token.lexeme
        == text_between(clusters, start, end)
}

/// Whether tokens stand in the source in order from `from` on: each
/// covers clusters behind those of the token before it, and the last is
/// the end of input, which covers nothing at the end of the source.
pub open spec fn in_order(tokens: Seq<TokenView>, clusters: Seq<ClusterView>, from: int) -> bool
    decreases tokens.len(),
{
    if tokens.len() == 0 {
        false
    } else {
        let token = tokens.first();
        let start = token.span.start.char_index as int;
        let end = token.span.end.char_index as int;
        &&& from <= start <= end <= clusters.len()
        &&& covers(token, clusters, start, end)
        &&& if tokens.len() == 1 {
            token.kind == TokenKind::EndOfInput && start == clusters.len()
        } else {
            token.kind != TokenKind::EndOfInput && start < end && in_order(
                tokens.drop_first(),
                clusters,
                end,
            )
        }
    }
}

/// The tokens of a source stand in it in order and end with the end of
/// input; each token's text is the text that its span covers.
pub proof fn lemma_tokens_in_order(clusters: Seq<ClusterView>, source_id: Seq<char>, index: int)
    requires
        scannable(clusters),
        0 <= index <= clusters.len(),
        tokens_from(clusters, source_id, index) is Ok,
    ensures
        in_order(tokens_from(clusters, source_id, index)->Ok_0, clusters, index),
    decreases clusters.len() - index,
{
    let length = clusters.len() as int;
    if index >= length {
        lemma_position_exact(clusters, length);
    } else {
        lemma_scan_progress(clusters, index);
        let start = token_start(clusters, index);
        match scan_step(clusters, index) {
            Scan::Token { kind, end } => {
                lemma_tokens_in_order(clusters, source_id, end);
                lemma_position_exact(clusters, start);
                lemma_position_exact(clusters, end);
                let token = token_between(clusters, source_id, kind, start, end);
                let rest = tokens_from(clusters, source_id, end)->Ok_0;
                let tokens = tokens_from(clusters, source_id, index)->Ok_0;
                assert(tokens == seq![token] + rest);
                assert(tokens.drop_first() =~= rest);
                assert(tokens.first() == token);
                lemma_scanned_kind(clusters, index);
                assert(start < end) by {
                    lemma_token_not_empty(clusters, index);
                }
            },
            Scan::Nothing { end } => {
                lemma_tokens_in_order(clusters, source_id, end);
                lemma_in_order_from_earlier(
                    tokens_from(clusters, source_id, end)->Ok_0,
                    clusters,
                    index,
                    end,
                );
            },
            Scan::Failure { code, message, location } => {},
        }
    }
}

/// Tokens that stand in order from a place on stand in order from any
/// earlier place on.
pub proof fn lemma_in_order_from_earlier(
    tokens: Seq<TokenView>,
    clusters: Seq<ClusterView>,
    earlier: int,
    later: int,
)
    requires
        earlier <= later,
        in_order(tokens, clusters, later),
    ensures
        in_order(tokens, clusters, earlier),
{
}

/// No step of the lexer scans the end of input as a token.
pub proof fn lemma_scanned_kind(clusters: Seq<ClusterView>, index: int)
    requires
        0 <= index < clusters.len(),
    ensures
        scan_step(clusters, index) matches Scan::Token { kind, end } ==> kind
            != TokenKind::EndOfInput,
{
}

/// A scanned token covers one cluster at least.
pub proof fn lemma_token_not_empty(clusters: Seq<ClusterView>, index: int)
    requires
        0 <= index < clusters.len(),
    ensures
        scan_step(clusters, index) matches Scan::Token { kind, end } ==> token_start(
            clusters,
            index,
        ) < end,
{
    lemma_run_end(clusters, index, ClusterClass::Skipable);
    let start = token_start(clusters, index);
    if start < clusters.len() {
        lemma_run_end(clusters, start + 1, ClusterClass::IdentifierContinue);
        lemma_run_end(clusters, start + 1, ClusterClass::Space);
        lemma_run_end(clusters, start + 1, ClusterClass::Tab);
        if start + 2 <= clusters.len() {
            lemma_run_end(clusters, start + 2, ClusterClass::WithinLine);
        }
        let (base, digits) = number_base(clusters, start);
        lemma_number_end(clusters, digits, base);
    }
}

/// The last of the tokens of a source, and no other, is the end of
/// input.
pub proof fn lemma_end_of_input_is_last(tokens: Seq<TokenView>, clusters: Seq<ClusterView>, from: int)
    requires
        in_order(tokens, clusters, from),
    ensures
        tokens.len() > 0,
        tokens.last().kind == TokenKind::EndOfInput,
        forall|i: int| 0 <= i < tokens.len() - 1 ==> (#[trigger] tokens[i]).kind != TokenKind::EndOfInput,
    decreases tokens.len(),
{
    if tokens.len() > 1 {
        let rest = tokens.drop_first();
        lemma_end_of_input_is_last(rest, clusters, tokens.first().span.end.char_index as int);
        assert(tokens.last() == rest.last());
        assert forall|i: int| 0 <= i < tokens.len() - 1 implies (#[trigger] tokens[i]).kind
            != TokenKind::EndOfInput by {
            if i > 0 {
                assert(tokens[i] == rest[i - 1]);
            }
        }
    }
}

/// The text between two places is the text up to a place between them,
/// followed by the text from there on.
pub proof fn lemma_text_between_split(clusters: Seq<ClusterView>, start: int, middle: int, end: int)
    requires
        start <= middle <= end,
    ensures
        text_between(clusters, start, end) == text_between(clusters, start, middle) + text_between(
            clusters,
            middle,
            end,
        ),
    decreases end - middle,
{
    if middle < end {
        lemma_text_between_split(clusters, start, middle, end - 1);
        assert(text_between(clusters, start, end) =~= text_between(clusters, start, middle)
            + text_between(clusters, middle, end));
    } else {
        assert(text_between(clusters, start, end) =~= text_between(clusters, start, middle)
            + text_between(clusters, middle, end));
    }
}

/// Whether tokens leave nothing out from `from` on: the first begins
/// there, and each of the others begins where the one before it ends.
pub open spec fn gapless(tokens: Seq<TokenView>, from: int) -> bool
    decreases tokens.len(),
{
    tokens.len() > 0 ==> tokens.first().span.start.char_index == from && gapless(
        tokens.drop_first(),
        tokens.first().span.end.char_index as int,
    )
}

/// The texts of tokens that stand in order and leave nothing out are,
/// one after the other, the text from their beginning on.
pub proof fn lemma_gapless_texts(tokens: Seq<TokenView>, clusters: Seq<ClusterView>, from: int)
    requires
        in_order(tokens, clusters, from),
        gapless(tokens, from),
    ensures
        lexemes_in_a_row(tokens) == text_between(clusters, from, clusters.len() as int),
    decreases tokens.len(),
{
    let token = tokens.first();
    let end = token.span.end.char_index as int;
    if tokens.len() == 1 {
        assert(lexemes_in_a_row(tokens.drop_first()) =~= Seq::<char>::empty());
        assert(token.lexeme + Seq::<char>::empty() =~= token.lexeme);
    } else {
        lemma_gapless_texts(tokens.drop_first(), clusters, end);
        lemma_text_between_split(clusters, from, end, clusters.len() as int);
    }
}

/// Round trip: where the tokens of a source leave nothing out, their
/// texts one after the other are the source. (Spaces and tabs that do
/// not indent a line, and other white space outside tokens, are left
/// out; a source that has them does not come back.)
pub proof fn lemma_round_trip(clusters: Seq<ClusterView>, source_id: Seq<char>)
    requires
        scannable(clusters),
        tokens_of(clusters, source_id) is Ok,
        gapless(tokens_of(clusters, source_id)->Ok_0, 0),
    ensures
        lexemes_in_a_row(tokens_of(clusters, source_id)->Ok_0) == concat_all(texts_of(clusters)),
{
    lemma_tokens_in_order(clusters, source_id, 0);
    lemma_gapless_texts(tokens_of(clusters, source_id)->Ok_0, clusters, 0);
    lemma_text_of_all(clusters);
}

/// White space that can stand outside the tokens: a space, a tab, a
/// vertical tab, a form feed or a carriage return that no line feed
/// follows.
pub open spec fn is_blank(cluster: ClusterView) -> bool {
    cluster.text == " "@ || cluster.text == "\t"@ || is_skipable_text(cluster.text)
}

/// Whether the clusters from `start` up to `end` are all blank.
pub open spec fn blank_between(clusters: Seq<ClusterView>, start: int, end: int) -> bool {
    forall|i: int| start <= i < end ==> is_blank(#[trigger] clusters[i])
}

/// Whether what tokens leave out from `from` on is blank: the clusters
/// before the first token, and those between each token and the next.
pub open spec fn gaps_are_blank(tokens: Seq<TokenView>, clusters: Seq<ClusterView>, from: int) -> bool
    decreases tokens.len(),
{
    tokens.len() > 0 ==> blank_between(clusters, from, tokens.first().span.start.char_index as int)
        && gaps_are_blank(tokens.drop_first(), clusters, tokens.first().span.end.char_index as int)
}

/// The texts of tokens one after the other, each behind the text that
/// stands between it and the token before it.
pub open spec fn lexemes_and_gaps(tokens: Seq<TokenView>, clusters: Seq<ClusterView>, from: int) -> Seq<
    char,
>
    decreases tokens.len(),
{
    if tokens.len() == 0 {
        Seq::empty()
    } else {
        text_between(clusters, from, tokens.first().span.start.char_index as int)
            + tokens.first().lexeme + lexemes_and_gaps(
            tokens.drop_first(),
            clusters,
            tokens.first().span.end.char_index as int,
        )
    }
}

/// Whether a token covers the cluster at `index`.
pub open spec fn reaches(token: TokenView, index: int) -> bool {
    token.span.start.char_index <= index < token.span.end.char_index
}

/// What one step of the lexer passes over is blank: the clusters before
/// the place where its token begins, and all that it passes where it
/// scans no token.
pub proof fn lemma_step_passes_blanks(clusters: Seq<ClusterView>, index: int)
    requires
        0 <= index < clusters.len(),
    ensures
        blank_between(clusters, index, token_start(clusters, index)),
        scan_step(clusters, index) matches Scan::Nothing { end } ==> blank_between(
            clusters,
            index,
            end,
        ),
{
    lemma_run_end(clusters, index, ClusterClass::Skipable);
    let start = token_start(clusters, index);
    assert(blank_between(clusters, index, start));
    if start < clusters.len() {
        if clusters[start].text == " "@ {
            lemma_run_end(clusters, start + 1, ClusterClass::Space);
        }
        if clusters[start].text == "\t"@ {
            lemma_run_end(clusters, start + 1, ClusterClass::Tab);
        }
    }
}

/// What the lexer passes over is blank: the tokens of a source leave
/// out nothing but blank clusters.
pub proof fn lemma_gaps_are_blank(clusters: Seq<ClusterView>, source_id: Seq<char>, index: int)
    requires
        scannable(clusters),
        0 <= index <= clusters.len(),
        tokens_from(clusters, source_id, index) is Ok,
    ensures
        gaps_are_blank(tokens_from(clusters, source_id, index)->Ok_0, clusters, index),
    decreases clusters.len() - index,
{
    let length = clusters.len() as int;
    let tokens = tokens_from(clusters, source_id, index)->Ok_0;
    if index >= length {
        lemma_position_exact(clusters, length);
        assert(tokens.first() == end_of_input(clusters, source_id));
        assert(gaps_are_blank(tokens.drop_first(), clusters, length));
    } else {
        lemma_scan_progress(clusters, index);
        lemma_step_passes_blanks(clusters, index);
        let start = token_start(clusters, index);
        let step = scan_step(clusters, index);
        match step {
            Scan::Token { kind, end } => {
                lemma_gaps_are_blank(clusters, source_id, end);
                lemma_position_exact(clusters, start);
                lemma_position_exact(clusters, end);
                let rest = tokens_from(clusters, source_id, end)->Ok_0;
                assert(tokens == seq![token_between(clusters, source_id, kind, start, end)] + rest);
                assert(tokens.drop_first() =~= rest);
            },
            Scan::Nothing { end } => {
                lemma_gaps_are_blank(clusters, source_id, end);
                lemma_tokens_in_order(clusters, source_id, end);
                lemma_gaps_from_earlier(tokens, clusters, index, end);
            },
            Scan::Failure { code, message, location } => {},
        }
    }
}

/// Where the clusters between two places are blank and tokens that
/// stand in order from the later place on leave out nothing but blank
/// clusters, they leave out nothing else from the earlier place on.
pub proof fn lemma_gaps_from_earlier(
    tokens: Seq<TokenView>,
    clusters: Seq<ClusterView>,
    earlier: int,
    later: int,
)
    requires
        earlier <= later,
        blank_between(clusters, earlier, later),
        in_order(tokens, clusters, later),
        gaps_are_blank(tokens, clusters, later),
    ensures
        gaps_are_blank(tokens, clusters, earlier),
{
}

/// The source is its tokens and what stands between them: the texts of
/// tokens that stand in order, each behind the text between it and the
/// token before it, are the text from their beginning on.
pub proof fn lemma_lexemes_and_gaps(tokens: Seq<TokenView>, clusters: Seq<ClusterView>, from: int)
    requires
        in_order(tokens, clusters, from),
    ensures
        lexemes_and_gaps(tokens, clusters, from) == text_between(
            clusters,
            from,
            clusters.len() as int,
        ),
    decreases tokens.len(),
{
    let token = tokens.first();
    let start = token.span.start.char_index as int;
    let end = token.span.end.char_index as int;
    let length = clusters.len() as int;
    lemma_text_between_split(clusters, from, start, length);
    lemma_text_between_split(clusters, start, end, length);
    if tokens.len() == 1 {
        assert(lexemes_and_gaps(tokens.drop_first(), clusters, end) =~= Seq::<char>::empty());
        assert(text_between(clusters, end, length) =~= Seq::<char>::empty());
    } else {
        lemma_lexemes_and_gaps(tokens.drop_first(), clusters, end);
    }
    assert(lexemes_and_gaps(tokens, clusters, from) =~= text_between(clusters, from, start) + (
    text_between(clusters, start, end) + text_between(clusters, end, length)));
}

/// Every cluster behind `from` is blank or covered by one of the tokens
/// that stand in order from there on and leave out nothing but blank
/// clusters.
pub proof fn lemma_blank_or_covered(
    tokens: Seq<TokenView>,
    clusters: Seq<ClusterView>,
    from: int,
    index: int,
)
    requires
        in_order(tokens, clusters, from),
        gaps_are_blank(tokens, clusters, from),
        from <= index < clusters.len(),
    ensures
        is_blank(clusters[index]) || exists|k: int|
            0 <= k < tokens.len() && reaches(#[trigger] tokens[k], index),
    decreases tokens.len(),
{
    let token = tokens.first();
    let start = token.span.start.char_index as int;
    let end = token.span.end.char_index as int;
    if index < start {
    } else if index < end {
        assert(reaches(tokens[0], index));
    } else {
        let rest = tokens.drop_first();
        lemma_blank_or_covered(rest, clusters, end, index);
        if !is_blank(clusters[index]) {
            let k = choose|k: int| 0 <= k < rest.len() && reaches(#[trigger] rest[k], index);
            assert(tokens[k + 1] == rest[k]);
            assert(reaches(tokens[k + 1], index));
        }
    }
}

/// Of two tokens that stand in order, the earlier ends where the later
/// begins or before it, in clusters and in bytes: no two tokens cover
/// the same part of the source.
pub proof fn lemma_spans_in_order(
    tokens: Seq<TokenView>,
    clusters: Seq<ClusterView>,
    from: int,
    earlier: int,
    later: int,
)
    requires
        scannable(clusters),
        0 <= from,
        in_order(tokens, clusters, from),
        0 <= earlier < later < tokens.len(),
    ensures
        tokens[earlier].span.end.char_index <= tokens[later].span.start.char_index,
        tokens[earlier].span.end.offset <= tokens[later].span.start.offset,
    decreases earlier,
{
    let rest = tokens.drop_first();
    let end = tokens.first().span.end.char_index as int;
    assert(rest[later - 1] == tokens[later]);
    if earlier == 0 {
        lemma_in_order_at(rest, clusters, end, later - 1);
        let start = tokens[later].span.start.char_index as int;
        lemma_position_exact(clusters, end);
        lemma_position_exact(clusters, start);
        lemma_offset_monotone(clusters, end, start);
    } else {
        assert(rest[earlier - 1] == tokens[earlier]);
        lemma_spans_in_order(rest, clusters, end, earlier - 1, later - 1);
    }
}

/// Tokens that stand in order in a source without blank clusters, and
/// leave out nothing but blank clusters, leave nothing out.
pub proof fn lemma_no_blanks_no_gaps(tokens: Seq<TokenView>, clusters: Seq<ClusterView>, from: int)
    requires
        in_order(tokens, clusters, from),
        gaps_are_blank(tokens, clusters, from),
        forall|i: int| 0 <= i < clusters.len() ==> !is_blank(#[trigger] clusters[i]),
        0 <= from,
    ensures
        gapless(tokens, from),
    decreases tokens.len(),
{
    let start = tokens.first().span.start.char_index as int;
    let end = tokens.first().span.end.char_index as int;
    if from < start {
        assert(is_blank(clusters[from]));
    }
    if tokens.len() > 1 {
        lemma_no_blanks_no_gaps(tokens.drop_first(), clusters, end);
    } else {
        assert(gapless(tokens.drop_first(), end));
    }
}

/// What the tokens of a source say of it: they stand in it in order; what
/// they leave out is blank; and their texts, each behind the text that
/// it leaves out before it, are the source.
pub proof fn lemma_tokens_and_blanks(clusters: Seq<ClusterView>, source_id: Seq<char>)
    requires
        scannable(clusters),
        tokens_of(clusters, source_id) is Ok,
    ensures
        in_order(tokens_of(clusters, source_id)->Ok_0, clusters, 0),
        gaps_are_blank(tokens_of(clusters, source_id)->Ok_0, clusters, 0),
        lexemes_and_gaps(tokens_of(clusters, source_id)->Ok_0, clusters, 0) == concat_all(
            texts_of(clusters),
        ),
{
    lemma_tokens_in_order(clusters, source_id, 0);
    lemma_gaps_are_blank(clusters, source_id, 0);
    lemma_lexemes_and_gaps(tokens_of(clusters, source_id)->Ok_0, clusters, 0);
    lemma_text_of_all(clusters);
}

/// Round trip: the texts of the tokens of a source without blank
/// clusters are, one after the other, the source.
pub proof fn lemma_round_trip_without_blanks(clusters: Seq<ClusterView>, source_id: Seq<char>)
    requires
        scannable(clusters),
        tokens_of(clusters, source_id) is Ok,
        forall|i: int| 0 <= i < clusters.len() ==> !is_blank(#[trigger] clusters[i]),
    ensures
        gapless(tokens_of(clusters, source_id)->Ok_0, 0),
        lexemes_in_a_row(tokens_of(clusters, source_id)->Ok_0) == concat_all(texts_of(clusters)),
{
    lemma_tokens_in_order(clusters, source_id, 0);
    lemma_gaps_are_blank(clusters, source_id, 0);
    lemma_no_blanks_no_gaps(tokens_of(clusters, source_id)->Ok_0, clusters, 0);
    lemma_round_trip(clusters, source_id);
}

/// The bytes that a span covers are the bytes of the text between its
/// ends: the offsets of positions cut the UTF-8 form of the source where
/// the clusters begin.
pub proof fn lemma_covered_bytes(clusters: Seq<ClusterView>, start: int, end: int)
    requires
        0 <= start <= end <= clusters.len(),
    ensures
        offset_at(clusters, start) <= offset_at(clusters, end) <= encode_utf8(
            concat_all(texts_of(clusters)),
        ).len(),
        encode_utf8(concat_all(texts_of(clusters))).subrange(
            offset_at(clusters, start),
            offset_at(clusters, end),
        ) == encode_utf8(text_between(clusters, start, end)),
{
    let length = clusters.len() as int;
    lemma_text_of_all(clusters);
    lemma_text_between_split(clusters, 0, start, end);
    lemma_text_between_split(clusters, 0, end, length);
    lemma_offset_is_byte_len(clusters, start);
    lemma_offset_is_byte_len(clusters, end);
    let before = text_between(clusters, 0, start);
    let covered = text_between(clusters, start, end);
    let behind = text_between(clusters, end, length);
    lemma_encode_concat(before, covered);
    lemma_encode_concat(before + covered, behind);
    assert(encode_utf8(concat_all(texts_of(clusters))).subrange(
        offset_at(clusters, start),
        offset_at(clusters, end),
    ) =~= encode_utf8(covered));
}

/// Each of the tokens that stand in order covers clusters of the
/// source between its two positions.
pub proof fn lemma_in_order_at(
    tokens: Seq<TokenView>,
    clusters: Seq<ClusterView>,
    from: int,
    index: int,
)
    requires
        in_order(tokens, clusters, from),
        0 <= index < tokens.len(),
    ensures
        from <= tokens[index].span.start.char_index <= tokens[index].span.end.char_index
            <= clusters.len(),
        covers(
            tokens[index],
            clusters,
            tokens[index].span.start.char_index as int,
            tokens[index].span.end.char_index as int,
        ),
    decreases index,
{
    if index > 0 {
        let rest = tokens.drop_first();
        lemma_in_order_at(rest, clusters, tokens.first().span.end.char_index as int, index - 1);
        assert(rest[index - 1] == tokens[index]);
    }
}

/// The text of every token of a source is the part of the source that
/// its span covers, byte for byte: the span's offsets cut the UTF-8 form
/// of the source, the start not behind the end, and what lies between
/// them is the UTF-8 form of the token's text.
pub proof fn lemma_lexeme_is_covered_source(
    clusters: Seq<ClusterView>,
    source_id: Seq<char>,
    index: int,
)
    requires
        scannable(clusters),
        tokens_of(clusters, source_id) is Ok,
        0 <= index < tokens_of(clusters, source_id)->Ok_0.len(),
    ensures
        ({
            let token = tokens_of(clusters, source_id)->Ok_0[index];
            let source = encode_utf8(concat_all(texts_of(clusters)));
            &&& token.span.start.offset <= token.span.end.offset <= source.len()
            &&& source.subrange(token.span.start.offset as int, token.span.end.offset as int)
                == encode_utf8(token.lexeme)
            &&& token.source_id == source_id
        }),
{
    let tokens = tokens_of(clusters, source_id)->Ok_0;
    lemma_tokens_in_order(clusters, source_id, 0);
    lemma_in_order_at(tokens, clusters, 0, index);
    let start = tokens[index].span.start.char_index as int;
    let end = tokens[index].span.end.char_index as int;
    lemma_position_exact(clusters, start);
    lemma_position_exact(clusters, end);
    lemma_covered_bytes(clusters, start, end);
    lemma_tokens_source(clusters, source_id, 0, index);
}

/// Every token of a source names the source.
pub proof fn lemma_tokens_source(
    clusters: Seq<ClusterView>,
    source_id: Seq<char>,
    from: int,
    index: int,
)
    requires
        scannable(clusters),
        0 <= from <= clusters.len(),
        tokens_from(clusters, source_id, from) is Ok,
        0 <= index < tokens_from(clusters, source_id, from)->Ok_0.len(),
    ensures
        tokens_from(clusters, source_id, from)->Ok_0[index].source_id == source_id,
    decreases clusters.len() - from,
{
    if from < clusters.len() {
        lemma_scan_progress(clusters, from);
        match scan_step(clusters, from) {
            Scan::Token { kind, end } => {
                if index > 0 {
                    lemma_tokens_source(clusters, source_id, end, index - 1);
                }
            },
            Scan::Nothing { end } => {
                lemma_tokens_source(clusters, source_id, end, index);
            },
            Scan::Failure { code, message, location } => {},
        }
    }
}

/// The tokens of a source end with the end of input, and no other of
/// them is the end of input.
pub proof fn lemma_tokens_end_with_end_of_input(clusters: Seq<ClusterView>, source_id: Seq<char>)
    requires
        scannable(clusters),
        tokens_of(clusters, source_id) is Ok,
    ensures
        ({
            let tokens = tokens_of(clusters, source_id)->Ok_0;
            &&& tokens.len() > 0
            &&& tokens.last().kind == TokenKind::EndOfInput
            &&& forall|i: int|
                0 <= i < tokens.len() - 1 ==> (#[trigger] tokens[i]).kind != TokenKind::EndOfInput
        }),
{
    lemma_tokens_in_order(clusters, source_id, 0);
    lemma_end_of_input_is_last(tokens_of(clusters, source_id)->Ok_0, clusters, 0);
}

} // verus!
