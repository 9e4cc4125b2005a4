//! What the lexer and the diagnostics take from the Unicode and JSON
//! crates. Nothing in this file is proved: each function states what the
//! crate it calls is relied upon to do.

use unicode_segmentation::UnicodeSegmentation;
use unicode_xid::UnicodeXID;
use vstd::prelude::*;

verus! {

/// The extended grapheme clusters of a text, in order.
pub uninterp spec fn graphemes_of(text: Seq<char>) -> Seq<Seq<char>>;

/// Whether a character has the Unicode property `XID_Start`.
pub uninterp spec fn xid_start(c: char) -> bool;

/// Whether a character has the Unicode property `XID_Continue`.
pub uninterp spec fn xid_continue(c: char) -> bool;

/// The characters of all `parts`, one part after the other.
pub open spec fn concat_all(parts: Seq<Seq<char>>) -> Seq<char>
    decreases parts.len(),
{
    if parts.len() == 0 {
        Seq::empty()
    } else {
        concat_all(parts.drop_last()) + parts.last()
    }
}

/// Calls `UnicodeSegmentation::grapheme_indices` of `unicode_segmentation`
/// with extended clusters and keeps each cluster's text. The segmentation
/// itself is only named. Relied upon: the clusters are consecutive pieces
/// of the text that leave nothing out, and none of them is empty.
#[verifier::external_body]
pub(crate) fn grapheme_clusters(text: &str) -> (clusters: Vec<String>)
    ensures
        clusters.deep_view() == graphemes_of(text@),
        concat_all(clusters.deep_view()) == text@,
        forall|i: int| 0 <= i < clusters.len() ==> (#[trigger] clusters[i])@.len() > 0,
{
    UnicodeSegmentation::grapheme_indices(text, true).map(|(_, cluster)| cluster.to_owned()).collect()
}

/// Calls `UnicodeXID::is_xid_start` of `unicode_xid` on one character.
#[verifier::external_body]
pub(crate) fn char_is_xid_start(c: char) -> (result: bool)
    ensures
        result == xid_start(c),
{
    UnicodeXID::is_xid_start(c)
}

/// Calls `UnicodeXID::is_xid_continue` of `unicode_xid` on one character.
#[verifier::external_body]
pub(crate) fn char_is_xid_continue(c: char) -> (result: bool)
    ensures
        result == xid_continue(c),
{
    UnicodeXID::is_xid_continue(c)
}

/// The lower-case hexadecimal digit of a value below sixteen.
pub open spec fn hex_digit(value: u32) -> char {
    if value < 10 {
        (('0' as u32) + value) as char
    } else {
        (('a' as u32) + value - 10) as char
    }
}

/// How one character is written inside a JSON string.
pub open spec fn json_escape(c: char) -> Seq<char> {
    if c == '"' {
        seq!['\\', '"']
    } else if c == '\\' {
        seq!['\\', '\\']
    } else if c == '\u{8}' {
        seq!['\\', 'b']
    } else if c == '\t' {
        seq!['\\', 't']
    } else if c == '\n' {
        seq!['\\', 'n']
    } else if c == '\u{c}' {
        seq!['\\', 'f']
    } else if c == '\r' {
        seq!['\\', 'r']
    } else if (c as u32) < 0x20 {
        seq!['\\', 'u', '0', '0', hex_digit((c as u32) / 16), hex_digit((c as u32) % 16)]
    } else {
        seq![c]
    }
}

/// The characters of a text, each written as inside a JSON string.
pub open spec fn json_escaped(text: Seq<char>) -> Seq<char>
    decreases text.len(),
{
    if text.len() == 0 {
        Seq::empty()
    } else {
        json_escaped(text.drop_last()) + json_escape(text.last())
    }
}

/// A text as a JSON string: escaped, between double quotes.
pub open spec fn json_string(text: Seq<char>) -> Seq<char> {
    seq!['"'] + json_escaped(text) + seq!['"']
}

/// Builds a `serde_json::Value` string from the text and formats it with
/// the value's `Display`, the compact form. Relied upon: the result is
/// the text between double quotes, with `"`, `\` and the control
/// characters below U+0020 escaped as the crate's escape table has them.
#[verifier::external_body]
pub(crate) fn json_quote(text: &str) -> (quoted: String)
    ensures
        quoted@ == json_string(text@),
{
    serde_json::Value::from(text).to_string()
}

} // verus!
