//! Small verified helpers on strings.

use crate::unicode::{char_is_xid_continue, char_is_xid_start, xid_continue, xid_start};
use vstd::prelude::*;
use vstd::utf8::encode_utf8;

verus! {

/// Compares two texts character by character.
pub fn text_equals(left: &str, right: &str) -> (result: bool)
    ensures
        result == (left@ == right@),
{
    let n = left.unicode_len();
    if n != right.unicode_len() {
        return false;
    }
    let mut i: usize = 0;
    while i < n
        invariant
            n == left@.len(),
            n == right@.len(),
            i <= n,
            forall|j: int| 0 <= j < i ==> left@[j] == right@[j],
        decreases n - i,
    {
        if left.get_char(i) != right.get_char(i) {
            return false;
        }
        i += 1;
    }
    assert(left@ =~= right@);
    true
}

/// Whether every character of a text has `XID_Start`.
pub open spec fn all_xid_start(text: Seq<char>) -> bool {
    forall|i: int| 0 <= i < text.len() ==> xid_start(#[trigger] text[i])
}

/// Whether every character of a text has `XID_Continue`.
pub open spec fn all_xid_continue(text: Seq<char>) -> bool {
    forall|i: int| 0 <= i < text.len() ==> xid_continue(#[trigger] text[i])
}

/// Tests every character of a text for `XID_Start`.
pub fn is_identifier_start(text: &str) -> (result: bool)
    ensures
        result == all_xid_start(text@),
{
    let n = text.unicode_len();
    let mut i: usize = 0;
    while i < n
        invariant
            n == text@.len(),
            i <= n,
            forall|j: int| 0 <= j < i ==> xid_start(#[trigger] text@[j]),
        decreases n - i,
    {
        if !char_is_xid_start(text.get_char(i)) {
            return false;
        }
        i += 1;
    }
    true
}

/// Tests every character of a text for `XID_Continue`.
pub fn is_identifier_continue(text: &str) -> (result: bool)
    ensures
        result == all_xid_continue(text@),
{
    let n = text.unicode_len();
    let mut i: usize = 0;
    while i < n
        invariant
            n == text@.len(),
            i <= n,
            forall|j: int| 0 <= j < i ==> xid_continue(#[trigger] text@[j]),
        decreases n - i,
    {
        if !char_is_xid_continue(text.get_char(i)) {
            return false;
        }
        i += 1;
    }
    true
}

/// The number of bytes that a text takes in UTF-8.
pub open spec fn byte_len(text: Seq<char>) -> nat {
    encode_utf8(text).len()
}

/// The UTF-8 form of two texts in a row is the two forms in a row.
pub proof fn lemma_encode_concat(first: Seq<char>, second: Seq<char>)
    ensures
        encode_utf8(first + second) == encode_utf8(first) + encode_utf8(second),
    decreases first.len(),
{
    if first.len() == 0 {
        assert(first + second =~= second);
        assert(encode_utf8(first) + encode_utf8(second) =~= encode_utf8(second));
    } else {
        lemma_encode_concat(first.drop_first(), second);
        assert((first + second).drop_first() =~= first.drop_first() + second);
        assert((first + second)[0] == first[0]);
        assert(encode_utf8(first + second) =~= encode_utf8(first) + encode_utf8(second));
    }
}

} // verus!
