//! Text of files: lossy decoding, and joining parts with a separator.

use vstd::prelude::*;
use vstd::utf8::{
    decode_utf8, encode_utf8, encode_utf8_decode_utf8, encode_utf8_valid_utf8, valid_utf8,
};

verus! {

/// What `String::from_utf8_lossy` makes of bytes that are not UTF-8: the
/// text with U+FFFD in place of each invalid sequence.
pub uninterp spec fn utf8_replaced(bytes: Seq<u8>) -> Seq<char>;

/// The text of a file's bytes, read leniently: UTF-8 is decoded, anything
/// else comes out with replacement characters and never fails.
pub open spec fn lossy_text(bytes: Seq<u8>) -> Seq<char> {
    if valid_utf8(bytes) {
        decode_utf8(bytes)
    } else {
        utf8_replaced(bytes)
    }
}

/// Decodes a file's bytes leniently, with `String::from_utf8_lossy` of std.
/// Taken on trust from its documentation: valid UTF-8 is decoded as it
/// stands, and the outcome for other bytes depends on the bytes alone.
#[verifier::external_body]
pub(crate) fn decode_lossy(bytes: &[u8]) -> (text: String)
    ensures
        valid_utf8(bytes@) ==> text@ == decode_utf8(bytes@),
        !valid_utf8(bytes@) ==> text@ == utf8_replaced(bytes@),
{
    String::from_utf8_lossy(bytes).into_owned()
}

/// Text that was written as UTF-8 reads back unchanged.
pub proof fn lemma_lossy_text_of_encoded(text: Seq<char>)
    ensures
        lossy_text(encode_utf8(text)) == text,
{
    encode_utf8_valid_utf8(text);
    encode_utf8_decode_utf8(text);
}

/// The parts in order, with the separator between neighbours.
pub open spec fn joined(parts: Seq<Seq<char>>, separator: Seq<char>) -> Seq<char>
    decreases parts.len(),
{
    if parts.len() == 0 {
        Seq::empty()
    } else if parts.len() == 1 {
        parts[0]
    } else {
        joined(parts.drop_last(), separator) + separator + parts.last()
    }
}

/// Whether `part` stands somewhere in `text`, unbroken.
pub open spec fn occurs_in(part: Seq<char>, text: Seq<char>) -> bool {
    exists|i: int|
        0 <= i && i + part.len() <= text.len() && #[trigger] text.subrange(i, i + part.len())
            == part
}

/// Joins the parts with the separator between neighbours.
pub fn join(parts: &Vec<String>, separator: &str) -> (text: String)
    ensures
        text@ == joined(parts.deep_view(), separator@),
{
    let mut text = String::new();
    let ghost all = parts.deep_view();
    let mut i: usize = 0;
    while i < parts.len()
        invariant
            i <= parts.len(),
            all == parts.deep_view(),
            text@ == joined(all.subrange(0, i as int), separator@),
        decreases parts.len() - i,
    {
        let ghost before = all.subrange(0, i as int);
        let ghost after = all.subrange(0, i + 1);
        assert(after.drop_last() =~= before);
        assert(after.last() == parts@[i as int]@);
        if i > 0 {
            text.append(separator);
        }
        text.append(parts[i].as_str());
        assert(text@ =~= joined(after, separator@));
        i += 1;
    }
    assert(all.subrange(0, i as int) =~= all);
    text
}

/// Text holds whatever it ends with.
proof fn lemma_occurs_at_end(part: Seq<char>, before: Seq<char>)
    ensures
        occurs_in(part, before + part),
{
    let text = before + part;
    let i = before.len() as int;
    assert(text.subrange(i, i + part.len()) =~= part);
}

/// What stands in a text stands in every extension of it.
proof fn lemma_occurs_in_longer(part: Seq<char>, text: Seq<char>, more: Seq<char>)
    requires
        occurs_in(part, text),
    ensures
        occurs_in(part, text + more),
{
    let i = choose|i: int|
        0 <= i && i + part.len() <= text.len() && #[trigger] text.subrange(i, i + part.len())
            == part;
    assert((text + more).subrange(i, i + part.len()) =~= text.subrange(i, i + part.len()));
}

/// Every part stands unbroken in the joined text.
pub proof fn lemma_joined_holds_each_part(parts: Seq<Seq<char>>, separator: Seq<char>, k: int)
    requires
        0 <= k < parts.len(),
    ensures
        occurs_in(parts[k], joined(parts, separator)),
    decreases parts.len(),
{
    if parts.len() == 1 {
        lemma_occurs_at_end(parts[0], Seq::empty());
        assert(Seq::<char>::empty() + parts[0] =~= parts[0]);
    } else if k == parts.len() - 1 {
        lemma_occurs_at_end(parts.last(), joined(parts.drop_last(), separator) + separator);
    } else {
        lemma_joined_holds_each_part(parts.drop_last(), separator, k);
        lemma_occurs_in_longer(
            parts[k],
            joined(parts.drop_last(), separator),
            separator + parts.last(),
        );
        assert(joined(parts.drop_last(), separator) + (separator + parts.last()) =~= joined(
            parts,
            separator,
        ));
    }
}

} // verus!
