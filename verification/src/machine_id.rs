//! Machine identifiers and their textual form.

use vstd::prelude::*;

verus! {

/// The identity of one host installation: 128 bits, chosen by the caller and
/// never generated here.
#[derive(Clone, Copy, Debug, PartialEq, Eq, Hash, Structural)]
pub struct MachineId {
    pub value: u128,
}

/// The `k`-th hexadecimal digit of `value`, counted from the most significant.
pub open spec fn nibble(value: u128, k: int) -> u128
    recommends
        0 <= k < 32,
{
    (value >> ((4 * (31 - k)) as u128)) & 0xf
}

/// The lower-case hexadecimal character of a digit below sixteen.
pub open spec fn hex_char(digit: u128) -> char
    recommends
        digit < 16,
{
    if digit < 10 {
        ((48 + digit) as u8) as char
    } else {
        ((87 + digit) as u8) as char
    }
}

/// Which digit stands at position `i` of the hyphenated form, for a position
/// that holds no hyphen.
pub open spec fn digit_index(i: int) -> int {
    if i < 8 {
        i
    } else if i < 13 {
        i - 1
    } else if i < 18 {
        i - 2
    } else if i < 23 {
        i - 3
    } else {
        i - 4
    }
}

/// Whether position `i` of the hyphenated form holds a hyphen.
pub open spec fn is_hyphen_position(i: int) -> bool {
    i == 8 || i == 13 || i == 18 || i == 23
}

/// The character at position `i` of the hyphenated form of `value`.
pub open spec fn hyphenated_char(value: u128, i: int) -> char {
    if is_hyphen_position(i) {
        '-'
    } else {
        hex_char(nibble(value, digit_index(i)))
    }
}

/// The hyphenated form of a 128-bit identifier: thirty-two lower-case
/// hexadecimal digits, most significant first, in groups of 8, 4, 4, 4 and 12
/// with a hyphen between neighbouring groups.
pub open spec fn hyphenated(value: u128) -> Seq<char> {
    Seq::new(36, |i: int| hyphenated_char(value, i))
}

/// Formats the identifier with `uuid::Uuid`'s `Display`, after
/// `Uuid::from_u128`. Taken on trust from the `uuid` crate: the text is the
/// big-endian bytes of `value`, two lower-case hexadecimal digits each, with
/// hyphens at positions 8, 13, 18 and 23.
#[verifier::external_body]
pub(crate) fn hyphenated_text(value: u128) -> (text: String)
    ensures
        text@ == hyphenated(value),
{
    uuid::Uuid::from_u128(value).to_string()
}

impl MachineId {
    /// The identifier as it appears in file names.
    pub open spec fn text(self) -> Seq<char> {
        hyphenated(self.value)
    }

    pub fn new(value: u128) -> (id: MachineId)
        ensures
            id.value == value,
    {
        MachineId { value }
    }

    pub fn value(&self) -> (value: u128)
        ensures
            value == self.value,
    {
        self.value
    }
}

/// Two digits below sixteen with the same character are the same digit.
proof fn lemma_hex_char_injective(a: u128, b: u128)
    requires
        a < 16,
        b < 16,
        hex_char(a) == hex_char(b),
    ensures
        a == b,
{
    assert(hex_char(a) as u32 == if a < 10 { 48 + a } else { 87 + a });
    assert(hex_char(b) as u32 == if b < 10 { 48 + b } else { 87 + b });
}

proof fn lemma_top_digit(a: u128)
    ensures
        (a >> 124) & 0xf == a >> 124,
{
    assert((a >> 124) & 0xf == a >> 124) by (bit_vector);
}

proof fn lemma_digit_range(a: u128, s: u128)
    ensures
        (a >> s) & 0xf < 16,
{
    assert((a >> s) & 0xf < 16) by (bit_vector);
}

proof fn lemma_next_digit(a: u128, b: u128, s: u128)
    requires
        s <= 120,
        a >> ((s + 4) as u128) == b >> ((s + 4) as u128),
        (a >> s) & 0xf == (b >> s) & 0xf,
    ensures
        a >> s == b >> s,
{
    assert(a >> s == b >> s) by (bit_vector)
        requires
            s <= 120,
            a >> ((s + 4) as u128) == b >> ((s + 4) as u128),
            (a >> s) & 0xf == (b >> s) & 0xf,
    ;
}

/// Every character of the hyphenated form is a hyphen, a digit or a letter
/// from `a` to `f`; none is a `/`.
pub proof fn lemma_hyphenated_char_is_plain(value: u128, i: int)
    requires
        0 <= i < 36,
    ensures
        hyphenated(value)[i] != '/',
{
    if !is_hyphen_position(i) {
        let digit = nibble(value, digit_index(i));
        lemma_digit_range(value, (4 * (31 - digit_index(i))) as u128);
        assert(hex_char(digit) as u32 == if digit < 10 { 48 + digit } else { 87 + digit });
    }
}

/// Two values that agree in their `k` most significant digits agree in the
/// bits that those digits hold.
proof fn lemma_leading_digits(a: u128, b: u128, k: int)
    requires
        1 <= k <= 32,
        forall|j: int| 0 <= j < k ==> nibble(a, j) == nibble(b, j),
    ensures
        a >> ((4 * (32 - k)) as u128) == b >> ((4 * (32 - k)) as u128),
    decreases k,
{
    if k == 1 {
        assert(nibble(a, 0) == nibble(b, 0));
        lemma_top_digit(a);
        lemma_top_digit(b);
    } else {
        lemma_leading_digits(a, b, k - 1);
        assert(nibble(a, k - 1) == nibble(b, k - 1));
        let s = (4 * (32 - k)) as u128;
        assert((4 * (31 - (k - 1))) as u128 == s);
        assert((4 * (32 - (k - 1))) as u128 == (s + 4) as u128);
        lemma_next_digit(a, b, s);
    }
}

/// The hyphenated form tells identifiers apart: equal text, equal value.
pub proof fn law_text_tells_identifiers_apart(a: u128, b: u128)
    requires
        hyphenated(a) == hyphenated(b),
    ensures
        a == b,
{
    assert forall|j: int| 0 <= j < 32 implies nibble(a, j) == nibble(b, j) by {
        let i = if j < 8 {
            j
        } else if j < 12 {
            j + 1
        } else if j < 16 {
            j + 2
        } else if j < 20 {
            j + 3
        } else {
            j + 4
        };
        assert(digit_index(i) == j && !is_hyphen_position(i));
        assert(hyphenated(a)[i] == hex_char(nibble(a, j)));
        assert(hyphenated(b)[i] == hex_char(nibble(b, j)));
        lemma_digit_range(a, (4 * (31 - j)) as u128);
        lemma_digit_range(b, (4 * (31 - j)) as u128);
        lemma_hex_char_injective(nibble(a, j), nibble(b, j));
    }
    lemma_leading_digits(a, b, 32);
    assert(a >> 0 == a) by (bit_vector);
    assert(b >> 0 == b) by (bit_vector);
}

} // verus!
