//! What decimals, truncations, joined texts and orders of texts are for.
use super::{
    big_endian, decimal, digit, is_truncation, joined, lemma_decimal_is_not_empty, lemma_digit_code,
    spells_counter, text_le,
};
use vstd::prelude::*;
use vstd::utf8::encode_utf8;

verus! {

/// What a text of digits amounts to, digit by digit from the left.
pub open spec fn amounts_to(text: Seq<char>) -> int
    decreases text.len(),
{
    if text.len() == 0 {
        0
    } else {
        amounts_to(text.drop_last()) * 10 + (text.last() as int - 48)
    }
}

/// A decimal reads back as its number; it has digits only, and none of them is a leading zero.
pub proof fn law_a_decimal_reads_back(value: nat)
    ensures
        amounts_to(decimal(value)) == value,
        forall|i: int|
            0 <= i < decimal(value).len() ==> 48 <= #[trigger] decimal(value)[i] as int <= 57,
        decimal(value).len() >= 1,
        value > 0 ==> decimal(value)[0] as int != 48,
    decreases value,
{
    lemma_decimal_is_not_empty(value);
    if value < 10 {
        lemma_digit_code(value);
        let text = decimal(value);
        assert(text.drop_last() =~= Seq::empty());
        assert(amounts_to(text.drop_last()) == 0);
    } else {
        lemma_digit_code(value % 10);
        law_a_decimal_reads_back(value / 10);
        let text = decimal(value);
        let head = decimal(value / 10);
        assert(text == head + digit(value % 10));
        assert(text.drop_last() =~= head);
        assert(text.last() == digit(value % 10)[0]);
        assert forall|i: int| 0 <= i < text.len() implies 48 <= #[trigger] text[i] as int <= 57 by {
            if i < head.len() {
                assert(text[i] == head[i]);
            }
        }
        assert(text[0] == head[0]);
    }
}

/// A text that fits is not cut, and one that does not fit is cut to what does: what is kept is the
/// beginning of the text, it fits, and with one more character it would not.
pub proof fn law_a_truncation_keeps_what_fits(whole: Seq<char>, limit: nat, part: Seq<char>)
    requires
        is_truncation(whole, limit, part),
    ensures
        encode_utf8(whole).len() <= limit ==> part == whole,
        encode_utf8(part).len() <= limit,
        part.is_prefix_of(whole),
        part != whole ==> part.len() < whole.len() && encode_utf8(
            whole.take(part.len() as int + 1),
        ).len() > limit,
{
    assert(whole.take(whole.len() as int) =~= whole);
    if part.len() == whole.len() {
        assert(part =~= whole);
    }
}

/// Two lists are joined like one: with one separator between them.
pub proof fn law_lists_are_joined_with_one_separator(
    first: Seq<Seq<char>>,
    second: Seq<Seq<char>>,
    separator: Seq<char>,
)
    ensures
        joined(Seq::empty(), separator) == Seq::<char>::empty(),
        first.len() == 1 ==> joined(first, separator) == first[0],
        first.len() > 0 && second.len() > 0 ==> joined(first + second, separator) == joined(
            first,
            separator,
        ) + separator + joined(second, separator),
    decreases second.len(),
{
    if first.len() > 0 && second.len() > 0 {
        let whole = first + second;
        assert(whole.last() == second.last());
        assert(whole.drop_last() =~= first + second.drop_last());
        if second.len() == 1 {
            assert(whole.drop_last() =~= first);
            assert(second.last() == second[0]);
        } else {
            law_lists_are_joined_with_one_separator(first, second.drop_last(), separator);
            assert(joined(whole, separator) =~= joined(first, separator) + separator + (joined(
                second.drop_last(),
                separator,
            ) + separator + second.last()));
        }
    }
}

/// Texts are in the order of the first character in which they differ, and the beginning of a text comes
/// before the text.
pub proof fn law_texts_are_ordered_by_their_first_difference(
    same: Seq<char>,
    left: Seq<char>,
    right: Seq<char>,
)
    ensures
        text_le(same, same + right),
        right.len() > 0 ==> !text_le(same + right, same),
        left.len() > 0 && right.len() > 0 && left[0] != right[0] ==> text_le(
            same + left,
            same + right,
        ) == ((left[0] as int) < right[0] as int),
    decreases same.len(),
{
    if same.len() == 0 {
        assert(same + left =~= left);
        assert(same + right =~= right);
    } else {
        let rest = same.drop_first();
        assert((same + left).drop_first() =~= rest + left);
        assert((same + right).drop_first() =~= rest + right);
        law_texts_are_ordered_by_their_first_difference(rest, left, right);
    }
}

/// An identity that spells a counter is the counter in sixteen bytes, the most significant first: it is
/// zero but for what the counter needs.
pub proof fn law_a_counter_is_its_bytes(bytes: Seq<u8>, counter: u64)
    requires
        spells_counter(bytes, counter),
    ensures
        bytes.len() == 16,
        counter == bytes[15] + 0x100 * bytes[14] + 0x1_0000 * bytes[13] + 0x100_0000 * bytes[12]
            + 0x1_0000_0000 * bytes[11] + 0x100_0000_0000 * bytes[10] + 0x1_0000_0000_0000
            * bytes[9] + 0x100_0000_0000_0000 * bytes[8],
        forall|i: int| 0 <= i < 8 ==> bytes[i] == 0,
        (counter == 0) == (forall|i: int| 0 <= i < 16 ==> bytes[i] == 0),
{
    let s0 = bytes.skip(8);
    let s1 = s0.drop_last();
    let s2 = s1.drop_last();
    let s3 = s2.drop_last();
    let s4 = s3.drop_last();
    let s5 = s4.drop_last();
    let s6 = s5.drop_last();
    let s7 = s6.drop_last();
    let s8 = s7.drop_last();
    assert(big_endian(s8) == 0);
    assert(big_endian(s7) == bytes[8]);
    assert(big_endian(s6) == big_endian(s7) * 256 + bytes[9]);
    assert(big_endian(s5) == big_endian(s6) * 256 + bytes[10]);
    assert(big_endian(s4) == big_endian(s5) * 256 + bytes[11]);
    assert(big_endian(s3) == big_endian(s4) * 256 + bytes[12]);
    assert(big_endian(s2) == big_endian(s3) * 256 + bytes[13]);
    assert(big_endian(s1) == big_endian(s2) * 256 + bytes[14]);
    assert(big_endian(s0) == big_endian(s1) * 256 + bytes[15]);
    if counter == 0 {
        assert forall|i: int| 0 <= i < 16 implies bytes[i] == 0 by {}
    }
}

} // verus!
