//! Texts: decimal numbers, truncation at a byte limit, joining, and byte order.
pub mod laws;

use vstd::prelude::*;
use vstd::string::{StringExecFns, StringSliceAdditionalSpecFns};
use vstd::utf8::{
    decode_utf8, decode_utf8_split, encode_scalar, encode_utf8, encode_utf8_decode_utf8,
    encode_utf8_first_scalar, encode_utf8_valid_utf8, is_char_boundary,
    is_char_boundary_start_end_of_seq, pop_first_scalar, valid_utf8, valid_utf8_split,
};

verus! {

/// How std's `Debug` writes a text: between quotes, with what cannot stand there escaped.
pub uninterp spec fn debug_form(text: Seq<char>) -> Seq<char>;

/// `Debug` of `str`, which quotes and escapes a text. The result rests on the text alone; which
/// characters are escaped, and how, is not said here.
#[verifier::external_body]
pub(crate) fn debug_text(text: &str) -> (r: String)
    ensures
        r@ == debug_form(text@),
{
    format!("{:?}", text)
}

/// A text made of two.
pub fn join_texts(left: &str, right: &str) -> (r: String)
    ensures
        r@ == left@ + right@,
{
    left.to_owned().concat(right)
}

/// A decimal digit.
pub open spec fn digit(value: nat) -> Seq<char> {
    if value == 0 {
        "0"@
    } else if value == 1 {
        "1"@
    } else if value == 2 {
        "2"@
    } else if value == 3 {
        "3"@
    } else if value == 4 {
        "4"@
    } else if value == 5 {
        "5"@
    } else if value == 6 {
        "6"@
    } else if value == 7 {
        "7"@
    } else if value == 8 {
        "8"@
    } else {
        "9"@
    }
}

/// A number in decimal, without leading zeros.
pub open spec fn decimal(value: nat) -> Seq<char>
    decreases value,
{
    if value < 10 {
        digit(value)
    } else {
        decimal(value / 10) + digit(value % 10)
    }
}

fn digit_text(value: u64) -> (r: &'static str)
    requires
        value < 10,
    ensures
        r@ == digit(value as nat),
{
    if value == 0 {
        "0"
    } else if value == 1 {
        "1"
    } else if value == 2 {
        "2"
    } else if value == 3 {
        "3"
    } else if value == 4 {
        "4"
    } else if value == 5 {
        "5"
    } else if value == 6 {
        "6"
    } else if value == 7 {
        "7"
    } else if value == 8 {
        "8"
    } else {
        "9"
    }
}

/// A number in decimal, without leading zeros.
pub fn decimal_text(value: u64) -> (r: String)
    ensures
        r@ == decimal(value as nat),
    decreases value,
{
    if value < 10 {
        digit_text(value).to_owned()
    } else {
        decimal_text(value / 10).concat(digit_text(value % 10))
    }
}

proof fn lemma_digit_code(value: nat)
    requires
        value < 10,
    ensures
        digit(value).len() == 1,
        digit(value)[0] as int == 48 + value,
{
    reveal_strlit("0");
    reveal_strlit("1");
    reveal_strlit("2");
    reveal_strlit("3");
    reveal_strlit("4");
    reveal_strlit("5");
    reveal_strlit("6");
    reveal_strlit("7");
    reveal_strlit("8");
    reveal_strlit("9");
}

proof fn lemma_digits_differ(left: nat, right: nat)
    requires
        left < 10,
        right < 10,
        digit(left) == digit(right),
    ensures
        left == right,
{
    lemma_digit_code(left);
    lemma_digit_code(right);
}

proof fn lemma_digit_is_one_char(value: nat)
    ensures
        digit(value).len() == 1,
{
    reveal_strlit("0");
    reveal_strlit("1");
    reveal_strlit("2");
    reveal_strlit("3");
    reveal_strlit("4");
    reveal_strlit("5");
    reveal_strlit("6");
    reveal_strlit("7");
    reveal_strlit("8");
    reveal_strlit("9");
}

/// Different numbers have different decimals.
pub proof fn law_decimals_differ(left: nat, right: nat)
    requires
        decimal(left) == decimal(right),
    ensures
        left == right,
    decreases left,
{
    lemma_digit_is_one_char(left);
    lemma_digit_is_one_char(right);
    lemma_digit_is_one_char(left % 10);
    lemma_digit_is_one_char(right % 10);
    lemma_decimal_is_not_empty(left);
    lemma_decimal_is_not_empty(right);
    lemma_decimal_is_not_empty(left / 10);
    lemma_decimal_is_not_empty(right / 10);
    if left < 10 && right < 10 {
        lemma_digits_differ(left, right);
    } else if left >= 10 && right >= 10 {
        let a = decimal(left / 10) + digit(left % 10);
        let b = decimal(right / 10) + digit(right % 10);
        assert(a == b);
        assert(a.len() == decimal(left / 10).len() + 1);
        assert(b.len() == decimal(right / 10).len() + 1);
        assert(a.drop_last() =~= decimal(left / 10));
        assert(b.drop_last() =~= decimal(right / 10));
        assert(digit(left % 10) =~= seq![a.last()]);
        assert(digit(right % 10) =~= seq![b.last()]);
        lemma_digits_differ(left % 10, right % 10);
        law_decimals_differ(left / 10, right / 10);
    }
}

proof fn lemma_decimal_is_not_empty(value: nat)
    ensures
        decimal(value).len() >= 1,
    decreases value,
{
    lemma_digit_is_one_char(value);
    lemma_digit_is_one_char(value % 10);
    if value >= 10 {
        lemma_decimal_is_not_empty(value / 10);
    }
}

/// The longest prefix of a text that takes at most `limit` bytes in UTF-8.
pub open spec fn is_truncation(whole: Seq<char>, limit: nat, part: Seq<char>) -> bool {
    &&& part.len() <= whole.len()
    &&& part == whole.take(part.len() as int)
    &&& encode_utf8(part).len() <= limit
    &&& forall|n: int|
        part.len() < n <= whole.len() ==> encode_utf8(#[trigger] whole.take(n)).len() > limit
}

/// The UTF-8 of a prefix ends where a character of the whole begins, or at the end.
proof fn lemma_prefix_ends_at_boundary(whole: Seq<char>, n: int)
    requires
        0 <= n <= whole.len(),
    ensures
        encode_utf8(whole.take(n)).len() <= encode_utf8(whole).len(),
        is_char_boundary(encode_utf8(whole), encode_utf8(whole.take(n)).len() as int),
        encode_utf8(whole.take(n)) == encode_utf8(whole).subrange(
            0,
            encode_utf8(whole.take(n)).len() as int,
        ),
    decreases n,
{
    encode_utf8_valid_utf8(whole);
    let bytes = encode_utf8(whole);
    if n == 0 {
        assert(whole.take(0) =~= Seq::empty());
        is_char_boundary_start_end_of_seq(bytes);
        assert(bytes.subrange(0, 0) =~= Seq::empty());
    } else {
        let rest = whole.drop_first();
        let head = encode_scalar(whole[0] as u32);
        encode_utf8_first_scalar(whole);
        assert(pop_first_scalar(bytes) =~= encode_utf8(rest));
        lemma_prefix_ends_at_boundary(rest, n - 1);
        let part = whole.take(n);
        assert(part.drop_first() =~= rest.take(n - 1));
        assert(encode_utf8(part) == head + encode_utf8(rest.take(n - 1)));
        let at = encode_utf8(part).len() as int;
        assert(is_char_boundary(bytes, at));
        assert(encode_utf8(part) =~= bytes.subrange(0, at));
    }
}

/// A longer prefix takes more bytes.
proof fn lemma_longer_prefix_is_longer(whole: Seq<char>, short: int, long: int)
    requires
        0 <= short < long <= whole.len(),
    ensures
        encode_utf8(whole.take(short)).len() < encode_utf8(whole.take(long)).len(),
    decreases short,
{
    let part = whole.take(long);
    if short == 0 {
        assert(whole.take(0) =~= Seq::empty());
        encode_utf8_first_scalar(part);
    } else {
        let rest = whole.drop_first();
        lemma_longer_prefix_is_longer(rest, short - 1, long - 1);
        assert(part.drop_first() =~= rest.take(long - 1));
        assert(whole.take(short).drop_first() =~= rest.take(short - 1));
    }
}

/// Cuts a text to at most `limit` bytes without splitting a character.
pub fn truncate_utf8(message: &str, limit: usize) -> (r: String)
    ensures
        is_truncation(message@, limit as nat, r@),
{
    let ghost bytes = encode_utf8(message@);
    proof {
        encode_utf8_valid_utf8(message@);
    }
    let length: usize = message.as_bytes().len();
    if length <= limit {
        assert(message@.take(message@.len() as int) =~= message@);
        return message.to_owned();
    }
    let mut end: usize = limit;
    proof {
        is_char_boundary_start_end_of_seq(bytes);
    }
    while !message.is_char_boundary(end)
        invariant
            end <= limit < bytes.len(),
            bytes == message.spec_bytes(),
            valid_utf8(bytes),
            is_char_boundary(bytes, 0),
            forall|i: int| end < i <= limit ==> !#[trigger] is_char_boundary(bytes, i),
        decreases end,
    {
        end -= 1;
    }
    let (kept, _) = message.split_at(end);
    proof {
        let part = kept@;
        valid_utf8_split(bytes, end as int);
        decode_utf8_split(bytes, end as int);
        encode_utf8_decode_utf8(message@);
        encode_utf8_decode_utf8(part);
        assert(encode_utf8(part) == bytes.subrange(0, end as int));
        assert(message@ == decode_utf8(bytes.subrange(0, end as int)) + decode_utf8(
            bytes.subrange(end as int, bytes.len() as int),
        ));
        assert(part =~= message@.take(part.len() as int));
        assert forall|n: int| part.len() < n <= message@.len() implies encode_utf8(
            #[trigger] message@.take(n),
        ).len() > limit by {
            lemma_prefix_ends_at_boundary(message@, n);
            lemma_longer_prefix_is_longer(message@, part.len() as int, n);
        }
    }
    kept.to_owned()
}

/// A truncation is one and no other.
pub proof fn law_truncation_is_unique(
    whole: Seq<char>,
    limit: nat,
    left: Seq<char>,
    right: Seq<char>,
)
    requires
        is_truncation(whole, limit, left),
        is_truncation(whole, limit, right),
    ensures
        left == right,
{
    if left.len() < right.len() {
        assert(encode_utf8(whole.take(right.len() as int)).len() > limit);
    } else if right.len() < left.len() {
        assert(encode_utf8(whole.take(left.len() as int)).len() > limit);
    }
}

/// The number that bytes spell, the most significant byte first.
pub open spec fn big_endian(bytes: Seq<u8>) -> nat
    decreases bytes.len(),
{
    if bytes.len() == 0 {
        0
    } else {
        big_endian(bytes.drop_last()) * 256 + bytes.last() as nat
    }
}

/// A counter as a 16-byte identity: eight zero bytes, then the counter, big end first.
pub open spec fn spells_counter(bytes: Seq<u8>, counter: u64) -> bool {
    &&& bytes.len() == 16
    &&& forall|i: int| 0 <= i < 8 ==> bytes[i] == 0
    &&& big_endian(bytes.skip(8)) == counter
}

/// A counter as a 16-byte identity.
pub fn counter_bytes(counter: u64) -> (r: [u8; 16])
    ensures
        spells_counter(r@, counter),
{
    let c0: u64 = counter;
    let c1: u64 = c0 / 256;
    let c2: u64 = c1 / 256;
    let c3: u64 = c2 / 256;
    let c4: u64 = c3 / 256;
    let c5: u64 = c4 / 256;
    let c6: u64 = c5 / 256;
    let c7: u64 = c6 / 256;
    let r: [u8; 16] = [
        0, 0, 0, 0, 0, 0, 0, 0,
        (c7 % 256) as u8,
        (c6 % 256) as u8,
        (c5 % 256) as u8,
        (c4 % 256) as u8,
        (c3 % 256) as u8,
        (c2 % 256) as u8,
        (c1 % 256) as u8,
        (c0 % 256) as u8,
    ];
    proof {
        let s0 = r@.skip(8);
        let s1 = s0.drop_last();
        let s2 = s1.drop_last();
        let s3 = s2.drop_last();
        let s4 = s3.drop_last();
        let s5 = s4.drop_last();
        let s6 = s5.drop_last();
        let s7 = s6.drop_last();
        let s8 = s7.drop_last();
        assert(c7 < 256);
        assert(big_endian(s8) == 0);
        assert(big_endian(s7) == c7);
        assert(big_endian(s6) == c6);
        assert(big_endian(s5) == c5);
        assert(big_endian(s4) == c4);
        assert(big_endian(s3) == c3);
        assert(big_endian(s2) == c2);
        assert(big_endian(s1) == c1);
        assert(big_endian(s0) == c0);
    }
    r
}

/// The counter that a 16-byte identity spells, if it spells one.
pub fn counter_of_bytes(bytes: &[u8; 16]) -> (r: Option<u64>)
    ensures
        match r {
            Some(counter) => spells_counter(bytes@, counter),
            None => forall|counter: u64| !spells_counter(bytes@, counter),
        },
{
    let mut i: usize = 0;
    while i < 8
        invariant
            i <= 8,
            forall|j: int| 0 <= j < i ==> bytes@[j] == 0,
        decreases 8 - i,
    {
        if bytes[i] != 0 {
            assert forall|counter: u64| !spells_counter(bytes@, counter) by {
                assert(bytes@[i as int] != 0);
            }
            return None;
        }
        i += 1;
    }
    let c7: u64 = bytes[8] as u64;
    let c6: u64 = c7 * 256 + bytes[9] as u64;
    let c5: u64 = c6 * 256 + bytes[10] as u64;
    let c4: u64 = c5 * 256 + bytes[11] as u64;
    let c3: u64 = c4 * 256 + bytes[12] as u64;
    let c2: u64 = c3 * 256 + bytes[13] as u64;
    let c1: u64 = c2 * 256 + bytes[14] as u64;
    let c0: u64 = c1 * 256 + bytes[15] as u64;
    proof {
        let s0 = bytes@.skip(8);
        let s1 = s0.drop_last();
        let s2 = s1.drop_last();
        let s3 = s2.drop_last();
        let s4 = s3.drop_last();
        let s5 = s4.drop_last();
        let s6 = s5.drop_last();
        let s7 = s6.drop_last();
        let s8 = s7.drop_last();
        assert(big_endian(s8) == 0);
        assert(big_endian(s7) == c7);
        assert(big_endian(s6) == c6);
        assert(big_endian(s5) == c5);
        assert(big_endian(s4) == c4);
        assert(big_endian(s3) == c3);
        assert(big_endian(s2) == c2);
        assert(big_endian(s1) == c1);
        assert(big_endian(s0) == c0);
    }
    Some(c0)
}

/// Different counters give different identities.
pub proof fn law_counter_identities_differ(bytes: Seq<u8>, left: u64, right: u64)
    requires
        spells_counter(bytes, left),
        spells_counter(bytes, right),
    ensures
        left == right,
{
}

/// Texts with a separator between each two.
pub open spec fn joined(texts: Seq<Seq<char>>, separator: Seq<char>) -> Seq<char>
    decreases texts.len(),
{
    if texts.len() == 0 {
        Seq::empty()
    } else if texts.len() == 1 {
        texts[0]
    } else {
        joined(texts.drop_last(), separator) + separator + texts.last()
    }
}

/// The views of a list of texts.
pub open spec fn texts_of(texts: Seq<String>) -> Seq<Seq<char>> {
    texts.map_values(|text: String| text@)
}

/// Joins texts with a separator between each two.
pub fn join_all(texts: &Vec<String>, separator: &str) -> (r: String)
    ensures
        r@ == joined(texts_of(texts@), separator@),
{
    let mut out = String::new();
    let mut i: usize = 0;
    assert(texts_of(texts@).take(0) =~= Seq::empty());
    while i < texts.len()
        invariant
            i <= texts.len(),
            out@ == joined(texts_of(texts@).take(i as int), separator@),
        decreases texts.len() - i,
    {
        let ghost before = texts_of(texts@).take(i as int);
        let ghost after = texts_of(texts@).take(i + 1);
        assert(after.drop_last() =~= before);
        assert(after.last() == texts@[i as int]@);
        if i > 0 {
            out.append(separator);
        }
        out.append(texts[i].as_str());
        assert(out@ =~= joined(after, separator@));
        i += 1;
    }
    assert(texts_of(texts@).take(texts@.len() as int) =~= texts_of(texts@));
    out
}

/// Dictionary order by the characters' numbers.
pub open spec fn text_le(left: Seq<char>, right: Seq<char>) -> bool
    decreases left.len(),
{
    if left.len() == 0 {
        true
    } else if right.len() == 0 {
        false
    } else if left[0] == right[0] {
        text_le(left.drop_first(), right.drop_first())
    } else {
        (left[0] as int) < (right[0] as int)
    }
}

/// Of two texts one is not after the other.
pub proof fn lemma_text_le_total(left: Seq<char>, right: Seq<char>)
    ensures
        text_le(left, right) || text_le(right, left),
    decreases left.len(),
{
    if left.len() > 0 && right.len() > 0 && left[0] == right[0] {
        lemma_text_le_total(left.drop_first(), right.drop_first());
    }
}

/// Dictionary order is transitive.
pub proof fn lemma_text_le_transitive(left: Seq<char>, middle: Seq<char>, right: Seq<char>)
    requires
        text_le(left, middle),
        text_le(middle, right),
    ensures
        text_le(left, right),
    decreases left.len(),
{
    if left.len() > 0 && left[0] == middle[0] && middle[0] == right[0] {
        lemma_text_le_transitive(left.drop_first(), middle.drop_first(), right.drop_first());
    }
}

/// Two texts of which neither is after the other are the same.
pub proof fn lemma_text_le_antisymmetric(left: Seq<char>, right: Seq<char>)
    requires
        text_le(left, right),
        text_le(right, left),
    ensures
        left == right,
    decreases left.len(),
{
    if left.len() > 0 && right.len() > 0 {
        lemma_text_le_antisymmetric(left.drop_first(), right.drop_first());
        assert(left =~= seq![left[0]] + left.drop_first());
        assert(right =~= seq![right[0]] + right.drop_first());
    } else {
        assert(left =~= right);
    }
}

/// Texts in dictionary order.
pub open spec fn is_sorted(texts: Seq<Seq<char>>) -> bool {
    forall|i: int, j: int| 0 <= i <= j < texts.len() ==> text_le(#[trigger] texts[i], #[trigger] texts[j])
}

/// Whether one text is not after another in dictionary order.
pub fn is_text_le(left: &str, right: &str) -> (r: bool)
    ensures
        r == text_le(left@, right@),
{
    let n: usize = left.unicode_len();
    let m: usize = right.unicode_len();
    let mut i: usize = 0;
    assert(left@.skip(0) =~= left@);
    assert(right@.skip(0) =~= right@);
    while i < n && i < m
        invariant
            n == left@.len(),
            m == right@.len(),
            i <= n,
            i <= m,
            text_le(left@, right@) == text_le(left@.skip(i as int), right@.skip(i as int)),
        decreases n - i,
    {
        let a: char = left.get_char(i);
        let b: char = right.get_char(i);
        if a != b {
            return (a as u32) < (b as u32);
        }
        assert(left@.skip(i as int).drop_first() =~= left@.skip(i + 1));
        assert(right@.skip(i as int).drop_first() =~= right@.skip(i + 1));
        i += 1;
    }
    i == n
}

/// Puts texts in dictionary order.
pub fn sort_texts(texts: Vec<String>) -> (r: Vec<String>)
    ensures
        is_sorted(texts_of(r@)),
        texts_of(r@).to_multiset() == texts_of(texts@).to_multiset(),
{
    broadcast use vstd::seq_lib::group_to_multiset_ensures;

    let mut texts = texts;
    let ghost all = texts_of(texts@);
    let mut sorted: Vec<String> = Vec::new();
    assert(texts_of(sorted@) =~= Seq::empty());
    assert(all =~= Seq::empty() + all);
    while texts.len() > 0
        invariant
            is_sorted(texts_of(sorted@)),
            texts_of(sorted@).to_multiset().add(texts_of(texts@).to_multiset())
                =~= all.to_multiset(),
        decreases texts@.len(),
    {
        let ghost left = texts_of(texts@);
        let ghost before = texts_of(sorted@);
        if let Some(text) = texts.pop() {
            let ghost item = text@;
            assert(texts_of(texts@) =~= left.drop_last());
            assert(left =~= left.drop_last().push(item));
            let mut place: usize = 0;
            while place < sorted.len() && is_text_le(sorted[place].as_str(), text.as_str())
                invariant
                    place <= sorted.len(),
                    before == texts_of(sorted@),
                    forall|j: int| 0 <= j < place ==> text_le(#[trigger] before[j], text@),
                decreases sorted.len() - place,
            {
                place += 1;
            }
            sorted.insert(place, text);
            proof {
                broadcast use vstd::seq_lib::group_to_multiset_ensures;

                let after = texts_of(sorted@);
                assert(after =~= before.insert(place as int, item));
                assert(before.insert(place as int, item).to_multiset()
                    =~= before.to_multiset().insert(item));
                assert(left.drop_last().push(item).to_multiset()
                    =~= left.drop_last().to_multiset().insert(item));
                assert forall|i: int, j: int| 0 <= i <= j < after.len() implies text_le(
                    #[trigger] after[i],
                    #[trigger] after[j],
                ) by {
                    let p = place as int;
                    lemma_text_le_total(item, item);
                    if p < before.len() {
                        lemma_text_le_total(item, before[p]);
                    }
                    if i == p && j > p {
                        assert(after[j] == before[j - 1]);
                        assert(text_le(before[p], before[j - 1]));
                        lemma_text_le_transitive(item, before[p], before[j - 1]);
                    } else if j == p && i < p {
                        assert(after[i] == before[i]);
                    } else if i != p && j != p {
                        let a = if i < p { i } else { i - 1 };
                        let b = if j < p { j } else { j - 1 };
                        assert(after[i] == before[a]);
                        assert(after[j] == before[b]);
                    }
                }
            }
        }
    }
    assert(texts_of(texts@) =~= Seq::empty());
    sorted
}

} // verus!
