//! What a lock file's number, an endpoint's names and an owner's modes come to.
use super::{
    digits_value, endpoint_paths, integer_value, is_white_space, lemma_texts_differ, mode_objection,
    pid_of, trim_end, trim_start, Metadata, RuntimeError,
};
use crate::protocol::HostKind;
use crate::text::decimal;
use crate::text::laws::law_a_decimal_reads_back;
use std::path::PathBuf;
use vstd::prelude::*;
use vstd::utf8::encode_utf8;

verus! {

/// What ends a line, and what stands between words, is white space; what can be printed is not.
pub proof fn law_blanks_are_white_space(c: char)
    ensures
        c == ' ' || c == '\t' || c == '\n' || c == '\r' ==> is_white_space(c),
        33 <= c as int <= 126 ==> !is_white_space(c),
{
}

/// What digits amount to is what a decimal was made from.
proof fn lemma_digits_amount(digits: Seq<char>)
    requires
        forall|i: int| 0 <= i < digits.len() ==> 48 <= #[trigger] digits[i] as int <= 57,
    ensures
        digits_value(digits) is Some,
        digits_value(digits)->Some_0 == crate::text::laws::amounts_to(digits),
    decreases digits.len(),
{
    if digits.len() > 0 {
        let head = digits.drop_last();
        assert forall|i: int| 0 <= i < head.len() implies 48 <= #[trigger] head[i] as int <= 57 by {
            assert(head[i] == digits[i]);
        }
        lemma_digits_amount(head);
        assert(48 <= digits.last() as int <= 57);
    }
}

/// A process that writes its number into a lock is found by it, also where the number ends in white
/// space, as a line does; and a number that no process can have is none.
pub proof fn law_a_lock_names_its_process(pid: nat, space: Seq<char>)
    requires
        forall|i: int| 0 <= i < space.len() ==> is_white_space(#[trigger] space[i]),
    ensures
        match pid_of(decimal(pid) + space) {
            Some(found) => found == pid,
            None => pid > i32::MAX,
        },
{
    let text = decimal(pid);
    law_a_decimal_reads_back(pid);
    lemma_digits_amount(text);
    lemma_trailing_space(text, space);
    assert(48 <= text[0] as int <= 57);
    assert(48 <= text.last() as int <= 57);
    assert(trim_end(text) == text);
    assert(trim_start(text) == text);
    assert(integer_value(text) == Some(pid as int));
}

/// White space at the end is not looked at.
proof fn lemma_trailing_space(text: Seq<char>, space: Seq<char>)
    requires
        forall|i: int| 0 <= i < space.len() ==> is_white_space(#[trigger] space[i]),
    ensures
        trim_end(text + space) == trim_end(text),
    decreases space.len(),
{
    if space.len() == 0 {
        assert(text + space =~= text);
    } else {
        assert((text + space).last() == space.last());
        assert((text + space).drop_last() =~= text + space.drop_last());
        lemma_trailing_space(text, space.drop_last());
    }
}

/// White space before a number is not looked at either.
pub proof fn law_white_space_before_a_number_is_passed_over(space: char, text: Seq<char>)
    requires
        is_white_space(space),
    ensures
        pid_of(seq![space] + text) == pid_of(text),
{
    lemma_leading_space(space, text);
}

proof fn lemma_leading_space(space: char, text: Seq<char>)
    requires
        is_white_space(space),
    ensures
        trim_start(trim_end(seq![space] + text)) == trim_start(trim_end(text)),
    decreases text.len(),
{
    let whole = seq![space] + text;
    if text.len() == 0 {
        assert(whole.drop_last() =~= Seq::empty());
        assert(trim_end(whole.drop_last()) =~= Seq::empty());
        assert(text =~= Seq::empty());
    } else {
        assert(whole.last() == text.last());
        if is_white_space(text.last()) {
            assert(whole.drop_last() =~= seq![space] + text.drop_last());
            lemma_leading_space(space, text.drop_last());
        } else {
            assert(trim_end(whole) == whole);
            assert(trim_end(text) == text);
            assert(whole[0] == space);
            assert(whole.drop_first() =~= text);
        }
    }
}

/// A number may carry a sign: with a plus it is itself, with a minus it is the opposite number, and a
/// sign alone is none.
pub proof fn law_a_number_may_carry_a_sign(pid: nat)
    ensures
        integer_value(seq!['+'] + decimal(pid)) == Some(pid as int),
        integer_value(seq!['-'] + decimal(pid)) == Some(0 - pid),
        integer_value(decimal(pid)) == Some(pid as int),
        integer_value(seq!['+']) is None,
        integer_value(seq!['-']) is None,
        integer_value(Seq::empty()) is None,
{
    let text = decimal(pid);
    law_a_decimal_reads_back(pid);
    lemma_digits_amount(text);
    assert((seq!['+'] + text).drop_first() =~= text);
    assert((seq!['-'] + text).drop_first() =~= text);
    assert(48 <= text[0] as int <= 57);
    assert(seq!['+'].drop_first() =~= Seq::empty());
    assert(seq!['-'].drop_first() =~= Seq::empty());
}

/// A text with anything but digits behind its sign is no number.
pub proof fn law_anything_else_is_no_number(text: Seq<char>, i: int)
    requires
        0 <= i < text.len(),
        !(48 <= text[i] as int <= 57),
        i > 0 || (text[0] != '+' && text[0] != '-'),
    ensures
        integer_value(text) is None,
{
    if text[0] == '-' || text[0] == '+' {
        let digits = text.drop_first();
        assert(digits[i - 1] == text[i]);
        lemma_no_digits(digits, i - 1);
    } else {
        lemma_no_digits(text, i);
    }
}

proof fn lemma_no_digits(digits: Seq<char>, i: int)
    requires
        0 <= i < digits.len(),
        !(48 <= digits[i] as int <= 57),
    ensures
        digits_value(digits) is None,
    decreases digits.len(),
{
    if i < digits.len() - 1 {
        assert(digits.drop_last()[i] == digits[i]);
        lemma_no_digits(digits.drop_last(), i);
    }
}

/// A file passes exactly where it is the user's and every bit for the group and for others is clear;
/// one that does not pass says what is wrong: first whose it is, otherwise which permissions it has.
pub proof fn law_a_file_passes_where_it_is_owner_only(
    path: PathBuf,
    metadata: Metadata,
    uid: u32,
    expected: u32,
)
    ensures
        mode_objection(path, metadata, uid, expected) is None <==> {
            &&& metadata.uid == uid
            &&& metadata.mode & 0o040 == 0
            &&& metadata.mode & 0o020 == 0
            &&& metadata.mode & 0o010 == 0
            &&& metadata.mode & 0o004 == 0
            &&& metadata.mode & 0o002 == 0
            &&& metadata.mode & 0o001 == 0
        },
        metadata.uid != uid ==> mode_objection(path, metadata, uid, expected) == Some(
            RuntimeError::WrongOwner { path, expected: uid, actual: metadata.uid },
        ),
        metadata.uid == uid && metadata.mode & 0o077 != 0 ==> (mode_objection(
            path,
            metadata,
            uid,
            expected,
        ) matches Some(
            RuntimeError::InsecurePermissions { path: told, mode, expected: wanted },
        ) && told == path && wanted == expected && mode <= 0o777 && (metadata.mode - mode) % 0o1000
            == 0),
{
    let mode = metadata.mode;
    assert((mode & 0o077 == 0) == (mode & 0o040 == 0 && mode & 0o020 == 0 && mode & 0o010 == 0
        && mode & 0o004 == 0 && mode & 0o002 == 0 && mode & 0o001 == 0)) by (bit_vector);
    assert(mode & 0o777 == mode % 0o1000) by (bit_vector);
}

/// An endpoint's files stand together: the socket and the lock are two files of the one directory, which
/// stands in the base directory.
pub proof fn law_an_endpoint_stands_in_one_directory(
    base: Seq<Seq<u8>>,
    host: HostKind,
    key: Seq<char>,
)
    ensures
        ({
            let paths = endpoint_paths(base, host, key);
            &&& paths.runtime_dir.drop_last() == base
            &&& paths.socket.drop_last() == paths.runtime_dir
            &&& paths.startup_lock.drop_last() == paths.runtime_dir
            &&& paths.socket != paths.startup_lock
        }),
{
    let paths = endpoint_paths(base, host, key);
    let stem = super::endpoint_stem(host, key);
    reveal_strlit(".sock");
    reveal_strlit(".lock");
    assert(paths.runtime_dir.drop_last() =~= base);
    assert(paths.socket.drop_last() =~= paths.runtime_dir);
    assert(paths.startup_lock.drop_last() =~= paths.runtime_dir);
    let at = stem.len() as int;
    assert((stem + ".sock"@)[at + 1] == 's');
    assert((stem + ".lock"@)[at + 1] == 'l');
    lemma_texts_differ(stem + ".sock"@, stem + ".lock"@);
    assert(paths.socket.last() == encode_utf8(stem + ".sock"@));
    assert(paths.startup_lock.last() == encode_utf8(stem + ".lock"@));
}

} // verus!
