//! Paths of the file system: std's `PathBuf`, known by its components and its length.
use std::path::PathBuf;
use vstd::prelude::*;
use vstd::utf8::{
    encode_utf8, encode_utf8_decode_utf8, is_ascii_chars, is_ascii_chars_encode_utf8, valid_utf8,
};

verus! {

/// std's owned path.
#[verifier::external_type_specification]
#[verifier::external_body]
pub struct ExPathBuf(PathBuf);

/// What a path holds: its components in order, each as its bytes. The root is the component `/`.
pub uninterp spec fn path_components(path: PathBuf) -> Seq<Seq<u8>>;

/// How many bytes a path takes as it is written.
pub uninterp spec fn path_length(path: PathBuf) -> nat;

/// The component that stands for the root: a single slash.
pub open spec fn root_component() -> Seq<u8> {
    seq![47u8]
}

/// A path that starts at the root.
pub open spec fn is_rooted(components: Seq<Seq<u8>>) -> bool {
    components.len() > 0 && components[0] == root_component()
}

/// A path whose last component is the name of something.
pub open spec fn has_file_name(components: Seq<Seq<u8>>) -> bool {
    &&& components.len() > 0
    &&& components.last() != root_component()
    &&& components.last() != seq![46u8]
    &&& components.last() != seq![46u8, 46u8]
}

/// The parts of a text between its slashes, empty ones among them.
pub open spec fn text_parts(text: Seq<char>) -> Seq<Seq<char>>
    decreases text.len(),
{
    if text.len() == 0 {
        seq![text]
    } else {
        let before = text_parts(text.drop_last());
        if text.last() == '/' {
            before.push(Seq::empty())
        } else {
            before.drop_last().push(before.last().push(text.last()))
        }
    }
}

/// The names among the parts of a path. An empty part and a lone dot name nothing.
pub open spec fn part_names(parts: Seq<Seq<char>>) -> Seq<Seq<u8>>
    decreases parts.len(),
{
    if parts.len() == 0 {
        Seq::empty()
    } else {
        let before = part_names(parts.drop_last());
        if parts.last().len() == 0 || parts.last() == seq!['.'] {
            before
        } else {
            before.push(encode_utf8(parts.last()))
        }
    }
}

/// The components of the path that a text spells: the root where it starts with a slash, a dot where
/// its first part is one, and its names.
pub open spec fn text_components(text: Seq<char>) -> Seq<Seq<u8>> {
    let names = part_names(text_parts(text));
    if text.len() > 0 && text[0] == '/' {
        seq![root_component()] + names
    } else if text_parts(text)[0] == seq!['.'] {
        seq![seq![46u8]] + names
    } else {
        names
    }
}

/// The components of the path that a text spells when it is read in a directory. A text that starts
/// with a slash does not look at the directory; any other adds its names.
pub open spec fn joined_components(directory: Seq<Seq<u8>>, text: Seq<char>) -> Seq<Seq<u8>> {
    if directory.len() == 0 || (text.len() > 0 && text[0] == '/') {
        text_components(text)
    } else {
        directory + part_names(text_parts(text))
    }
}

/// A text that spells one component: not empty, without a slash, and not a lone dot.
pub open spec fn is_plain_name(text: Seq<char>) -> bool {
    &&& text.len() > 0
    &&& !text.contains('/')
    &&& text != seq!['.']
}

proof fn lemma_no_slash_is_one_part(text: Seq<char>)
    requires
        !text.contains('/'),
    ensures
        text_parts(text) == seq![text],
    decreases text.len(),
{
    if text.len() > 0 {
        let before = text.drop_last();
        assert(text[text.len() - 1] != '/');
        assert forall|i: int| 0 <= i < before.len() implies before[i] != '/' by {
            assert(before[i] == text[i]);
        }
        lemma_no_slash_is_one_part(before);
        assert(before.push(text.last()) =~= text);
        assert(seq![before].drop_last() =~= Seq::empty());
        assert(text_parts(text) =~= seq![text]);
    }
}

proof fn lemma_parts_have_no_slash(text: Seq<char>)
    ensures
        text_parts(text).len() > 0,
        forall|i: int| 0 <= i < text_parts(text).len() ==> !(#[trigger] text_parts(text)[i]).contains(
            '/',
        ),
    decreases text.len(),
{
    if text.len() > 0 {
        lemma_parts_have_no_slash(text.drop_last());
        let before = text_parts(text.drop_last());
        let grown = before.last().push(text.last());
        if text.last() != '/' {
            assert forall|i: int| 0 <= i < grown.len() implies grown[i] != '/' by {
                if i < before.last().len() {
                    assert(before[before.len() - 1].contains(grown[i]));
                }
            }
        }
    }
}

proof fn lemma_names_are_not_the_root(parts: Seq<Seq<char>>)
    requires
        forall|i: int| 0 <= i < parts.len() ==> !(#[trigger] parts[i]).contains('/'),
    ensures
        forall|i: int| 0 <= i < part_names(parts).len() ==> #[trigger] part_names(parts)[i]
            != root_component(),
    decreases parts.len(),
{
    if parts.len() > 0 {
        lemma_names_are_not_the_root(parts.drop_last());
        let part = parts.last();
        if encode_utf8(part) == root_component() {
            assert(is_ascii_chars(seq!['/']));
            is_ascii_chars_encode_utf8(seq!['/']);
            assert(encode_utf8(seq!['/']) =~= root_component());
            encode_utf8_decode_utf8(seq!['/']);
            encode_utf8_decode_utf8(part);
            assert(part[0] == '/');
            assert(parts[parts.len() - 1].contains('/'));
        }
        let before = part_names(parts.drop_last());
        assert forall|i: int| 0 <= i < part_names(parts).len() implies #[trigger] part_names(parts)[i]
            != root_component() by {
            if i < before.len() {
                assert(part_names(parts)[i] == before[i]);
            }
        }
    }
}

/// A text spells a path from the root where it starts with a slash, and nowhere else.
pub proof fn lemma_rooted_texts_start_with_a_slash(text: Seq<char>)
    ensures
        is_rooted(text_components(text)) <==> text.len() > 0 && text[0] == '/',
{
    lemma_parts_have_no_slash(text);
    lemma_names_are_not_the_root(text_parts(text));
    let names = part_names(text_parts(text));
    if !(text.len() > 0 && text[0] == '/') && text_parts(text)[0] == seq!['.'] {
        assert((seq![seq![46u8]] + names)[0] == seq![46u8]);
        assert(seq![46u8][0] != root_component()[0]);
    }
}

/// A text that spells one component adds just that one to a directory.
pub proof fn lemma_plain_name_is_added(directory: Seq<Seq<u8>>, text: Seq<char>)
    requires
        is_plain_name(text),
    ensures
        joined_components(directory, text) == directory.push(encode_utf8(text)),
{
    lemma_no_slash_is_one_part(text);
    assert(text[0] != '/');
    let parts = seq![text];
    assert(parts.drop_last() =~= Seq::empty());
    assert(part_names(parts.drop_last()) =~= Seq::<Seq<u8>>::empty());
    assert(part_names(parts) =~= seq![encode_utf8(text)]);
    assert(joined_components(directory, text) =~= directory.push(encode_utf8(text)));
}

/// `PathBuf::from` of a text. Its components are those that the text spells: a repeated or trailing
/// slash and a dot that is not the first part are passed over.
#[verifier::external_body]
pub(crate) fn path_of(text: &str) -> (r: PathBuf)
    ensures
        path_components(r) == text_components(text@),
{
    PathBuf::from(text)
}

/// `PathBuf::clone`, which gives the same path again.
#[verifier::external_body]
pub(crate) fn clone_path(path: &PathBuf) -> (r: PathBuf)
    ensures
        r == *path,
{
    path.clone()
}

/// `Path::is_absolute`. On Unix a path is absolute where it starts with the root.
#[verifier::external_body]
pub(crate) fn path_is_absolute(path: &PathBuf) -> (r: bool)
    ensures
        r == is_rooted(path_components(*path)),
{
    path.is_absolute()
}

/// `Path::join`: the path that the text spells in the directory. Where the text is one component, what
/// is written grows by it, and by a separator where one is needed.
#[verifier::external_body]
pub(crate) fn join_path(directory: &PathBuf, text: &str) -> (r: PathBuf)
    ensures
        path_components(r) == joined_components(path_components(*directory), text@),
        is_plain_name(text@) ==> path_length(*directory) + encode_utf8(text@).len() <= path_length(r)
            <= path_length(*directory) + encode_utf8(text@).len() + 1,
{
    directory.join(text)
}

/// Names a file in a directory.
pub(crate) fn join_name(directory: &PathBuf, name: &str) -> (r: PathBuf)
    requires
        is_plain_name(name@),
    ensures
        path_components(r) == path_components(*directory).push(encode_utf8(name@)),
        path_length(*directory) + encode_utf8(name@).len() <= path_length(r) <= path_length(
            *directory,
        ) + encode_utf8(name@).len() + 1,
{
    proof {
        lemma_plain_name_is_added(path_components(*directory), name@);
    }
    join_path(directory, name)
}

/// `Path::parent`: the path without its last component. There is none for the root and for the
/// empty path.
#[verifier::external_body]
pub(crate) fn parent_path(path: &PathBuf) -> (r: Option<PathBuf>)
    ensures
        r is None <==> path_components(*path).len() == 0 || path_components(*path).last()
            == root_component(),
        r matches Some(parent) ==> path_components(parent) == path_components(*path).drop_last(),
{
    match path.parent() {
        Some(parent) => Some(parent.to_path_buf()),
        None => None,
    }
}

/// `Path::starts_with`, which compares whole components.
#[verifier::external_body]
pub(crate) fn path_starts_with(path: &PathBuf, base: &PathBuf) -> (r: bool)
    ensures
        r == path_components(*base).is_prefix_of(path_components(*path)),
{
    path.starts_with(base)
}

/// `==` on paths, which compares their components.
#[verifier::external_body]
pub(crate) fn same_path(left: &PathBuf, right: &PathBuf) -> (r: bool)
    ensures
        r == (path_components(*left) == path_components(*right)),
{
    left == right
}

/// The length of `OsStr::as_encoded_bytes`: how many bytes the path takes as it is written.
#[verifier::external_body]
pub(crate) fn path_byte_length(path: &PathBuf) -> (r: usize)
    ensures
        r == path_length(*path),
{
    path.as_os_str().as_encoded_bytes().len()
}

/// `Path::file_name`, as its bytes: the last component. There is none for an empty path, the root, and
/// where the last component is a dot or two dots.
#[verifier::external_body]
pub(crate) fn path_file_name(path: &PathBuf) -> (r: Option<Vec<u8>>)
    ensures
        r is Some <==> has_file_name(path_components(*path)),
        r matches Some(name) ==> name@ == path_components(*path).last(),
{
    match path.file_name() {
        Some(name) => Some(name.as_encoded_bytes().to_vec()),
        None => None,
    }
}

/// `String::from_utf8`. There is a text where the bytes are UTF-8, and it is the one that they spell.
#[verifier::external_body]
pub(crate) fn text_of_bytes(bytes: Vec<u8>) -> (r: Option<String>)
    ensures
        r is Some <==> valid_utf8(bytes@),
        r matches Some(text) ==> encode_utf8(text@) == bytes@,
{
    match String::from_utf8(bytes) {
        Ok(text) => Some(text),
        Err(_) => None,
    }
}

} // verus!
