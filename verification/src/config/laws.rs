//! Which changes concern a configuration, and which files are its assets.
use super::{
    below, concerns, extension_of, is_asset, last_dot, lemma_yml_bytes, override_name, stem_of,
    InputsModel,
};
use crate::path::root_component;
use crate::protocol::HostKind;
use vstd::prelude::*;
use vstd::utf8::{encode_utf8, encode_utf8_decode_utf8};

verus! {

/// A change of the configuration file, of the override or of anything in the directories of the assets
/// is tracked, however deep it stands there; and so is one of these directories themselves.
pub proof fn law_changes_of_the_configuration_are_tracked(inputs: InputsModel, rest: Seq<Seq<u8>>)
    ensures
        inputs.tracks(inputs.base),
        inputs.host_override matches Some(path) ==> inputs.tracks(path),
        inputs.tracks(inputs.directory.push(encode_utf8("themes"@)) + rest),
        inputs.tracks(inputs.directory.push(encode_utf8("color-schemes"@)) + rest),
{
    let themes = inputs.directory.push(encode_utf8("themes"@));
    let schemes = inputs.directory.push(encode_utf8("color-schemes"@));
    assert((themes + rest).take(themes.len() as int) =~= themes);
    assert((schemes + rest).take(schemes.len() as int) =~= schemes);
    assert(themes.is_prefix_of(themes + rest));
    assert(schemes.is_prefix_of(schemes + rest));
}

/// A change of anything else beside the configuration file is not tracked, nor one outside of the
/// directory.
pub proof fn law_other_changes_are_not_tracked(
    inputs: InputsModel,
    name: Seq<u8>,
    rest: Seq<Seq<u8>>,
    elsewhere: Seq<Seq<u8>>,
)
    requires
        name != encode_utf8("themes"@),
        name != encode_utf8("color-schemes"@),
        inputs.directory.push(name) + rest != inputs.base,
        inputs.host_override != Some(inputs.directory.push(name) + rest),
        elsewhere != inputs.base,
        inputs.host_override != Some(elsewhere),
        !inputs.directory.is_prefix_of(elsewhere),
    ensures
        !inputs.tracks(inputs.directory.push(name) + rest),
        !inputs.tracks(elsewhere),
{
    let at = inputs.directory.len() as int;
    let changed = inputs.directory.push(name) + rest;
    let themes = inputs.directory.push(encode_utf8("themes"@));
    let schemes = inputs.directory.push(encode_utf8("color-schemes"@));
    assert(changed[at] == name);
    assert(themes[at] == encode_utf8("themes"@));
    assert(schemes[at] == encode_utf8("color-schemes"@));
    if themes.is_prefix_of(changed) {
        assert(changed[at] == themes[at]);
    }
    if schemes.is_prefix_of(changed) {
        assert(changed[at] == schemes[at]);
    }
    if themes.is_prefix_of(elsewhere) {
        assert(inputs.directory =~= elsewhere.subrange(0, at));
    }
    if schemes.is_prefix_of(elsewhere) {
        assert(inputs.directory =~= elsewhere.subrange(0, at));
    }
}

/// Everything that is watched stands in the directory that is watched and is tracked, where the
/// configuration file and the override stand in it.
pub proof fn law_what_is_watched_is_tracked(inputs: InputsModel, i: int)
    requires
        0 <= i < inputs.watched().len(),
        inputs.directory.is_prefix_of(inputs.base),
        inputs.host_override matches Some(path) ==> inputs.directory.is_prefix_of(path),
    ensures
        inputs.tracks(inputs.watched()[i]),
        inputs.directory.is_prefix_of(inputs.watched()[i]),
        inputs.watched().contains(inputs.base),
        inputs.host_override matches Some(path) ==> inputs.watched().contains(path),
        inputs.watched().len() == if inputs.host_override is Some {
            4nat
        } else {
            3
        },
{
    let watched = inputs.watched();
    let themes = below(inputs.directory, "themes"@);
    let schemes = below(inputs.directory, "color-schemes"@);
    assert(watched[0] == inputs.base);
    assert(watched[1] == themes);
    assert(watched[2] == schemes);
    if inputs.host_override is Some {
        assert(watched[3] == inputs.host_override->Some_0);
    }
    let n = inputs.directory.len() as int;
    assert(themes.subrange(0, n) =~= inputs.directory);
    assert(schemes.subrange(0, n) =~= inputs.directory);
    assert(themes.subrange(0, n + 1) =~= themes);
    assert(schemes.subrange(0, n + 1) =~= schemes);
}

/// A change concerns what is watched both ways: above it and below it, and it is one relation from
/// either side; two paths that part from each other do not concern each other.
pub proof fn law_a_change_concerns_what_is_above_and_below(
    path: Seq<Seq<u8>>,
    rest: Seq<Seq<u8>>,
    other: Seq<Seq<u8>>,
)
    ensures
        concerns(path, path + rest),
        concerns(path + rest, path),
        concerns(path, other) == concerns(other, path),
        rest.len() > 0 && other.len() > 0 && rest[0] != other[0] ==> !concerns(
            path + rest,
            path + other,
        ),
{
    assert((path + rest).subrange(0, path.len() as int) =~= path);
    if rest.len() > 0 && other.len() > 0 && rest[0] != other[0] {
        let at = path.len() as int;
        assert((path + rest)[at] == rest[0]);
        assert((path + other)[at] == other[0]);
    }
}

/// The hosts have different overrides.
pub proof fn law_each_host_has_its_own_override(directory: Seq<Seq<u8>>)
    ensures
        below(directory, override_name(HostKind::Zellij)) != below(
            directory,
            override_name(HostKind::Herdr),
        ),
        override_name(HostKind::Zellij) == "zellij.yml"@,
        override_name(HostKind::Herdr) == "herdr.yml"@,
{
    reveal_strlit("zellij.yml");
    reveal_strlit("herdr.yml");
    let zellij = override_name(HostKind::Zellij);
    let herdr = override_name(HostKind::Herdr);
    assert(zellij[0] != herdr[0]);
    encode_utf8_decode_utf8(zellij);
    encode_utf8_decode_utf8(herdr);
    assert(below(directory, zellij).last() != below(directory, herdr).last());
}

/// The extension of a name is what stands behind its last dot, and its stem what stands before it; a
/// name without a dot, or with one at its start alone, has no extension and is its own stem.
pub proof fn law_an_extension_stands_behind_the_last_dot(stem: Seq<u8>, extension: Seq<u8>)
    requires
        forall|i: int| 0 <= i < extension.len() ==> extension[i] != 46,
    ensures
        stem.len() > 0 ==> extension_of(stem.push(46) + extension) == Some(extension),
        stem.len() > 0 ==> stem_of(stem.push(46) + extension) == stem,
        extension_of(extension) is None,
        stem_of(extension) == extension,
        extension_of(seq![46u8] + extension) is None,
        stem_of(seq![46u8] + extension) == seq![46u8] + extension,
{
    let name = stem.push(46) + extension;
    lemma_dot_before(stem, extension);
    assert(name.skip(stem.len() as int + 1) =~= extension);
    assert(name.take(stem.len() as int) =~= stem);
    lemma_no_dot(extension);
    lemma_dot_before(Seq::empty(), extension);
    assert(Seq::<u8>::empty().push(46) =~= seq![46u8]);
}

proof fn lemma_dot_before(stem: Seq<u8>, extension: Seq<u8>)
    requires
        forall|i: int| 0 <= i < extension.len() ==> extension[i] != 46,
    ensures
        last_dot(stem.push(46) + extension) == stem.len(),
    decreases extension.len(),
{
    let name = stem.push(46) + extension;
    if extension.len() == 0 {
        assert(name.last() == 46);
    } else {
        assert(name.last() == extension.last());
        assert(name.drop_last() =~= stem.push(46) + extension.drop_last());
        lemma_dot_before(stem, extension.drop_last());
    }
}

proof fn lemma_no_dot(name: Seq<u8>)
    requires
        forall|i: int| 0 <= i < name.len() ==> name[i] != 46,
    ensures
        last_dot(name) == -1,
    decreases name.len(),
{
    if name.len() > 0 {
        lemma_no_dot(name.drop_last());
    }
}

/// Every file whose name ends in `.yml` behind something is an asset, wherever it stands; no directory
/// is one, and no file with another extension.
pub proof fn law_yml_files_are_assets(
    directory: Seq<Seq<u8>>,
    stem: Seq<u8>,
    extension: Seq<u8>,
    is_file: bool,
)
    requires
        stem.len() > 0,
        forall|i: int| 0 <= i < extension.len() ==> extension[i] != 46,
    ensures
        is_asset(directory.push(stem.push(46) + extension), is_file) <==> is_file && extension
            == seq![121u8, 109u8, 108u8],
        !is_asset(Seq::empty(), is_file),
{
    let name = stem.push(46) + extension;
    let path = directory.push(name);
    lemma_yml_bytes();
    law_an_extension_stands_behind_the_last_dot(stem, extension);
    assert(path.last() == name);
    if extension == seq![121u8, 109u8, 108u8] {
        assert(name.len() >= 5);
        assert(name != root_component());
        assert(seq![46u8].len() == 1);
        assert(seq![46u8, 46u8].len() == 2);
    }
}

} // verus!
