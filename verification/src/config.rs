//! Which files make up the configuration, which changes concern it, and which generation is in force.
pub mod laws;

use crate::path::{
    clone_path, has_file_name, is_plain_name, join_name, parent_path, path_components,
    path_file_name, path_of, path_starts_with, root_component, same_path, text_components,
    text_of_bytes,
};
use crate::protocol::HostKind;
use crate::table::{Key, Table};
use crate::time::Duration;
use std::path::PathBuf;
use vstd::prelude::*;
use vstd::utf8::{encode_utf8, valid_utf8};

verus! {

/// Why a configuration cannot be had.
#[derive(Debug, PartialEq, Eq)]
pub enum ConfigError {
    /// The configuration file is in no directory.
    AssetDirectory(PathBuf),
    /// The name of an asset is no text.
    AssetName(PathBuf),
    DuplicateAsset(String),
    GenerationExhausted,
}

/// The files that make up one configuration.
#[derive(Debug, PartialEq, Eq)]
pub struct ConfigInputs {
    base: PathBuf,
    host_override: Option<PathBuf>,
    directory: PathBuf,
}

/// The files of a configuration, by the components of their paths.
pub struct InputsModel {
    pub base: Seq<Seq<u8>>,
    pub host_override: Option<Seq<Seq<u8>>>,
    pub directory: Seq<Seq<u8>>,
}

impl View for ConfigInputs {
    type V = InputsModel;

    closed spec fn view(&self) -> InputsModel {
        InputsModel {
            base: path_components(self.base),
            host_override: match self.host_override {
                Some(path) => Some(path_components(path)),
                None => None,
            },
            directory: path_components(self.directory),
        }
    }
}

/// The name of the file in which a host overrides the configuration.
pub open spec fn override_name(host: HostKind) -> Seq<char> {
    match host {
        HostKind::Zellij => "zellij.yml"@,
        HostKind::Herdr => "herdr.yml"@,
    }
}

/// A path is in a directory: it has one component at least, and the last one is not the root.
pub open spec fn is_in_directory(components: Seq<Seq<u8>>) -> bool {
    components.len() > 0 && components.last() != root_component()
}

/// A component of a directory, below it.
pub open spec fn below(directory: Seq<Seq<u8>>, name: Seq<char>) -> Seq<Seq<u8>> {
    directory.push(encode_utf8(name))
}

impl InputsModel {
    /// A change at this path concerns the configuration: it is one of its files, or one of the asset
    /// directories, or is in one of these.
    pub open spec fn tracks(self, changed: Seq<Seq<u8>>) -> bool {
        ||| changed == self.base
        ||| self.host_override == Some(changed)
        ||| below(self.directory, "themes"@).is_prefix_of(changed)
        ||| below(self.directory, "color-schemes"@).is_prefix_of(changed)
    }

    /// The files and directories that are watched, in order.
    pub open spec fn watched(self) -> Seq<Seq<Seq<u8>>> {
        let always = seq![
            self.base,
            below(self.directory, "themes"@),
            below(self.directory, "color-schemes"@),
        ];
        match self.host_override {
            Some(path) => always.push(path),
            None => always,
        }
    }
}

/// The components of each of several paths.
pub open spec fn components_of(paths: Seq<PathBuf>) -> Seq<Seq<Seq<u8>>> {
    paths.map_values(|path: PathBuf| path_components(path))
}

/// How changes of the configuration are followed.
#[derive(Clone, Copy, Debug, PartialEq, Eq, Structural)]
pub struct ReloadSettings {
    pub watch: bool,
    pub debounce: Duration,
}

/// What is watched for changes of the configuration.
#[derive(Debug, PartialEq, Eq)]
pub struct ConfigWatchSpec {
    pub root: PathBuf,
    pub inputs: Vec<PathBuf>,
    pub settings: ReloadSettings,
}

proof fn lemma_names_are_plain()
    ensures
        is_plain_name("themes"@),
        is_plain_name("color-schemes"@),
        is_plain_name("zellij.yml"@),
        is_plain_name("herdr.yml"@),
{
    reveal_strlit("themes");
    reveal_strlit("color-schemes");
    reveal_strlit("zellij.yml");
    reveal_strlit("herdr.yml");
}

impl ConfigInputs {
    /// The path of the configuration file.
    pub closed spec fn base_path(self) -> PathBuf {
        self.base
    }

    /// The path of the host's override.
    pub closed spec fn override_path(self) -> Option<PathBuf> {
        self.host_override
    }

    /// The directory of all of them.
    pub closed spec fn directory_path(self) -> PathBuf {
        self.directory
    }

    /// The files of a host's configuration: the configuration file, and the host's override beside it.
    pub fn for_host(base: PathBuf, host: HostKind) -> (r: Result<Self, ConfigError>)
        ensures
            if is_in_directory(path_components(base)) {
                let directory = path_components(base).drop_last();
                r matches Ok(inputs) && inputs.base_path() == base && inputs@ == (InputsModel {
                    base: path_components(base),
                    host_override: Some(below(directory, override_name(host))),
                    directory,
                })
            } else {
                r == Err::<Self, ConfigError>(ConfigError::AssetDirectory(base))
            },
    {
        proof {
            lemma_names_are_plain();
        }
        let directory = match parent_path(&base) {
            Some(directory) => directory,
            None => {
                return Err(ConfigError::AssetDirectory(base));
            },
        };
        let name = match host {
            HostKind::Zellij => "zellij.yml",
            HostKind::Herdr => "herdr.yml",
        };
        let host_override = Some(join_name(&directory, name));
        Ok(ConfigInputs { base, host_override, directory })
    }

    /// The files of a configuration without an override.
    pub fn base_only(base: PathBuf) -> (r: Self)
        ensures
            r.base_path() == base,
            r@ == (InputsModel {
                base: path_components(base),
                host_override: None,
                directory: if is_in_directory(path_components(base)) {
                    path_components(base).drop_last()
                } else {
                    text_components("."@)
                },
            }),
    {
        let directory = match parent_path(&base) {
            Some(directory) => directory,
            None => path_of("."),
        };
        ConfigInputs { base, host_override: None, directory }
    }

    /// The path of the configuration file.
    pub fn base(&self) -> (r: &PathBuf)
        ensures
            *r == self.base_path(),
            path_components(*r) == self@.base,
    {
        &self.base
    }

    /// Where the host may override the configuration. There may be no file at this path.
    pub fn host_override(&self) -> (r: Option<&PathBuf>)
        ensures
            match r {
                Some(path) => self.override_path() == Some(*path) && self@.host_override == Some(
                    path_components(*path),
                ),
                None => self.override_path() is None && self@.host_override is None,
            },
    {
        match &self.host_override {
            Some(path) => Some(path),
            None => None,
        }
    }

    /// The directory that is watched.
    pub fn watch_root(&self) -> (r: &PathBuf)
        ensures
            *r == self.directory_path(),
            path_components(*r) == self@.directory,
    {
        &self.directory
    }

    /// Whether a change at this path concerns the configuration.
    pub fn tracks_change(&self, changed: &PathBuf) -> (r: bool)
        ensures
            r == self@.tracks(path_components(*changed)),
    {
        proof {
            lemma_names_are_plain();
        }
        if same_path(changed, &self.base) {
            return true;
        }
        match &self.host_override {
            Some(path) => {
                if same_path(path, changed) {
                    return true;
                }
            },
            None => {},
        }
        let themes = join_name(&self.directory, "themes");
        let schemes = join_name(&self.directory, "color-schemes");
        path_starts_with(changed, &themes) || path_starts_with(changed, &schemes)
    }

    /// What is watched for changes.
    pub fn watch_spec(&self, settings: ReloadSettings) -> (r: ConfigWatchSpec)
        ensures
            r.root == self.directory_path(),
            components_of(r.inputs@) == self@.watched(),
            r.settings == settings,
    {
        proof {
            lemma_names_are_plain();
        }
        let mut inputs: Vec<PathBuf> = Vec::new();
        inputs.push(clone_path(&self.base));
        inputs.push(join_name(&self.directory, "themes"));
        inputs.push(join_name(&self.directory, "color-schemes"));
        match &self.host_override {
            Some(path) => {
                inputs.push(clone_path(path));
            },
            None => {},
        }
        assert(components_of(inputs@) =~= self@.watched());
        ConfigWatchSpec { root: clone_path(&self.directory), inputs, settings }
    }
}

/// A change at one path concerns a watched one: either is the other, or is above it.
pub open spec fn concerns(input: Seq<Seq<u8>>, changed: Seq<Seq<u8>>) -> bool {
    input.is_prefix_of(changed) || changed.is_prefix_of(input)
}

/// Whether a change at this path concerns anything that is watched.
pub fn is_watched(inputs: &Vec<PathBuf>, changed: &PathBuf) -> (r: bool)
    ensures
        r == (exists|i: int|
            0 <= i < inputs@.len() && concerns(
                path_components(#[trigger] inputs@[i]),
                path_components(*changed),
            )),
{
    let mut i: usize = 0;
    while i < inputs.len()
        invariant
            i <= inputs@.len(),
            forall|j: int|
                0 <= j < i ==> !concerns(
                    path_components(#[trigger] inputs@[j]),
                    path_components(*changed),
                ),
        decreases inputs@.len() - i,
    {
        if path_starts_with(changed, &inputs[i]) || path_starts_with(&inputs[i], changed) {
            return true;
        }
        i = i + 1;
    }
    false
}

/// A change that concerns the configuration is seen: what is tracked is watched.
pub proof fn law_tracked_changes_are_watched(inputs: InputsModel, changed: Seq<Seq<u8>>)
    requires
        inputs.tracks(changed),
    ensures
        exists|i: int|
            0 <= i < inputs.watched().len() && concerns(#[trigger] inputs.watched()[i], changed),
{
    let watched = inputs.watched();
    if changed == inputs.base {
        assert(concerns(watched[0], changed));
    } else if inputs.host_override == Some(changed) {
        assert(concerns(watched[3], changed));
    } else if below(inputs.directory, "themes"@).is_prefix_of(changed) {
        assert(concerns(watched[1], changed));
    } else {
        assert(concerns(watched[2], changed));
    }
}

/// The configuration in force. A session keeps the one that it started with.
#[derive(Debug, PartialEq, Eq)]
pub struct ConfigStore<C> {
    pub inputs: ConfigInputs,
    pub generation: u64,
    pub config: C,
}

impl<C> ConfigStore<C> {
    /// A store with a first configuration.
    pub fn new(inputs: ConfigInputs, generation: u64, config: C) -> (r: Self)
        ensures
            r == (ConfigStore { inputs, generation, config }),
    {
        ConfigStore { inputs, generation, config }
    }

    /// The generation that a reload compiles.
    pub fn begin_reload(&self) -> (r: Result<u64, ConfigError>)
        ensures
            r == if self.generation == u64::MAX {
                Err::<u64, ConfigError>(ConfigError::GenerationExhausted)
            } else {
                Ok((self.generation + 1) as u64)
            },
            r matches Ok(next) ==> next > self.generation && next - self.generation == 1,
            r is Ok <==> self.generation < u64::MAX,
    {
        match self.generation.checked_add(1) {
            Some(next) => Ok(next),
            None => Err(ConfigError::GenerationExhausted),
        }
    }

    /// Puts a compiled configuration in force, unless one of its generation or a later one is.
    pub fn finish_reload(&mut self, next: u64, candidate: C) -> (r: u64)
        ensures
            if old(self).generation >= next {
                *final(self) == *old(self) && r == old(self).generation
            } else {
                r == next && *final(self) == (ConfigStore {
                    inputs: old(self).inputs,
                    generation: next,
                    config: candidate,
                })
            },
            final(self).generation >= old(self).generation,
            r == final(self).generation,
            next > old(self).generation ==> final(self).config == candidate,
            next <= old(self).generation ==> final(self).config == old(self).config,
            r >= next,
            final(self).inputs == old(self).inputs,
    {
        if self.generation >= next {
            return self.generation;
        }
        self.generation = next;
        self.config = candidate;
        next
    }
}

/// The name of an asset.
#[derive(Debug, PartialEq, Eq)]
pub struct AssetName(pub String);

impl View for AssetName {
    type V = Seq<char>;

    open spec fn view(&self) -> Seq<char> {
        self.0@
    }
}

impl Key for AssetName {
    fn same(&self, other: &Self) -> (r: bool) {
        self.0 == other.0
    }

    fn duplicate(&self) -> (r: Self) {
        AssetName(self.0.clone())
    }
}

/// Where the last dot of a name is, or -1.
pub open spec fn last_dot(name: Seq<u8>) -> int
    decreases name.len(),
{
    if name.len() == 0 {
        -1
    } else if name.last() == 46 {
        name.len() - 1
    } else {
        last_dot(name.drop_last())
    }
}

/// The extension of a file's name: what stands behind the last dot. A dot at the start makes none.
pub open spec fn extension_of(name: Seq<u8>) -> Option<Seq<u8>> {
    if last_dot(name) <= 0 {
        None
    } else {
        Some(name.skip(last_dot(name) + 1))
    }
}

/// A file's name without its extension.
pub open spec fn stem_of(name: Seq<u8>) -> Seq<u8> {
    if last_dot(name) <= 0 {
        name
    } else {
        name.take(last_dot(name))
    }
}

/// A file that is an asset, by its path.
pub open spec fn is_asset(components: Seq<Seq<u8>>, is_file: bool) -> bool {
    is_file && has_file_name(components) && extension_of(components.last()) == Some(
        encode_utf8("yml"@),
    )
}

proof fn lemma_last_dot(name: Seq<u8>, end: int)
    requires
        0 <= end <= name.len(),
        forall|i: int| end <= i < name.len() ==> name[i] != 46,
    ensures
        last_dot(name) == last_dot(name.take(end)),
        last_dot(name.take(end)) < end,
    decreases name.len(),
{
    if end < name.len() {
        assert(name.drop_last().take(end) =~= name.take(end));
        lemma_last_dot(name.drop_last(), end);
    } else {
        assert(name.take(end) =~= name);
        lemma_last_dot_is_inside(name);
    }
}

proof fn lemma_last_dot_is_inside(name: Seq<u8>)
    ensures
        -1 <= last_dot(name) < name.len(),
    decreases name.len(),
{
    if name.len() > 0 && name.last() != 46 {
        lemma_last_dot_is_inside(name.drop_last());
    }
}

/// The stem of a name that ends in `.yml`.
fn yml_stem(name: &Vec<u8>) -> (r: Option<Vec<u8>>)
    ensures
        r is Some <==> extension_of(name@) == Some(encode_utf8("yml"@)),
        r matches Some(stem) ==> stem@ == stem_of(name@),
{
    proof {
        reveal_strlit("yml");
        lemma_yml_bytes();
    }
    let n: usize = name.len();
    let mut end: usize = n;
    while end > 0 && name[end - 1] != 46
        invariant
            end <= n == name@.len(),
            forall|i: int| end <= i < n ==> name@[i] != 46,
        decreases end,
    {
        end = end - 1;
    }
    proof {
        lemma_last_dot(name@, end as int);
        if end > 0 {
            assert(name@.take(end as int).last() == 46);
        }
    }
    if end < 2 {
        return None;
    }
    let ghost ext = name@.skip(end as int);
    if n - end != 3 || name[end] != 121 || name[end + 1] != 109 || name[end + 2] != 108 {
        proof {
            if ext =~= seq![121u8, 109u8, 108u8] {
                assert(ext[0] == 121 && ext[1] == 109 && ext[2] == 108);
                assert(name@[end as int] == ext[0]);
                assert(name@[end as int + 1] == ext[1]);
                assert(name@[end as int + 2] == ext[2]);
            }
        }
        return None;
    }
    assert(ext =~= seq![121u8, 109u8, 108u8]);
    let mut stem: Vec<u8> = Vec::new();
    let mut i: usize = 0;
    while i < end - 1
        invariant
            i <= end - 1,
            end <= name@.len(),
            stem@ == name@.take(i as int),
        decreases end - 1 - i,
    {
        stem.push(name[i]);
        i = i + 1;
        assert(stem@ =~= name@.take(i as int));
    }
    Some(stem)
}

/// `yml` is three bytes.
proof fn lemma_yml_bytes()
    ensures
        encode_utf8("yml"@) == seq![121u8, 109u8, 108u8],
{
    reveal_strlit("yml");
    let text = "yml"@;
    assert(text =~= seq!['y', 'm', 'l']);
    vstd::utf8::is_ascii_chars_encode_utf8(text);
    assert(encode_utf8(text) =~= seq![121u8, 109u8, 108u8]);
}

/// The assets of one kind, each under its name.
pub struct AssetCatalog<D> {
    documents: Table<AssetName, D>,
}

impl<D> View for AssetCatalog<D> {
    type V = Map<Seq<char>, D>;

    closed spec fn view(&self) -> Map<Seq<char>, D> {
        self.documents@
    }
}

/// The name under which a file is read as an asset. Files that are none are passed over; a name that is
/// no text is an error.
pub fn asset_name(path: &PathBuf, is_file: bool) -> (r: Result<Option<AssetName>, ConfigError>)
    ensures
        ({
            let components = path_components(*path);
            if !is_asset(components, is_file) {
                r == Ok::<Option<AssetName>, ConfigError>(None)
            } else if valid_utf8(stem_of(components.last())) {
                r matches Ok(Some(name)) && encode_utf8(name@) == stem_of(components.last())
            } else {
                r == Err::<Option<AssetName>, ConfigError>(ConfigError::AssetName(*path))
            }
        }),
{
    if !is_file {
        return Ok(None);
    }
    match path_file_name(path) {
        None => Ok(None),
        Some(name) => match yml_stem(&name) {
            None => Ok(None),
            Some(stem) => match text_of_bytes(stem) {
                Some(text) => Ok(Some(AssetName(text))),
                None => Err(ConfigError::AssetName(clone_path(path))),
            },
        },
    }
}

impl<D> AssetCatalog<D> {
    pub fn new() -> (r: Self)
        ensures
            r@ == Map::<Seq<char>, D>::empty(),
    {
        AssetCatalog { documents: Table::new() }
    }

    /// Adds a document. A name that is taken already is an error.
    pub fn insert(&mut self, name: AssetName, document: D) -> (r: Result<(), ConfigError>)
        ensures
            final(self)@ == old(self)@.insert(name@, document),
            if old(self)@.contains_key(name@) {
                r matches Err(ConfigError::DuplicateAsset(text)) && text@ == name@
            } else {
                r == Ok::<(), ConfigError>(())
            },
            r is Err <==> old(self)@.contains_key(name@),
    {
        let text = name.0.clone();
        match self.documents.insert(name, document) {
            Some(_) => Err(ConfigError::DuplicateAsset(text)),
            None => Ok(()),
        }
    }

    pub fn get(&self, name: &AssetName) -> (r: Option<&D>)
        ensures
            r == (if self@.contains_key(name@) {
                Some(&self@[name@])
            } else {
                None
            }),
    {
        self.documents.get(name)
    }
}

/// What the host's keyboard can do.
#[derive(Clone, Copy, Debug, PartialEq, Eq, Structural)]
pub struct KeyboardCapabilities {
    pub kitty_event_types: bool,
    pub kitty_alternate_keys: bool,
    pub kitty_all_keys_as_escape_codes: bool,
}

/// What a configuration may ask of the keyboard.
#[derive(Clone, Copy, Debug, PartialEq, Eq, Structural)]
pub struct KeyCapabilities {
    pub event_types: bool,
    pub alternate_keys: bool,
    pub all_keys_as_escape_codes: bool,
}

/// What a configuration may ask of the host's keyboard.
pub fn key_capabilities(keyboard: KeyboardCapabilities) -> (r: KeyCapabilities)
    ensures
        r == (KeyCapabilities {
            event_types: keyboard.kitty_event_types,
            alternate_keys: keyboard.kitty_alternate_keys,
            all_keys_as_escape_codes: keyboard.kitty_all_keys_as_escape_codes,
        }),
        r.event_types <==> keyboard.kitty_event_types,
        r.alternate_keys <==> keyboard.kitty_alternate_keys,
        r.all_keys_as_escape_codes <==> keyboard.kitty_all_keys_as_escape_codes,
{
    KeyCapabilities {
        event_types: keyboard.kitty_event_types,
        alternate_keys: keyboard.kitty_alternate_keys,
        all_keys_as_escape_codes: keyboard.kitty_all_keys_as_escape_codes,
    }
}

} // verus!
