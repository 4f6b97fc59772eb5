use muxe_broker::config::{
    asset_name, is_watched, key_capabilities, AssetCatalog, AssetName, ConfigError, ConfigInputs,
    ConfigStore, KeyCapabilities, KeyboardCapabilities, ReloadSettings,
};
use muxe_broker::protocol::HostKind;
use muxe_broker::time::Duration;
use std::path::PathBuf;

fn path(text: &str) -> PathBuf {
    PathBuf::from(text)
}

fn settings() -> ReloadSettings {
    ReloadSettings {
        watch: true,
        debounce: Duration::from_millis(50),
    }
}

#[test]
fn host_inputs_track_optional_override_and_asset_changes() {
    let directory = path("/tmp/muxe-inputs");
    let base = directory.join("config.yml");
    let inputs = ConfigInputs::for_host(base.clone(), HostKind::Herdr).unwrap();
    let override_path = directory.join("herdr.yml");
    assert_eq!(inputs.host_override(), Some(&override_path));
    assert!(inputs.tracks_change(&base));
    assert!(inputs.tracks_change(&override_path));
    assert!(inputs.tracks_change(&directory.join("themes/default.yml")));
    assert!(!inputs.tracks_change(&directory.join("unrelated.yml")));

    let settings = ReloadSettings {
        watch: true,
        debounce: Duration::from_millis(200),
    };
    let before = inputs.watch_spec(settings);
    assert!(before.inputs.contains(&override_path));
    let after = inputs.watch_spec(settings);
    assert_eq!(after.inputs, before.inputs);
    assert_eq!(after.root, directory);
    assert_eq!(after.settings, settings);
}

#[test]
fn host_inputs_track_the_override_and_the_assets() {
    let inputs = ConfigInputs::for_host(path("/etc/muxe/config.yml"), HostKind::Herdr).unwrap();
    assert_eq!(inputs.base(), &path("/etc/muxe/config.yml"));
    assert_eq!(inputs.host_override(), Some(&path("/etc/muxe/herdr.yml")));
    assert_eq!(inputs.watch_root(), &path("/etc/muxe"));
    for concerned in [
        "/etc/muxe/config.yml",
        "/etc/muxe/herdr.yml",
        "/etc/muxe/themes",
        "/etc/muxe/themes/dark.yml",
        "/etc/muxe/color-schemes/deep/x.yml",
    ] {
        assert!(inputs.tracks_change(&path(concerned)), "{concerned}");
    }
    for foreign in [
        "/etc/muxe/zellij.yml",
        "/etc/muxe/themes-old/x.yml",
        "/etc/muxe",
        "/etc/other.yml",
    ] {
        assert!(!inputs.tracks_change(&path(foreign)), "{foreign}");
    }
    let zellij = ConfigInputs::for_host(path("config.yml"), HostKind::Zellij).unwrap();
    assert_eq!(zellij.host_override(), Some(&path("zellij.yml")));
}

#[test]
fn a_configuration_needs_a_directory_for_its_assets() {
    assert_eq!(
        ConfigInputs::for_host(path("/"), HostKind::Herdr),
        Err(ConfigError::AssetDirectory(path("/")))
    );
    let alone = ConfigInputs::base_only(path("/"));
    assert_eq!(alone.watch_root(), &path("."));
    assert_eq!(alone.host_override(), None);
    assert_eq!(
        ConfigInputs::base_only(path("/a/b.yml")).watch_root(),
        &path("/a")
    );
}

#[test]
fn what_is_watched_covers_what_is_tracked() {
    let inputs = ConfigInputs::for_host(path("/c/config.yml"), HostKind::Herdr).unwrap();
    let spec = inputs.watch_spec(settings());
    assert_eq!(spec.root, path("/c"));
    assert_eq!(
        spec.inputs,
        vec![
            path("/c/config.yml"),
            path("/c/themes"),
            path("/c/color-schemes"),
            path("/c/herdr.yml")
        ]
    );
    assert_eq!(spec.settings, settings());
    assert!(is_watched(&spec.inputs, &path("/c/themes/dark.yml")));
    assert!(is_watched(&spec.inputs, &path("/c")));
    assert!(!is_watched(&spec.inputs, &path("/c/unrelated.yml")));
    let plain = ConfigInputs::base_only(path("/c/config.yml")).watch_spec(settings());
    assert_eq!(plain.inputs.len(), 3);
}

#[test]
fn a_reload_never_goes_back() {
    let inputs = ConfigInputs::base_only(path("/c/config.yml"));
    let mut store = ConfigStore::new(inputs, 1, "first");
    let slow = store.begin_reload().unwrap();
    let fast = store.begin_reload().unwrap();
    assert_eq!((slow, fast), (2, 2));
    assert_eq!(store.finish_reload(fast, "fast"), 2);
    assert_eq!(store.finish_reload(slow, "slow"), 2);
    assert_eq!(store.config, "fast");
    let next = store.begin_reload().unwrap();
    assert_eq!(store.finish_reload(next, "third"), 3);
    assert_eq!((store.generation, store.config), (3, "third"));
    store.generation = u64::MAX;
    assert_eq!(store.begin_reload(), Err(ConfigError::GenerationExhausted));
}

#[test]
fn assets_are_yml_files_under_their_stem() {
    let name = |text: &str| Ok(Some(AssetName(text.to_owned())));
    assert_eq!(asset_name(&path("/t/dark.yml"), true), name("dark"));
    assert_eq!(asset_name(&path("/t/a.b.yml"), true), name("a.b"));
    assert_eq!(asset_name(&path("/t/..yml"), true), name("."));
    for other in ["/t/dark.yaml", "/t/dark", "/t/.yml", "/t/yml", "/t/dark.yml.", "/t/.."] {
        assert_eq!(asset_name(&path(other), true), Ok(None), "{other}");
    }
    assert_eq!(asset_name(&path("/t/dark.yml"), false), Ok(None));
}

#[test]
fn an_asset_has_a_name_of_its_own() {
    let mut catalog = AssetCatalog::new();
    assert_eq!(catalog.insert(AssetName("dark".to_owned()), 1), Ok(()));
    assert_eq!(catalog.insert(AssetName("light".to_owned()), 2), Ok(()));
    assert_eq!(
        catalog.insert(AssetName("dark".to_owned()), 3),
        Err(ConfigError::DuplicateAsset("dark".to_owned()))
    );
    assert_eq!(catalog.get(&AssetName("light".to_owned())), Some(&2));
    assert_eq!(catalog.get(&AssetName("blue".to_owned())), None);
}

#[test]
fn the_keyboard_is_asked_for_what_it_can_do() {
    assert_eq!(
        key_capabilities(KeyboardCapabilities {
            kitty_event_types: true,
            kitty_alternate_keys: false,
            kitty_all_keys_as_escape_codes: true,
        }),
        KeyCapabilities {
            event_types: true,
            alternate_keys: false,
            all_keys_as_escape_codes: true,
        }
    );
}
