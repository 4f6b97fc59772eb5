use muxe_broker::ids::HandoffId;
use muxe_broker::spawn::{Argument, ServeHerdrSpawn, ServeZellijSpawn, SpawnArgvError};
use std::path::PathBuf;

fn herdr() -> ServeHerdrSpawn {
    ServeHerdrSpawn {
        binary: PathBuf::from("/bin/muxe"),
        socket: PathBuf::from("/run/b.sock"),
        herdr_binary: PathBuf::from("/bin/herdr"),
        herdr_socket: PathBuf::from("/run/herdr.sock"),
        config: PathBuf::from("/etc/muxe.yml"),
        cache_dir: PathBuf::from("/var/cache"),
        handoff: None,
        activation_journal: None,
    }
}

fn words(list: &[Argument]) -> Vec<String> {
    list.iter()
        .map(|argument| match argument {
            Argument::Text(text) => text.clone(),
            Argument::Path(path) => path.to_str().unwrap().to_owned(),
        })
        .collect()
}

#[test]
fn an_old_broker_has_the_fixed_arguments() {
    assert_eq!(
        words(&herdr().argv().unwrap()),
        vec![
            "broker",
            "serve-herdr",
            "--socket",
            "/run/b.sock",
            "--herdr-binary",
            "/bin/herdr",
            "--herdr-socket",
            "/run/herdr.sock",
            "--config",
            "/etc/muxe.yml",
            "--cache-dir",
            "/var/cache",
        ]
    );
}

#[test]
fn a_target_has_its_handoff_and_its_journal_behind() {
    let mut spawn = herdr();
    let mut bytes = [0u8; 16];
    bytes[0] = 0xde;
    bytes[1] = 0xad;
    bytes[15] = 0x0f;
    spawn.handoff = Some(HandoffId(bytes));
    spawn.activation_journal = Some(PathBuf::from("/var/journal"));
    let words = words(&spawn.argv().unwrap());
    assert_eq!(words.len(), 16);
    assert_eq!(words[12], "--handoff");
    assert_eq!(words[13], "dead000000000000000000000000000f");
    assert_eq!(words[14], "--activation-journal");
    assert_eq!(words[15], "/var/journal");
}

#[test]
fn half_of_a_target_is_refused() {
    let mut spawn = herdr();
    spawn.handoff = Some(HandoffId([1; 16]));
    assert_eq!(spawn.argv(), Err(SpawnArgvError::HalfHandoff));
    spawn.handoff = None;
    spawn.activation_journal = Some(PathBuf::from("/var/journal"));
    assert_eq!(spawn.argv(), Err(SpawnArgvError::HalfHandoff));
    assert_eq!(
        SpawnArgvError::HalfHandoff.message(),
        "broker target startup requires both --handoff and --activation-journal"
    );
}

#[test]
fn a_zellij_broker_names_its_session() {
    let spawn = ServeZellijSpawn {
        binary: PathBuf::from("/bin/muxe"),
        socket: PathBuf::from("/run/b.sock"),
        zellij_exe: PathBuf::from("/bin/zellij"),
        session: "main session".to_owned(),
        config: PathBuf::from("/etc/muxe.yml"),
        cache_dir: PathBuf::from("/var/cache"),
        handoff: None,
        activation_journal: None,
    };
    assert_eq!(
        words(&spawn.argv().unwrap()),
        vec![
            "broker",
            "serve-zellij",
            "--socket",
            "/run/b.sock",
            "--zellij-exe",
            "/bin/zellij",
            "--session",
            "main session",
            "--config",
            "/etc/muxe.yml",
            "--cache-dir",
            "/var/cache",
        ]
    );
}
