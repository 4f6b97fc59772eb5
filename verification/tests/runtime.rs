use muxe_broker::protocol::HostKind;
use muxe_broker::runtime::{
    parse_pid, runtime_base, validate_owner_directory, validate_owner_file, ConnectOutcome,
    CreateOutcome, FileKind, LockStep, Metadata, ProbeOutcome, RuntimeEndpoint, RuntimeError,
    OWNER_DIRECTORY_MODE, OWNER_FILE_MODE,
};
use std::path::PathBuf;

fn endpoint(host: HostKind, key: &str) -> RuntimeEndpoint {
    RuntimeEndpoint::in_runtime_dir(PathBuf::from("/run/user/1"), host, key).unwrap()
}

fn metadata(kind: FileKind, uid: u32, mode: u32) -> Metadata {
    Metadata { kind, uid, mode }
}

#[test]
fn an_endpoint_is_named_by_the_digest_of_its_key() {
    // The SHA-256 digest of "abc" begins with ba7816bf8f01cfea4141.
    assert_eq!(
        endpoint(HostKind::Zellij, "abc").socket(),
        &PathBuf::from("/run/user/1/muxe/b-z-ba7816bf8f01cfea4141.sock")
    );
    assert_eq!(
        endpoint(HostKind::Herdr, "abc").startup_lock(),
        &PathBuf::from("/run/user/1/muxe/b-h-ba7816bf8f01cfea4141.lock")
    );
    assert_eq!(
        endpoint(HostKind::Herdr, "abc").directory(),
        &PathBuf::from("/run/user/1/muxe")
    );
    let base = PathBuf::from("/run/user/1000");
    let keyless = RuntimeEndpoint::in_runtime_dir(base, HostKind::Herdr, "").unwrap();
    assert_eq!(
        keyless.socket(),
        &PathBuf::from("/run/user/1000/muxe/b-h-e3b0c44298fc1c149afb.sock")
    );
}

#[test]
fn endpoints_are_stable_and_distinct() {
    let first = endpoint(HostKind::Herdr, "/tmp/herdr.sock");
    let second = endpoint(HostKind::Herdr, "/tmp/herdr.sock");
    let different = endpoint(HostKind::Zellij, "session");
    assert_eq!(first.socket(), second.socket());
    assert_ne!(first.socket(), different.socket());
    assert_ne!(
        endpoint(HostKind::Herdr, "session").socket(),
        different.socket()
    );
}

#[test]
fn a_socket_path_may_take_a_hundred_and_three_bytes() {
    // "/muxe/" and the file's name take 35 bytes.
    let fits = "/".to_owned() + &"d".repeat(103 - 35 - 1);
    let made =
        RuntimeEndpoint::in_runtime_dir(PathBuf::from(&fits), HostKind::Herdr, "k").unwrap();
    assert_eq!(made.socket().to_str().unwrap().len(), 103);
    let long = fits + "d";
    assert!(matches!(
        RuntimeEndpoint::in_runtime_dir(PathBuf::from(&long), HostKind::Herdr, "k"),
        Err(RuntimeError::SocketPathTooLong(path)) if path.to_str().unwrap().len() == 104
    ));
}

#[test]
fn the_base_is_the_runtime_directory_or_a_temporary_one() {
    let temporary = PathBuf::from("/tmp");
    assert_eq!(
        runtime_base(Some(PathBuf::from("/run/user/7")), &temporary, 7),
        PathBuf::from("/run/user/7")
    );
    assert_eq!(
        runtime_base(None, &temporary, 1000),
        PathBuf::from("/tmp/muxe-1000")
    );
}

#[test]
fn only_files_of_the_owner_alone_pass() {
    let path = PathBuf::from("/run/x");
    let directory = metadata(FileKind::Directory, 5, 0o40000 | OWNER_DIRECTORY_MODE);
    let file = metadata(FileKind::Regular, 5, 0o100000 | OWNER_FILE_MODE);
    assert_eq!(validate_owner_directory(&path, directory, 5), Ok(()));
    assert_eq!(validate_owner_file(&path, file, 5), Ok(()));
    assert_eq!(
        validate_owner_directory(&path, file, 5),
        Err(RuntimeError::NotDirectory(path.clone()))
    );
    assert_eq!(
        validate_owner_file(&path, directory, 5),
        Err(RuntimeError::NotRegularFile(path.clone()))
    );
    assert_eq!(
        validate_owner_file(&path, file, 6),
        Err(RuntimeError::WrongOwner {
            path: path.clone(),
            expected: 6,
            actual: 5
        })
    );
    assert_eq!(
        validate_owner_file(&path, metadata(FileKind::Regular, 5, 0o100640), 5),
        Err(RuntimeError::InsecurePermissions {
            path: path.clone(),
            mode: 0o640,
            expected: OWNER_FILE_MODE
        })
    );
    assert_eq!(
        validate_owner_directory(&path, metadata(FileKind::Directory, 5, 0o40701), 5),
        Err(RuntimeError::InsecurePermissions {
            path,
            mode: 0o701,
            expected: OWNER_DIRECTORY_MODE
        })
    );
}

#[test]
fn a_missing_directory_is_made_and_a_foreign_one_refused() {
    let endpoint = endpoint(HostKind::Herdr, "k");
    assert_eq!(endpoint.ensure_owner_directory(None, 5), Ok(true));
    assert_eq!(
        endpoint.ensure_owner_directory(Some(metadata(FileKind::Directory, 5, 0o700)), 5),
        Ok(false)
    );
    assert_eq!(
        endpoint.ensure_owner_directory(Some(metadata(FileKind::Other, 5, 0o700)), 5),
        Err(RuntimeError::NotDirectory(endpoint.directory().clone()))
    );
}

#[test]
fn a_lock_is_looked_at_once() {
    let endpoint = endpoint(HostKind::Herdr, "k");
    assert_eq!(
        endpoint.lock_attempt(CreateOutcome::Created, false),
        LockStep::Held
    );
    let taken = || CreateOutcome::Exists("File exists".to_owned());
    assert_eq!(endpoint.lock_attempt(taken(), false), LockStep::Inspect);
    let io = LockStep::Refuse(RuntimeError::Io {
        path: endpoint.startup_lock().clone(),
        source: "File exists".to_owned(),
    });
    assert_eq!(endpoint.lock_attempt(taken(), true), io);
    assert_eq!(
        endpoint.lock_attempt(CreateOutcome::Failed("File exists".to_owned()), false),
        io
    );
}

#[test]
fn a_lock_names_its_process_among_white_space() {
    assert_eq!(parse_pid("42\n"), Some(42));
    assert_eq!(parse_pid(" \t\u{3000}+7\r\n"), Some(7));
    assert_eq!(parse_pid("-12"), Some(-12));
    assert_eq!(parse_pid("0000000000000000001"), Some(1));
    assert_eq!(parse_pid("2147483647"), Some(i32::MAX));
    assert_eq!(parse_pid("-2147483648"), Some(i32::MIN));
    for wrong in [
        "", " ", "+", "-", "2147483648", "-2147483649", "4 2", "x", "99999999999999999999999", "1x",
        "--1",
    ] {
        assert_eq!(parse_pid(wrong), None, "{wrong:?}");
        assert_eq!(wrong.trim().parse::<i32>().ok(), None);
    }
}

#[test]
fn a_stale_lock_goes_and_a_live_one_stays() {
    let endpoint = endpoint(HostKind::Herdr, "k");
    let file = metadata(FileKind::Regular, 5, 0o600);
    assert_eq!(endpoint.lock_holder(file, 5, "77\n"), Ok(77));
    assert_eq!(
        endpoint.lock_holder(file, 5, "nobody"),
        Err(RuntimeError::InvalidLock(endpoint.startup_lock().clone()))
    );
    assert!(matches!(
        endpoint.lock_holder(file, 6, "77"),
        Err(RuntimeError::WrongOwner { .. })
    ));
    assert_eq!(
        RuntimeEndpoint::lock_is_stale(77, ProbeOutcome::NoSuchProcess),
        Ok(())
    );
    for probe in [ProbeOutcome::Alive, ProbeOutcome::NotPermitted] {
        assert_eq!(
            RuntimeEndpoint::lock_is_stale(77, probe),
            Err(RuntimeError::StartupInProgress(77))
        );
    }
    assert_eq!(
        RuntimeEndpoint::lock_is_stale(77, ProbeOutcome::Failed("EINVAL".to_owned())),
        Err(RuntimeError::ProcessProbe {
            pid: 77,
            source: "EINVAL".to_owned()
        })
    );
}

#[test]
fn a_socket_is_removed_only_after_a_refused_connect() {
    let endpoint = endpoint(HostKind::Herdr, "server");
    let socket = metadata(FileKind::Socket, 5, 0o600);
    assert_eq!(endpoint.inspect_socket(None, 5), Ok(false));
    assert_eq!(endpoint.inspect_socket(Some(socket), 5), Ok(true));
    assert_eq!(
        endpoint.inspect_socket(Some(metadata(FileKind::Regular, 5, 0o600)), 5),
        Err(RuntimeError::UnexpectedEndpointFile(
            endpoint.socket().clone()
        ))
    );
    assert!(matches!(
        endpoint.inspect_socket(Some(metadata(FileKind::Socket, 5, 0o666)), 5),
        Err(RuntimeError::InsecurePermissions { mode: 0o666, .. })
    ));
    assert_eq!(endpoint.socket_is_stale(ConnectOutcome::Refused), Ok(()));
    assert_eq!(endpoint.socket_is_stale(ConnectOutcome::NotFound), Ok(()));
    assert_eq!(
        endpoint.socket_is_stale(ConnectOutcome::Connected),
        Err(RuntimeError::LiveSocket(endpoint.socket().clone()))
    );
    assert!(matches!(
        endpoint.socket_is_stale(ConnectOutcome::Failed("EACCES".to_owned())),
        Err(RuntimeError::Io { source, .. }) if source == "EACCES"
    ));
    assert_eq!(endpoint.may_bind(false), Ok(()));
    assert_eq!(
        endpoint.may_bind(true),
        Err(RuntimeError::SocketExists(endpoint.socket().clone()))
    );
}
