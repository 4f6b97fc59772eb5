//! Where a broker listens, and who may be there: the endpoint's paths, the owner-only files, the
//! startup lock and the socket that another broker has left.
pub mod laws;

use crate::digest::{hex_lower, hex_text, sha256, sha256_digest};
use crate::path::{
    clone_path, is_plain_name, join_name, path_byte_length, path_components, path_length,
};
use crate::protocol::HostKind;
use crate::text::{decimal, decimal_text};
use std::path::PathBuf;
use vstd::prelude::*;
use vstd::string::{StrSliceExecFns, StringExecFns};
use vstd::utf8::{encode_utf8, is_ascii_chars, is_ascii_chars_encode_utf8};

verus! {

/// The mode of a directory that is its owner's alone.
pub const OWNER_DIRECTORY_MODE: u32 = 0o700;

/// The mode of a file that is its owner's alone.
pub const OWNER_FILE_MODE: u32 = 0o600;

/// How many bytes the path of a socket may take.
pub const MAX_SOCKET_PATH_BYTES: usize = 103;

/// What the names of the runtime directory and of a broker's socket take together, in bytes.
pub const ENDPOINT_NAME_BYTES: usize = 33;

/// Why a broker cannot have its endpoint.
#[derive(Debug, PartialEq, Eq)]
#[allow(inconsistent_fields)]
pub enum RuntimeError {
    SocketPathTooLong(PathBuf),
    /// The operating system refused; its text is given.
    Io { path: PathBuf, source: String },
    NotDirectory(PathBuf),
    NotRegularFile(PathBuf),
    WrongOwner { path: PathBuf, expected: u32, actual: u32 },
    InsecurePermissions { path: PathBuf, mode: u32, expected: u32 },
    SocketExists(PathBuf),
    LiveSocket(PathBuf),
    UnexpectedEndpointFile(PathBuf),
    InvalidLock(PathBuf),
    StartupInProgress(i32),
    /// The process could not be probed; the operating system's text is given.
    ProcessProbe { pid: i32, source: String },
}

/// What kind of file stands at a path.
#[derive(Clone, Copy, Debug, PartialEq, Eq, Structural)]
pub enum FileKind {
    Directory,
    Regular,
    Socket,
    Other,
}

/// What is known of a file without following links.
#[derive(Clone, Copy, Debug, PartialEq, Eq, Structural)]
pub struct Metadata {
    pub kind: FileKind,
    pub uid: u32,
    pub mode: u32,
}

/// The letter of a host in the name of an endpoint.
pub open spec fn host_letter(host: HostKind) -> Seq<char> {
    match host {
        HostKind::Zellij => "z"@,
        HostKind::Herdr => "h"@,
    }
}

/// The name of an endpoint: the host, and the first twenty hexadecimal digits of the key's digest.
pub open spec fn endpoint_stem(host: HostKind, discovery_key: Seq<char>) -> Seq<char> {
    "b-"@ + host_letter(host) + "-"@ + hex_text(sha256(encode_utf8(discovery_key))).take(20)
}

/// A broker's endpoint.
#[derive(Debug, PartialEq, Eq)]
pub struct RuntimeEndpoint {
    runtime_dir: PathBuf,
    socket: PathBuf,
    startup_lock: PathBuf,
}

/// The paths of an endpoint, by their components.
pub struct EndpointModel {
    pub runtime_dir: Seq<Seq<u8>>,
    pub socket: Seq<Seq<u8>>,
    pub startup_lock: Seq<Seq<u8>>,
}

/// The paths of the endpoint of a host, under a base directory.
pub open spec fn endpoint_paths(
    base: Seq<Seq<u8>>,
    host: HostKind,
    discovery_key: Seq<char>,
) -> EndpointModel {
    let runtime_dir = base.push(encode_utf8("muxe"@));
    let stem = endpoint_stem(host, discovery_key);
    EndpointModel {
        runtime_dir,
        socket: runtime_dir.push(encode_utf8(stem + ".sock"@)),
        startup_lock: runtime_dir.push(encode_utf8(stem + ".lock"@)),
    }
}

impl View for RuntimeEndpoint {
    type V = EndpointModel;

    closed spec fn view(&self) -> EndpointModel {
        EndpointModel {
            runtime_dir: path_components(self.runtime_dir),
            socket: path_components(self.socket),
            startup_lock: path_components(self.startup_lock),
        }
    }
}

/// The base directory of a user's endpoints: the runtime directory, where there is one, and otherwise
/// a directory of the user's own among the temporary files.
pub fn runtime_base(runtime_dir: Option<PathBuf>, temporary: &PathBuf, uid: u32) -> (r: PathBuf)
    ensures
        match runtime_dir {
            Some(directory) => r == directory,
            None => path_components(r) == path_components(*temporary).push(
                encode_utf8("muxe-"@ + decimal(uid as nat)),
            ),
        },
{
    match runtime_dir {
        Some(directory) => directory,
        None => {
            let digits = decimal_text(uid as u64);
            let name = "muxe-".to_owned().concat(digits.as_str());
            proof {
                reveal_strlit("muxe-");
                lemma_decimal_has_no_slash(uid as nat);
                let digits = decimal(uid as nat);
                assert forall|i: int| 0 <= i < name@.len() implies name@[i] != '/' by {
                    if i >= 5 {
                        assert(digits.contains(digits[i - 5]));
                    }
                }
                assert(name@[0] == 'm');
            }
            join_name(temporary, name.as_str())
        },
    }
}

/// A number in decimal has digits only.
proof fn lemma_decimal_has_no_slash(value: nat)
    ensures
        !decimal(value).contains('/'),
    decreases value,
{
    reveal_strlit("0");
    reveal_strlit("1");
    reveal_strlit("2");
    reveal_strlit("3");
    reveal_strlit("4");
    reveal_strlit("5");
    reveal_strlit("6");
    reveal_strlit("7");
    reveal_strlit("8");
    reveal_strlit("9");
    if value >= 10 {
        lemma_decimal_has_no_slash(value / 10);
        let (left, right) = (decimal(value / 10), crate::text::digit(value % 10));
        assert forall|i: int| 0 <= i < (left + right).len() implies (left + right)[i] != '/' by {
            if i < left.len() {
                assert(left.contains(left[i]));
            }
        }
    }
}

/// A hexadecimal text has hexadecimal digits only.
proof fn lemma_hex_has_no_slash(bytes: Seq<u8>)
    ensures
        forall|i: int| 0 <= i < hex_text(bytes).len() ==> #[trigger] hex_text(bytes)[i] != '/',
        is_ascii_chars(hex_text(bytes)),
{
    assert forall|i: int| 0 <= i < hex_text(bytes).len() implies #[trigger] hex_text(bytes)[i]
        != '/' && '\0' <= hex_text(bytes)[i] <= '\u{7f}' by {
        let byte = bytes[i / 2];
        assert(0 <= byte as int / 16 < 16);
        assert(0 <= byte as int % 16 < 16);
    }
}

proof fn lemma_endpoint_names_are_plain(host: HostKind, discovery_key: Seq<char>)
    requires
        sha256(encode_utf8(discovery_key)).len() == 32,
    ensures
        is_plain_name("muxe"@),
        is_plain_name(endpoint_stem(host, discovery_key) + ".sock"@),
        is_plain_name(endpoint_stem(host, discovery_key) + ".lock"@),
        encode_utf8("muxe"@).len() + encode_utf8(
            endpoint_stem(host, discovery_key) + ".sock"@,
        ).len() == ENDPOINT_NAME_BYTES,
{
    reveal_strlit("muxe");
    reveal_strlit("b-");
    reveal_strlit("-");
    reveal_strlit("z");
    reveal_strlit("h");
    reveal_strlit(".sock");
    reveal_strlit(".lock");
    lemma_hex_has_no_slash(sha256(encode_utf8(discovery_key)));
    let stem = endpoint_stem(host, discovery_key);
    let hex = hex_text(sha256(encode_utf8(discovery_key))).take(20);
    assert(!"muxe"@.contains('/'));
    assert forall|i: int| 0 <= i < hex.len() implies hex[i] != '/' by {
        assert(hex[i] == hex_text(sha256(encode_utf8(discovery_key)))[i]);
    }
    assert forall|i: int| 0 <= i < stem.len() implies stem[i] != '/' by {}
    assert(!(stem + ".sock"@).contains('/'));
    assert(!(stem + ".lock"@).contains('/'));
    is_ascii_chars_encode_utf8("muxe"@);
    assert forall|i: int| 0 <= i < hex.len() implies '\0' <= #[trigger] hex[i] <= '\u{7f}' by {
        assert(hex[i] == hex_text(sha256(encode_utf8(discovery_key)))[i]);
    }
    assert(is_ascii_chars(stem + ".sock"@));
    is_ascii_chars_encode_utf8(stem + ".sock"@);
}

/// A file of somebody else's, or one that others may use.
pub open spec fn mode_objection(
    path: PathBuf,
    metadata: Metadata,
    uid: u32,
    expected: u32,
) -> Option<RuntimeError> {
    if metadata.uid != uid {
        Some(RuntimeError::WrongOwner { path, expected: uid, actual: metadata.uid })
    } else if metadata.mode & 0o077 != 0 {
        Some(RuntimeError::InsecurePermissions { path, mode: metadata.mode & 0o777, expected })
    } else {
        None
    }
}

/// The outcome of a check that may object.
pub open spec fn unless(objection: Option<RuntimeError>) -> Result<(), RuntimeError> {
    match objection {
        Some(error) => Err(error),
        None => Ok(()),
    }
}

/// Refuses a file that is not the user's alone.
pub fn validate_owner_mode(path: &PathBuf, metadata: Metadata, uid: u32, expected: u32) -> (r: Result<
    (),
    RuntimeError,
>)
    ensures
        r == unless(mode_objection(*path, metadata, uid, expected)),
        r is Ok <==> metadata.uid == uid && metadata.mode & 0o077 == 0,
{
    if metadata.uid != uid {
        return Err(
            RuntimeError::WrongOwner {
                path: clone_path(path),
                expected: uid,
                actual: metadata.uid,
            },
        );
    }
    if metadata.mode & 0o077 != 0 {
        return Err(
            RuntimeError::InsecurePermissions {
                path: clone_path(path),
                mode: metadata.mode & 0o777,
                expected,
            },
        );
    }
    Ok(())
}

/// Refuses what is not a directory of the user's alone.
pub fn validate_owner_directory(path: &PathBuf, metadata: Metadata, uid: u32) -> (r: Result<
    (),
    RuntimeError,
>)
    ensures
        r == if metadata.kind != FileKind::Directory {
            Err::<(), RuntimeError>(RuntimeError::NotDirectory(*path))
        } else {
            unless(mode_objection(*path, metadata, uid, OWNER_DIRECTORY_MODE))
        },
        r is Ok <==> metadata.kind is Directory && metadata.uid == uid && metadata.mode & 0o077 == 0,
{
    if metadata.kind != FileKind::Directory {
        return Err(RuntimeError::NotDirectory(clone_path(path)));
    }
    validate_owner_mode(path, metadata, uid, OWNER_DIRECTORY_MODE)
}

/// Refuses what is not a regular file of the user's alone.
pub fn validate_owner_file(path: &PathBuf, metadata: Metadata, uid: u32) -> (r: Result<
    (),
    RuntimeError,
>)
    ensures
        r == if metadata.kind != FileKind::Regular {
            Err::<(), RuntimeError>(RuntimeError::NotRegularFile(*path))
        } else {
            unless(mode_objection(*path, metadata, uid, OWNER_FILE_MODE))
        },
        r is Ok <==> metadata.kind is Regular && metadata.uid == uid && metadata.mode & 0o077 == 0,
{
    if metadata.kind != FileKind::Regular {
        return Err(RuntimeError::NotRegularFile(clone_path(path)));
    }
    validate_owner_mode(path, metadata, uid, OWNER_FILE_MODE)
}

/// How the attempt to make the lock file ended.
#[derive(Debug, PartialEq, Eq)]
pub enum CreateOutcome {
    Created,
    /// There is one already; the operating system's text is given.
    Exists(String),
    Failed(String),
}

/// What follows an attempt to make the lock file.
#[derive(Debug, PartialEq, Eq)]
pub enum LockStep {
    /// The lock is held.
    Held,
    /// The lock that is there is looked at, and the attempt made again where it was stale.
    Inspect,
    Refuse(RuntimeError),
}

/// What a probe of a process says.
#[derive(Debug, PartialEq, Eq)]
pub enum ProbeOutcome {
    Alive,
    NotPermitted,
    NoSuchProcess,
    Failed(String),
}

/// How the attempt to connect to a socket ended.
#[derive(Debug, PartialEq, Eq)]
pub enum ConnectOutcome {
    Connected,
    Refused,
    NotFound,
    Failed(String),
}

/// Unicode's white space.
pub open spec fn is_white_space(c: char) -> bool {
    let code = c as int;
    ||| 9 <= code <= 13
    ||| code == 32
    ||| code == 0x85
    ||| code == 0xA0
    ||| code == 0x1680
    ||| 0x2000 <= code <= 0x200A
    ||| code == 0x2028
    ||| code == 0x2029
    ||| code == 0x202F
    ||| code == 0x205F
    ||| code == 0x3000
}

/// A text without the white space at its end.
pub open spec fn trim_end(text: Seq<char>) -> Seq<char>
    decreases text.len(),
{
    if text.len() > 0 && is_white_space(text.last()) {
        trim_end(text.drop_last())
    } else {
        text
    }
}

/// A text without the white space at its start.
pub open spec fn trim_start(text: Seq<char>) -> Seq<char>
    decreases text.len(),
{
    if text.len() > 0 && is_white_space(text[0]) {
        trim_start(text.drop_first())
    } else {
        text
    }
}

/// What digits amount to; there is nothing where one is not a digit.
pub open spec fn digits_value(digits: Seq<char>) -> Option<nat>
    decreases digits.len(),
{
    if digits.len() == 0 {
        Some(0)
    } else {
        match digits_value(digits.drop_last()) {
            Some(value) if '0' <= digits.last() <= '9' => Some(
                value * 10 + (digits.last() as nat - 48) as nat,
            ),
            _ => None,
        }
    }
}

/// The number that a text spells: digits, of which there is at least one, behind an optional sign.
pub open spec fn integer_value(text: Seq<char>) -> Option<int> {
    let (negative, digits) = if text.len() > 0 && text[0] == '-' {
        (true, text.drop_first())
    } else if text.len() > 0 && text[0] == '+' {
        (false, text.drop_first())
    } else {
        (false, text)
    };
    if digits.len() == 0 {
        None
    } else {
        match digits_value(digits) {
            Some(value) => Some(
                if negative {
                    -(value as int)
                } else {
                    value as int
                },
            ),
            None => None,
        }
    }
}

/// The process that a lock file names, among white space; there is none where the text is no number or
/// one that is out of range.
pub open spec fn pid_of(content: Seq<char>) -> Option<i32> {
    match integer_value(trim_start(trim_end(content))) {
        Some(value) if i32::MIN <= value <= i32::MAX => Some(value as i32),
        _ => None,
    }
}

fn is_space(c: char) -> (r: bool)
    ensures
        r == is_white_space(c),
{
    let code: u32 = c as u32;
    (9 <= code && code <= 13) || code == 32 || code == 0x85 || code == 0xA0 || code == 0x1680 || (
    0x2000 <= code && code <= 0x200A) || code == 0x2028 || code == 0x2029 || code == 0x202F || code
        == 0x205F || code == 0x3000
}

/// More digits amount to at least as much.
proof fn lemma_more_digits(digits: Seq<char>, n: int)
    requires
        0 <= n <= digits.len(),
        digits_value(digits) is Some,
    ensures
        digits_value(digits.take(n)) is Some,
        digits_value(digits.take(n))->Some_0 <= digits_value(digits)->Some_0,
    decreases digits.len() - n,
{
    if n == digits.len() {
        assert(digits.take(n) =~= digits);
    } else {
        lemma_more_digits(digits, n + 1);
        assert(digits.take(n + 1).drop_last() =~= digits.take(n));
    }
}

/// Reads the process that a lock file names.
pub fn parse_pid(content: &str) -> (r: Option<i32>)
    ensures
        r == pid_of(content@),
{
    let mut end: usize = content.unicode_len();
    assert(content@.take(end as int) =~= content@);
    while end > 0 && is_space(content.get_char(end - 1))
        invariant
            end <= content@.len(),
            trim_end(content@.take(end as int)) == trim_end(content@),
        decreases end,
    {
        proof {
            let part = content@.take(end as int);
            assert(part.drop_last() =~= content@.take(end as int - 1));
        }
        end = end - 1;
    }
    let ghost trimmed = content@.take(end as int);
    assert(trim_end(content@) == trimmed);
    let mut start: usize = 0;
    assert(trimmed.skip(0) =~= trimmed);
    while start < end && is_space(content.get_char(start))
        invariant
            start <= end <= content@.len(),
            trimmed == content@.take(end as int),
            trim_start(trimmed.skip(start as int)) == trim_start(trimmed),
        decreases end - start,
    {
        proof {
            let part = trimmed.skip(start as int);
            assert(part.drop_first() =~= trimmed.skip(start as int + 1));
        }
        start = start + 1;
    }
    let ghost text = trimmed.skip(start as int);
    assert(trim_start(trimmed) == text);
    if start == end {
        return None;
    }
    let first = content.get_char(start);
    let negative = first == '-';
    if first == '-' || first == '+' {
        start = start + 1;
    }
    let ghost digits = trimmed.skip(start as int);
    assert(digits =~= if first == '-' || first == '+' {
        text.drop_first()
    } else {
        text
    });
    if start == end {
        return None;
    }
    let mut value: u64 = 0;
    let mut i: usize = start;
    assert(digits.take(0) =~= Seq::empty());
    while i < end
        invariant
            start <= i <= end <= content@.len(),
            trimmed == content@.take(end as int),
            digits == trimmed.skip(start as int),
            digits.len() > 0,
            integer_value(trim_start(trim_end(content@))) == (match digits_value(digits) {
                Some(value) => Some(
                    if negative {
                        -(value as int)
                    } else {
                        value as int
                    },
                ),
                None => None,
            }),
            digits_value(digits.take(i as int - start as int)) == Some(value as nat),
            value <= 2147483648,
        decreases end - i,
    {
        let c = content.get_char(i);
        let ghost n = i as int - start as int;
        proof {
            assert(digits.take(n + 1).drop_last() =~= digits.take(n));
            assert(digits.take(n + 1).last() == c);
            if digits_value(digits) is Some {
                lemma_more_digits(digits, n + 1);
            }
        }
        if c < '0' || c > '9' {
            return None;
        }
        value = value * 10 + (c as u32 - 48) as u64;
        if value > 2147483648 {
            return None;
        }
        i = i + 1;
    }
    assert(digits.take(end as int - start as int) =~= digits);
    if negative {
        Some((0 - value as i64) as i32)
    } else if value <= 2147483647 {
        Some(value as i32)
    } else {
        None
    }
}

impl RuntimeEndpoint {
    /// The path of the startup lock.
    pub closed spec fn lock_path(self) -> PathBuf {
        self.startup_lock
    }

    /// The path of the socket.
    pub closed spec fn socket_path(self) -> PathBuf {
        self.socket
    }

    /// The path of the directory.
    pub closed spec fn directory_path(self) -> PathBuf {
        self.runtime_dir
    }

    /// The endpoint of a host, under a base directory. A socket whose path would be too long for the
    /// operating system is refused: the two names are added to the base, each behind at most one
    /// separator.
    pub fn in_runtime_dir(runtime_base: PathBuf, host: HostKind, discovery_key: &str) -> (r: Result<
        Self,
        RuntimeError,
    >)
        ensures
            match r {
                Ok(endpoint) => {
                    &&& endpoint@ == endpoint_paths(
                        path_components(runtime_base),
                        host,
                        discovery_key@,
                    )
                    &&& path_length(endpoint.socket_path()) <= MAX_SOCKET_PATH_BYTES
                },
                Err(RuntimeError::SocketPathTooLong(socket)) => {
                    &&& path_components(socket) == endpoint_paths(
                        path_components(runtime_base),
                        host,
                        discovery_key@,
                    ).socket
                    &&& path_length(socket) > MAX_SOCKET_PATH_BYTES
                },
                _ => false,
            },
            path_length(runtime_base) + ENDPOINT_NAME_BYTES + 2 <= MAX_SOCKET_PATH_BYTES ==> r is Ok,
            path_length(runtime_base) + ENDPOINT_NAME_BYTES > MAX_SOCKET_PATH_BYTES ==> r is Err,
    {
        let digest = sha256_digest(discovery_key.as_bytes());
        let hex = hex_lower(digest.as_slice());
        let letter = match host {
            HostKind::Zellij => "z",
            HostKind::Herdr => "h",
        };
        let short = hex.as_str().substring_char(0, 20);
        let stem = "b-".to_owned().concat(letter).concat("-").concat(short);
        proof {
            assert(short@ =~= hex@.take(20));
            lemma_endpoint_names_are_plain(host, discovery_key@);
        }
        let runtime_dir = join_name(&runtime_base, "muxe");
        let socket_name = stem.clone().concat(".sock");
        let lock_name = stem.concat(".lock");
        let socket = join_name(&runtime_dir, socket_name.as_str());
        let startup_lock = join_name(&runtime_dir, lock_name.as_str());
        if path_byte_length(&socket) > MAX_SOCKET_PATH_BYTES {
            return Err(RuntimeError::SocketPathTooLong(socket));
        }
        Ok(RuntimeEndpoint { runtime_dir, socket, startup_lock })
    }

    /// The path of the socket.
    pub fn socket(&self) -> (r: &PathBuf)
        ensures
            *r == self.socket_path(),
            path_components(*r) == self@.socket,
    {
        &self.socket
    }

    /// The path of the directory.
    pub fn directory(&self) -> (r: &PathBuf)
        ensures
            *r == self.directory_path(),
            path_components(*r) == self@.runtime_dir,
    {
        &self.runtime_dir
    }

    /// The path of the startup lock.
    pub fn startup_lock(&self) -> (r: &PathBuf)
        ensures
            *r == self.lock_path(),
            path_components(*r) == self@.startup_lock,
    {
        &self.startup_lock
    }

    /// Whether the directory is to be made: it is where nothing stands there. What stands there has to
    /// be a directory of the user's alone.
    pub fn ensure_owner_directory(&self, found: Option<Metadata>, uid: u32) -> (r: Result<
        bool,
        RuntimeError,
    >)
        ensures
            match found {
                None => r == Ok::<bool, RuntimeError>(true),
                Some(metadata) => if metadata.kind != FileKind::Directory {
                    r == Err::<bool, RuntimeError>(
                        RuntimeError::NotDirectory(self.directory_path()),
                    )
                } else {
                    match mode_objection(
                        self.directory_path(),
                        metadata,
                        uid,
                        OWNER_DIRECTORY_MODE,
                    ) {
                        Some(error) => r == Err::<bool, RuntimeError>(error),
                        None => r == Ok::<bool, RuntimeError>(false),
                    }
                },
            },
            found is None <==> r == Ok::<bool, RuntimeError>(true),
            r is Err <==> found is Some && (!(found->Some_0.kind is Directory) || found->Some_0.uid
                != uid || found->Some_0.mode & 0o077 != 0),
    {
        match found {
            None => Ok(true),
            Some(metadata) => match validate_owner_directory(&self.runtime_dir, metadata, uid) {
                Ok(()) => Ok(false),
                Err(error) => Err(error),
            },
        }
    }

    /// What follows an attempt to make the lock file. A lock that is there is looked at once; where it
    /// is there again after that, the attempt has failed.
    pub fn lock_attempt(&self, outcome: CreateOutcome, inspected: bool) -> (r: LockStep)
        ensures
            r == (match outcome {
                CreateOutcome::Created => LockStep::Held,
                CreateOutcome::Exists(_) if !inspected => LockStep::Inspect,
                CreateOutcome::Exists(source) => LockStep::Refuse(
                    RuntimeError::Io { path: self.lock_path(), source },
                ),
                CreateOutcome::Failed(source) => LockStep::Refuse(
                    RuntimeError::Io { path: self.lock_path(), source },
                ),
            }),
            r is Held <==> outcome is Created,
            r is Inspect <==> outcome is Exists && !inspected,
    {
        match outcome {
            CreateOutcome::Created => LockStep::Held,
            CreateOutcome::Exists(source) => if inspected {
                LockStep::Refuse(
                    RuntimeError::Io { path: clone_path(&self.startup_lock), source },
                )
            } else {
                LockStep::Inspect
            },
            CreateOutcome::Failed(source) => LockStep::Refuse(
                RuntimeError::Io { path: clone_path(&self.startup_lock), source },
            ),
        }
    }

    /// The process that holds the lock that is there, as its file says. The file has to be the user's
    /// alone.
    pub fn lock_holder(&self, metadata: Metadata, uid: u32, content: &str) -> (r: Result<
        i32,
        RuntimeError,
    >)
        ensures
            r == (match mode_objection(self.lock_path(), metadata, uid, OWNER_FILE_MODE) {
                Some(error) => Err::<i32, RuntimeError>(error),
                None => match pid_of(content@) {
                    Some(pid) => Ok(pid),
                    None => Err(RuntimeError::InvalidLock(self.lock_path())),
                },
            }),
            r is Ok ==> metadata.uid == uid && metadata.mode & 0o077 == 0,
            metadata.uid == uid && metadata.mode & 0o077 == 0 && pid_of(content@) is Some ==> r
                == Ok::<i32, RuntimeError>(pid_of(content@)->Some_0),
    {
        match validate_owner_mode(&self.startup_lock, metadata, uid, OWNER_FILE_MODE) {
            Ok(()) => match parse_pid(content) {
                Some(pid) => Ok(pid),
                None => Err(RuntimeError::InvalidLock(clone_path(&self.startup_lock))),
            },
            Err(error) => Err(error),
        }
    }

    /// Whether a lock may be removed: only where the process that holds it is gone.
    pub fn lock_is_stale(pid: i32, probe: ProbeOutcome) -> (r: Result<(), RuntimeError>)
        ensures
            r == (match probe {
                ProbeOutcome::Alive | ProbeOutcome::NotPermitted => Err::<(), RuntimeError>(
                    RuntimeError::StartupInProgress(pid),
                ),
                ProbeOutcome::NoSuchProcess => Ok(()),
                ProbeOutcome::Failed(source) => Err(RuntimeError::ProcessProbe { pid, source }),
            }),
            r is Ok <==> probe is NoSuchProcess,
            probe is Alive || probe is NotPermitted ==> r == Err::<(), RuntimeError>(
                RuntimeError::StartupInProgress(pid),
            ),
    {
        match probe {
            ProbeOutcome::Alive | ProbeOutcome::NotPermitted => Err(
                RuntimeError::StartupInProgress(pid),
            ),
            ProbeOutcome::NoSuchProcess => Ok(()),
            ProbeOutcome::Failed(source) => Err(RuntimeError::ProcessProbe { pid, source }),
        }
    }

    /// Refuses to bind over what stands at the socket's path.
    pub fn may_bind(&self, occupied: bool) -> (r: Result<(), RuntimeError>)
        ensures
            r == if occupied {
                Err::<(), RuntimeError>(RuntimeError::SocketExists(self.socket_path()))
            } else {
                Ok(())
            },
            r is Ok <==> !occupied,
    {
        if occupied {
            Err(RuntimeError::SocketExists(clone_path(&self.socket)))
        } else {
            Ok(())
        }
    }

    /// Whether a socket that was left is to be tried: where there is one, it has to be a socket of the
    /// user's alone.
    pub fn inspect_socket(&self, found: Option<Metadata>, uid: u32) -> (r: Result<
        bool,
        RuntimeError,
    >)
        ensures
            match found {
                None => r == Ok::<bool, RuntimeError>(false),
                Some(metadata) => match mode_objection(
                    self.socket_path(),
                    metadata,
                    uid,
                    OWNER_FILE_MODE,
                ) {
                    Some(error) => r == Err::<bool, RuntimeError>(error),
                    None => r == if metadata.kind == FileKind::Socket {
                        Ok::<bool, RuntimeError>(true)
                    } else {
                        Err(RuntimeError::UnexpectedEndpointFile(self.socket_path()))
                    },
                },
            },
            r == Ok::<bool, RuntimeError>(false) <==> found is None,
            r == Ok::<bool, RuntimeError>(true) <==> found is Some && found->Some_0.kind is Socket
                && found->Some_0.uid == uid && found->Some_0.mode & 0o077 == 0,
    {
        match found {
            None => Ok(false),
            Some(metadata) => match validate_owner_mode(
                &self.socket,
                metadata,
                uid,
                OWNER_FILE_MODE,
            ) {
                Err(error) => Err(error),
                Ok(()) => if metadata.kind == FileKind::Socket {
                    Ok(true)
                } else {
                    Err(RuntimeError::UnexpectedEndpointFile(clone_path(&self.socket)))
                },
            },
        }
    }

    /// Whether a socket that was left may be removed: only where nobody answers at it.
    pub fn socket_is_stale(&self, connect: ConnectOutcome) -> (r: Result<(), RuntimeError>)
        ensures
            r == (match connect {
                ConnectOutcome::Connected => Err::<(), RuntimeError>(
                    RuntimeError::LiveSocket(self.socket_path()),
                ),
                ConnectOutcome::Refused | ConnectOutcome::NotFound => Ok(()),
                ConnectOutcome::Failed(source) => Err(
                    RuntimeError::Io { path: self.socket_path(), source },
                ),
            }),
            r is Ok <==> connect is Refused || connect is NotFound,
            connect is Connected ==> r is Err && r->Err_0 is LiveSocket,
    {
        match connect {
            ConnectOutcome::Connected => Err(RuntimeError::LiveSocket(clone_path(&self.socket))),
            ConnectOutcome::Refused | ConnectOutcome::NotFound => Ok(()),
            ConnectOutcome::Failed(source) => Err(
                RuntimeError::Io { path: clone_path(&self.socket), source },
            ),
        }
    }
}

/// An endpoint is stable: the same base, host and key give the same paths.
pub proof fn law_endpoints_are_stable(
    base: PathBuf,
    again: PathBuf,
    host: HostKind,
    discovery_key: Seq<char>,
)
    requires
        path_components(base) == path_components(again),
    ensures
        endpoint_paths(path_components(base), host, discovery_key) == endpoint_paths(
            path_components(again),
            host,
            discovery_key,
        ),
{
}

/// The endpoints of two hosts are never the same, whatever their keys are.
pub proof fn law_endpoints_of_two_hosts_differ(
    base: Seq<Seq<u8>>,
    zellij: Seq<char>,
    herdr: Seq<char>,
)
    ensures
        endpoint_paths(base, HostKind::Zellij, zellij).socket != endpoint_paths(
            base,
            HostKind::Herdr,
            herdr,
        ).socket,
        endpoint_paths(base, HostKind::Zellij, zellij).startup_lock != endpoint_paths(
            base,
            HostKind::Herdr,
            herdr,
        ).startup_lock,
{
    reveal_strlit("b-");
    reveal_strlit("z");
    reveal_strlit("h");
    let left = endpoint_stem(HostKind::Zellij, zellij);
    let right = endpoint_stem(HostKind::Herdr, herdr);
    let first = "b-"@ + "z"@;
    let second = "b-"@ + "h"@;
    assert(first[2] == 'z' && second[2] == 'h');
    assert(left[2] == first[2]);
    assert(right[2] == second[2]);
    assert((left + ".sock"@)[2] == 'z' && (right + ".sock"@)[2] == 'h');
    assert((left + ".lock"@)[2] == 'z' && (right + ".lock"@)[2] == 'h');
    lemma_texts_differ(left + ".sock"@, right + ".sock"@);
    lemma_texts_differ(left + ".lock"@, right + ".lock"@);
    let a = endpoint_paths(base, HostKind::Zellij, zellij);
    let b = endpoint_paths(base, HostKind::Herdr, herdr);
    assert(a.socket.last() != b.socket.last());
    assert(a.startup_lock.last() != b.startup_lock.last());
}

/// Different texts have different UTF-8.
proof fn lemma_texts_differ(left: Seq<char>, right: Seq<char>)
    requires
        left != right,
    ensures
        encode_utf8(left) != encode_utf8(right),
{
    vstd::utf8::encode_utf8_decode_utf8(left);
    vstd::utf8::encode_utf8_decode_utf8(right);
}

/// A file that passes is its user's alone: nobody else owns it, and none of the bits for others and
/// for the group is set.
pub proof fn law_accepted_files_are_owner_only(
    path: PathBuf,
    metadata: Metadata,
    uid: u32,
    expected: u32,
)
    requires
        mode_objection(path, metadata, uid, expected) is None,
    ensures
        metadata.uid == uid,
        metadata.mode & 0o070 == 0,
        metadata.mode & 0o007 == 0,
{
    let mode = metadata.mode;
    assert(mode & 0o077 == 0 ==> mode & 0o070 == 0 && mode & 0o007 == 0) by (bit_vector);
}

} // verus!
