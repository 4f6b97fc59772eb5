//! The arguments with which a broker is started as a child of its own executable.
pub mod laws;

use crate::digest::{hex_lower, hex_text};
use crate::ids::HandoffId;
use crate::path::clone_path;
use std::path::PathBuf;
use vstd::prelude::*;

verus! {

/// One argument.
#[derive(Debug, PartialEq, Eq)]
pub enum Argument {
    Text(String),
    Path(PathBuf),
}

/// What an argument is.
pub enum ArgumentModel {
    Text(Seq<char>),
    Path(PathBuf),
}

impl View for Argument {
    type V = ArgumentModel;

    open spec fn view(&self) -> ArgumentModel {
        match self {
            Argument::Text(text) => ArgumentModel::Text(text@),
            Argument::Path(path) => ArgumentModel::Path(*path),
        }
    }
}

/// Why there are no arguments.
#[derive(Clone, Copy, Debug, PartialEq, Eq, Structural)]
pub enum SpawnArgvError {
    /// A handoff goes with a journal, and a journal with a handoff.
    HalfHandoff,
}

impl SpawnArgvError {
    /// The text that a reader of the error sees.
    pub fn message(&self) -> (r: &'static str)
        ensures
            r@ == "broker target startup requires both --handoff and --activation-journal"@,
    {
        "broker target startup requires both --handoff and --activation-journal"
    }
}

/// What an argument list holds.
pub open spec fn arguments(list: Seq<Argument>) -> Seq<ArgumentModel> {
    list.map_values(|argument: Argument| argument@)
}

/// The arguments that only a target has.
pub open spec fn target_arguments(
    handoff: Option<HandoffId>,
    activation_journal: Option<PathBuf>,
) -> Seq<ArgumentModel> {
    match (handoff, activation_journal) {
        (Some(handoff), Some(journal)) => seq![
            ArgumentModel::Text("--handoff"@),
            ArgumentModel::Text(hex_text(handoff@)),
            ArgumentModel::Text("--activation-journal"@),
            ArgumentModel::Path(journal),
        ],
        _ => Seq::empty(),
    }
}

/// The arguments `first`, followed by those of a target.
pub open spec fn argv_of(
    first: Seq<ArgumentModel>,
    handoff: Option<HandoffId>,
    activation_journal: Option<PathBuf>,
    r: Result<Vec<Argument>, SpawnArgvError>,
) -> bool {
    if handoff is Some == activation_journal is Some {
        r matches Ok(list) && arguments(list@) == first + target_arguments(
            handoff,
            activation_journal,
        )
    } else {
        r == Err::<Vec<Argument>, SpawnArgvError>(SpawnArgvError::HalfHandoff)
    }
}

fn push_text(list: &mut Vec<Argument>, text: &str)
    ensures
        arguments(final(list)@) == arguments(old(list)@).push(ArgumentModel::Text(text@)),
{
    list.push(Argument::Text(text.to_owned()));
    assert(arguments(list@) =~= arguments(old(list)@).push(ArgumentModel::Text(text@)));
}

fn push_path(list: &mut Vec<Argument>, path: &PathBuf)
    ensures
        arguments(final(list)@) == arguments(old(list)@).push(ArgumentModel::Path(*path)),
{
    list.push(Argument::Path(clone_path(path)));
    assert(arguments(list@) =~= arguments(old(list)@).push(ArgumentModel::Path(*path)));
}

/// Adds the arguments that only a target has: both or none.
fn finish_argv(
    list: Vec<Argument>,
    handoff: &Option<HandoffId>,
    activation_journal: &Option<PathBuf>,
) -> (r: Result<Vec<Argument>, SpawnArgvError>)
    ensures
        argv_of(arguments(list@), *handoff, *activation_journal, r),
{
    let mut list = list;
    let ghost first = arguments(list@);
    match (handoff, activation_journal) {
        (Some(handoff), Some(journal)) => {
            push_text(&mut list, "--handoff");
            let hex = hex_lower(handoff.0.as_slice());
            push_text(&mut list, hex.as_str());
            push_text(&mut list, "--activation-journal");
            push_path(&mut list, journal);
            assert(arguments(list@) =~= first + target_arguments(Some(*handoff), Some(*journal)));
            Ok(list)
        },
        (None, None) => {
            assert(arguments(list@) =~= first + target_arguments(None, None));
            Ok(list)
        },
        _ => Err(SpawnArgvError::HalfHandoff),
    }
}

/// A broker for Herdr, to be started as a child.
#[derive(Debug, PartialEq, Eq)]
pub struct ServeHerdrSpawn {
    /// The executable to run.
    pub binary: PathBuf,
    /// The socket to serve.
    pub socket: PathBuf,
    /// The Herdr executable to check against.
    pub herdr_binary: PathBuf,
    /// The socket of the live Herdr server.
    pub herdr_socket: PathBuf,
    pub config: PathBuf,
    pub cache_dir: PathBuf,
    /// The handoff of a target.
    pub handoff: Option<HandoffId>,
    /// The journal that authorises a target.
    pub activation_journal: Option<PathBuf>,
}

impl ServeHerdrSpawn {
    /// The arguments that every child has.
    pub open spec fn fixed_arguments(self) -> Seq<ArgumentModel> {
        seq![
            ArgumentModel::Text("broker"@),
            ArgumentModel::Text("serve-herdr"@),
            ArgumentModel::Text("--socket"@),
            ArgumentModel::Path(self.socket),
            ArgumentModel::Text("--herdr-binary"@),
            ArgumentModel::Path(self.herdr_binary),
            ArgumentModel::Text("--herdr-socket"@),
            ArgumentModel::Path(self.herdr_socket),
            ArgumentModel::Text("--config"@),
            ArgumentModel::Path(self.config),
            ArgumentModel::Text("--cache-dir"@),
            ArgumentModel::Path(self.cache_dir),
        ]
    }

    /// The child's arguments, in their fixed order.
    pub fn argv(&self) -> (r: Result<Vec<Argument>, SpawnArgvError>)
        ensures
            argv_of(
                self.fixed_arguments(),
                self.handoff,
                self.activation_journal,
                r,
            ),
    {
        let mut list: Vec<Argument> = Vec::new();
        assert(arguments(list@) =~= Seq::empty());
        push_text(&mut list, "broker");
        push_text(&mut list, "serve-herdr");
        push_text(&mut list, "--socket");
        push_path(&mut list, &self.socket);
        push_text(&mut list, "--herdr-binary");
        push_path(&mut list, &self.herdr_binary);
        push_text(&mut list, "--herdr-socket");
        push_path(&mut list, &self.herdr_socket);
        push_text(&mut list, "--config");
        push_path(&mut list, &self.config);
        push_text(&mut list, "--cache-dir");
        push_path(&mut list, &self.cache_dir);
        assert(arguments(list@) =~= self.fixed_arguments());
        finish_argv(list, &self.handoff, &self.activation_journal)
    }
}

/// A broker for Zellij, to be started as a child.
#[derive(Debug, PartialEq, Eq)]
pub struct ServeZellijSpawn {
    /// The executable to run.
    pub binary: PathBuf,
    /// The socket to serve.
    pub socket: PathBuf,
    /// The Zellij executable to serve through.
    pub zellij_exe: PathBuf,
    /// The live session to serve.
    pub session: String,
    pub config: PathBuf,
    pub cache_dir: PathBuf,
    /// The handoff of a target.
    pub handoff: Option<HandoffId>,
    /// The journal that authorises a target.
    pub activation_journal: Option<PathBuf>,
}

impl ServeZellijSpawn {
    /// The arguments that every child has.
    pub open spec fn fixed_arguments(self) -> Seq<ArgumentModel> {
        seq![
            ArgumentModel::Text("broker"@),
            ArgumentModel::Text("serve-zellij"@),
            ArgumentModel::Text("--socket"@),
            ArgumentModel::Path(self.socket),
            ArgumentModel::Text("--zellij-exe"@),
            ArgumentModel::Path(self.zellij_exe),
            ArgumentModel::Text("--session"@),
            ArgumentModel::Text(self.session@),
            ArgumentModel::Text("--config"@),
            ArgumentModel::Path(self.config),
            ArgumentModel::Text("--cache-dir"@),
            ArgumentModel::Path(self.cache_dir),
        ]
    }

    /// The child's arguments, in their fixed order.
    pub fn argv(&self) -> (r: Result<Vec<Argument>, SpawnArgvError>)
        ensures
            argv_of(
                self.fixed_arguments(),
                self.handoff,
                self.activation_journal,
                r,
            ),
    {
        let mut list: Vec<Argument> = Vec::new();
        assert(arguments(list@) =~= Seq::empty());
        push_text(&mut list, "broker");
        push_text(&mut list, "serve-zellij");
        push_text(&mut list, "--socket");
        push_path(&mut list, &self.socket);
        push_text(&mut list, "--zellij-exe");
        push_path(&mut list, &self.zellij_exe);
        push_text(&mut list, "--session");
        push_text(&mut list, self.session.as_str());
        push_text(&mut list, "--config");
        push_path(&mut list, &self.config);
        push_text(&mut list, "--cache-dir");
        push_path(&mut list, &self.cache_dir);
        assert(arguments(list@) =~= self.fixed_arguments());
        finish_argv(list, &self.handoff, &self.activation_journal)
    }
}

/// A handoff without a journal, and a journal without a handoff, is refused; and a target's arguments
/// are those of an old broker with four more behind.
pub proof fn law_a_target_has_both_or_none(
    first: Seq<ArgumentModel>,
    handoff: Option<HandoffId>,
    activation_journal: Option<PathBuf>,
    r: Result<Vec<Argument>, SpawnArgvError>,
)
    requires
        argv_of(first, handoff, activation_journal, r),
    ensures
        r is Err <==> handoff is Some != activation_journal is Some,
        r matches Ok(list) ==> arguments(list@).take(first.len() as int) == first && list@.len()
            == first.len() + if handoff is Some {
            4nat
        } else {
            0
        },
{
    if let Ok(list) = r {
        assert(arguments(list@).take(first.len() as int) =~= first);
        assert(arguments(list@).len() == list@.len());
    }
}

} // verus!
