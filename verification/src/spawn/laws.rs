//! Which argument of a child carries what.
use super::{
    argv_of, arguments, Argument, ArgumentModel, ServeHerdrSpawn, ServeZellijSpawn, SpawnArgvError,
};
use crate::digest::hex_text;
use vstd::prelude::*;

verus! {

/// An option with its value directly behind it.
pub open spec fn passes(list: Seq<ArgumentModel>, option: Seq<char>, value: ArgumentModel) -> bool {
    exists|i: int|
        #![trigger list[i]]
        0 <= i && i + 1 < list.len() && list[i] == ArgumentModel::Text(option) && list[i + 1]
            == value
}

/// An option that stands there is found there.
proof fn lemma_passes(list: Seq<ArgumentModel>, i: int)
    requires
        0 <= i,
        i + 1 < list.len(),
        list[i] is Text,
    ensures
        passes(list, list[i]->Text_0, list[i + 1]),
{
}

/// A broker for Herdr that is started with these arguments is told everything that it was to be started
/// with, each behind its own option, and serves Herdr.
pub proof fn law_a_herdr_child_is_told_everything(
    spawn: ServeHerdrSpawn,
    r: Result<Vec<Argument>, SpawnArgvError>,
)
    requires
        argv_of(spawn.fixed_arguments(), spawn.handoff, spawn.activation_journal, r),
    ensures
        r matches Ok(list) ==> {
            let list = arguments(list@);
            &&& list[0] == ArgumentModel::Text("broker"@)
            &&& list[1] == ArgumentModel::Text("serve-herdr"@)
            &&& passes(list, "--socket"@, ArgumentModel::Path(spawn.socket))
            &&& passes(list, "--herdr-binary"@, ArgumentModel::Path(spawn.herdr_binary))
            &&& passes(list, "--herdr-socket"@, ArgumentModel::Path(spawn.herdr_socket))
            &&& passes(list, "--config"@, ArgumentModel::Path(spawn.config))
            &&& passes(list, "--cache-dir"@, ArgumentModel::Path(spawn.cache_dir))
            &&& spawn.handoff matches Some(handoff) ==> passes(
                list,
                "--handoff"@,
                ArgumentModel::Text(hex_text(handoff@)),
            )
            &&& spawn.activation_journal matches Some(journal) ==> passes(
                list,
                "--activation-journal"@,
                ArgumentModel::Path(journal),
            )
        },
        (spawn.handoff is Some) == (spawn.activation_journal is Some) <==> r is Ok,
{
    if let Ok(list) = r {
        let list = arguments(list@);
        let fixed = spawn.fixed_arguments();
        assert(forall|i: int| 0 <= i < fixed.len() ==> #[trigger] list[i] == fixed[i]);
        lemma_passes(list, 2);
        lemma_passes(list, 4);
        lemma_passes(list, 6);
        lemma_passes(list, 8);
        lemma_passes(list, 10);
        if spawn.handoff is Some {
            lemma_passes(list, 12);
            lemma_passes(list, 14);
        }
    }
}

/// A broker for Zellij that is started with these arguments is told everything that it was to be started
/// with, each behind its own option, and serves Zellij.
pub proof fn law_a_zellij_child_is_told_everything(
    spawn: ServeZellijSpawn,
    r: Result<Vec<Argument>, SpawnArgvError>,
)
    requires
        argv_of(spawn.fixed_arguments(), spawn.handoff, spawn.activation_journal, r),
    ensures
        r matches Ok(list) ==> {
            let list = arguments(list@);
            &&& list[0] == ArgumentModel::Text("broker"@)
            &&& list[1] == ArgumentModel::Text("serve-zellij"@)
            &&& passes(list, "--socket"@, ArgumentModel::Path(spawn.socket))
            &&& passes(list, "--zellij-exe"@, ArgumentModel::Path(spawn.zellij_exe))
            &&& passes(list, "--session"@, ArgumentModel::Text(spawn.session@))
            &&& passes(list, "--config"@, ArgumentModel::Path(spawn.config))
            &&& passes(list, "--cache-dir"@, ArgumentModel::Path(spawn.cache_dir))
            &&& spawn.handoff matches Some(handoff) ==> passes(
                list,
                "--handoff"@,
                ArgumentModel::Text(hex_text(handoff@)),
            )
            &&& spawn.activation_journal matches Some(journal) ==> passes(
                list,
                "--activation-journal"@,
                ArgumentModel::Path(journal),
            )
        },
        (spawn.handoff is Some) == (spawn.activation_journal is Some) <==> r is Ok,
{
    if let Ok(list) = r {
        let list = arguments(list@);
        let fixed = spawn.fixed_arguments();
        assert(forall|i: int| 0 <= i < fixed.len() ==> #[trigger] list[i] == fixed[i]);
        lemma_passes(list, 2);
        lemma_passes(list, 4);
        lemma_passes(list, 6);
        lemma_passes(list, 8);
        lemma_passes(list, 10);
        if spawn.handoff is Some {
            lemma_passes(list, 12);
            lemma_passes(list, 14);
        }
    }
}

} // verus!
