//! What a server's stages come to, whatever state the server is in.
use super::{ServerNext, ServerStage, ServerState, SocketIdentity};
use vstd::prelude::*;

verus! {

/// The one who drains a server, or brings it back, hears what became of it: a socket that could not be
/// removed, a configuration that could not be watched, an endpoint that could not be bound, each in
/// its own words; and success only where nothing failed.
pub proof fn law_a_command_is_answered_with_its_outcome(
    server: ServerState,
    removed: Result<(), String>,
    watched: Result<(), String>,
    bound: Result<SocketIdentity, String>,
)
    ensures
        server.step(ServerStage::DrainedSocket(removed)).1 == ServerNext::Reply(removed),
        match watched {
            Ok(()) => server.step(ServerStage::WatchStarted(watched)).1 is Rebind,
            Err(text) => server.step(ServerStage::WatchStarted(watched)).1 == ServerNext::Reply(
                Err(text),
            ),
        },
        match bound {
            Ok(_) => server.step(ServerStage::Rebound(bound)).1 == ServerNext::Reply(Ok(())),
            Err(text) => server.step(ServerStage::Rebound(bound)).1 == ServerNext::Reply(Err(text)),
        },
{
}

/// Draining gives up whatever was held: the configuration is no longer watched, nothing is bound, and a
/// socket that was bound is removed before the answer is given.
pub proof fn law_a_drain_gives_everything_up(server: ServerState)
    ensures
        ({
            let (after, next) = server.step(ServerStage::Drain);
            &&& !after.watching
            &&& after.listener is None
            &&& match server.listener {
                Some(identity) => next == ServerNext::RemoveSocket(identity),
                None => next == ServerNext::Reply(Ok(())),
            }
            &&& after.step(ServerStage::Drain) == (after, ServerNext::Reply(Ok(())))
        }),
{
}

/// A server that is to stop first shuts its host down. If that works, the socket goes and the one who
/// asked gets the permission to end; a server that was drained has no socket left, and gives the
/// permission at once.
pub proof fn law_a_stop_ends_in_a_permission(server: ServerState)
    ensures
        ({
            let (stopping, first) = server.step(ServerStage::Stop);
            let (stopped, second) = stopping.step(ServerStage::HostStopped(Ok(())));
            let (clear, third) = stopped.step(ServerStage::StoppedSocket(Ok(())));
            &&& first is StopHost
            &&& !stopping.watching && stopping.listener == server.listener
            &&& server.listener is None ==> second is SendTicket
            &&& server.listener matches Some(identity) ==> second == ServerNext::RemoveSocket(
                identity,
            ) && third is SendTicket
            &&& clear.listener is None && !clear.watching
            &&& clear.supervisor_only == server.supervisor_only
        }),
{
}

/// A stop that fails, at the host or at the socket, is told to the one who asked, and ends the server,
/// which still waits for its children.
pub proof fn law_a_failed_stop_still_waits_for_children(server: ServerState, text: String)
    ensures
        server.step(ServerStage::HostStopped(Err(text))).1 == ServerNext::RefuseAndFinish(text),
        server.step(ServerStage::HostStopped(Err(text))).0.supervisor_only,
        server.step(ServerStage::HostStopped(Err(text))).0.listener == server.listener,
        server.step(ServerStage::StoppedSocket(Err(text))).1 == ServerNext::RefuseAndFinish(text),
        server.step(ServerStage::StoppedSocket(Err(text))).0.supervisor_only,
        server.step(ServerStage::StoppedSocket(Err(text))).0.listener == server.listener,
{
}

/// A permission ends the server, and the children are waited for exactly where somebody took it; where
/// nobody did, or nobody is left to give commands, or a shutdown is signalled, the server ends and
/// everything else is as it was.
pub proof fn law_a_server_ends_as_it_was_told(server: ServerState, taken: bool)
    ensures
        server.step(ServerStage::TicketSent { taken }).1 is Finish,
        server.step(ServerStage::TicketSent { taken }).0.supervisor_only == (taken
            || server.supervisor_only),
        server.step(ServerStage::TicketSent { taken }).0.listener == server.listener,
        server.step(ServerStage::TicketSent { taken }).0.watching == server.watching,
        server.step(ServerStage::Shutdown) == (server, ServerNext::Finish),
        server.step(ServerStage::CommandsClosed) == (server, ServerNext::Finish),
{
}

/// Whether children are waited for is never taken back, and it is decided only when the server ends.
pub proof fn law_children_are_waited_for_only_at_the_end(server: ServerState, stage: ServerStage)
    ensures
        ({
            let (after, next) = server.step(stage);
            &&& server.supervisor_only ==> after.supervisor_only
            &&& after.supervisor_only != server.supervisor_only ==> next is Finish
                || next is RefuseAndFinish
        }),
{
}

/// A socket is bound only by binding it, and no stage but a drain and a stop gives one up.
pub proof fn law_a_socket_is_kept_until_it_is_given_up(server: ServerState, stage: ServerStage)
    ensures
        ({
            let after = server.step(stage).0;
            &&& !(stage is Drain) && !(stage is HostStopped) && !(stage is Rebound)
                ==> after.listener == server.listener
            &&& (stage matches ServerStage::Rebound(Ok(identity)) ==> after.listener == Some(
                identity,
            ))
            &&& !(stage is Rebound) && after.listener is Some ==> after.listener
                == server.listener
        }),
{
}

} // verus!
