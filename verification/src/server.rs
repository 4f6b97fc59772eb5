//! The listener of a broker: who owns its socket, and what drains it, brings it back and ends it.
pub mod laws;

use vstd::prelude::*;

verus! {

/// Which file a socket is.
#[derive(Clone, Copy, Debug, PartialEq, Eq, Structural)]
pub struct SocketIdentity {
    pub device: u64,
    pub inode: u64,
}

/// What stands at a path.
#[derive(Clone, Copy, Debug, PartialEq, Eq, Structural)]
pub struct FileFacts {
    pub is_socket: bool,
    pub identity: SocketIdentity,
}

/// Whether what stands at the endpoint's path is this server's own socket, and so is its to remove. A
/// path with nothing on it, and one that somebody else has taken since, is left alone.
pub fn owns_socket(found: Option<FileFacts>, ours: SocketIdentity) -> (r: bool)
    ensures
        r == (found == Some(FileFacts { is_socket: true, identity: ours })),
        r ==> found is Some && found->Some_0.is_socket && found->Some_0.identity == ours,
        !r ==> found is None || !found->Some_0.is_socket || found->Some_0.identity.device
            != ours.device || found->Some_0.identity.inode != ours.inode,
{
    match found {
        Some(facts) => facts.is_socket && facts.identity == ours,
        None => false,
    }
}

/// The identity of the socket that was just bound. Anything else at the path is an error.
pub fn bound_socket(facts: FileFacts) -> (r: Result<SocketIdentity, String>)
    ensures
        if facts.is_socket {
            r == Ok::<SocketIdentity, String>(facts.identity)
        } else {
            r matches Err(text) && text@ == "broker listener path is not a Unix socket"@
        },
        r is Ok <==> facts.is_socket,
{
    if facts.is_socket {
        Ok(facts.identity)
    } else {
        Err("broker listener path is not a Unix socket".to_owned())
    }
}

/// What happens to a server.
#[derive(Debug, PartialEq, Eq)]
pub enum ServerStage {
    /// The endpoint is to be given up for a while.
    Drain,
    /// The socket of a drained endpoint was removed, or could not be.
    DrainedSocket(Result<(), String>),
    /// The endpoint is to be brought back.
    Resume,
    /// The configuration is watched again, or could not be.
    WatchStarted(Result<(), String>),
    /// The endpoint is bound again, or could not be.
    Rebound(Result<SocketIdentity, String>),
    /// The server is to end.
    Stop,
    /// The host was shut down, or could not be.
    HostStopped(Result<(), String>),
    /// The socket of an ending server was removed, or could not be.
    StoppedSocket(Result<(), String>),
    /// The permission to end was handed over, or nobody was left to take it.
    TicketSent { taken: bool },
    /// A shutdown was signalled, or nobody is left to signal one.
    Shutdown,
    /// Nobody is left to give commands.
    CommandsClosed,
}

/// What a server does next.
#[derive(Debug, PartialEq, Eq)]
#[allow(inconsistent_fields)]
pub enum ServerNext {
    /// The socket is removed, if it is still the server's own.
    RemoveSocket(SocketIdentity),
    /// The command is answered, and the server goes on.
    Reply(Result<(), String>),
    /// The configuration is watched again.
    StartWatch,
    /// The endpoint is bound again.
    Rebind,
    /// The health of the host is no longer watched, and the host is shut down.
    StopHost,
    /// The permission to end is handed to the one who asked; the server ends once it is given back.
    SendTicket,
    /// The one who asked is told why not, and the server ends.
    RefuseAndFinish(String),
    /// The server ends, once the permission is given back where it was taken.
    Finish,
}

/// A server's endpoint.
#[derive(Debug, PartialEq, Eq)]
pub struct ServerState {
    /// The socket that is bound.
    pub listener: Option<SocketIdentity>,
    /// Whether the configuration is watched.
    pub watching: bool,
    /// Whether the children are waited for at the end.
    pub supervisor_only: bool,
}

impl ServerState {
    /// What a stage leads to.
    pub open spec fn step(self, stage: ServerStage) -> (Self, ServerNext) {
        let unbound = ServerState { listener: None, ..self };
        let supervising = ServerState { supervisor_only: true, ..self };
        match stage {
            ServerStage::Drain => (
                ServerState { watching: false, ..unbound },
                match self.listener {
                    Some(identity) => ServerNext::RemoveSocket(identity),
                    None => ServerNext::Reply(Ok(())),
                },
            ),
            ServerStage::DrainedSocket(outcome) => (self, ServerNext::Reply(outcome)),
            ServerStage::Resume => (
                self,
                if self.listener is Some {
                    ServerNext::Reply(Ok(()))
                } else {
                    ServerNext::StartWatch
                },
            ),
            ServerStage::WatchStarted(Ok(())) => (
                ServerState { watching: true, ..self },
                ServerNext::Rebind,
            ),
            ServerStage::WatchStarted(Err(text)) => (self, ServerNext::Reply(Err(text))),
            ServerStage::Rebound(Ok(identity)) => (
                ServerState { listener: Some(identity), ..self },
                ServerNext::Reply(Ok(())),
            ),
            ServerStage::Rebound(Err(text)) => (
                ServerState { watching: false, ..self },
                ServerNext::Reply(Err(text)),
            ),
            ServerStage::Stop => (ServerState { watching: false, ..self }, ServerNext::StopHost),
            ServerStage::HostStopped(Ok(())) => (
                unbound,
                match self.listener {
                    Some(identity) => ServerNext::RemoveSocket(identity),
                    None => ServerNext::SendTicket,
                },
            ),
            ServerStage::HostStopped(Err(text)) => (
                supervising,
                ServerNext::RefuseAndFinish(text),
            ),
            ServerStage::StoppedSocket(Ok(())) => (self, ServerNext::SendTicket),
            ServerStage::StoppedSocket(Err(text)) => (
                supervising,
                ServerNext::RefuseAndFinish(text),
            ),
            ServerStage::TicketSent { taken } => (
                if taken {
                    supervising
                } else {
                    self
                },
                ServerNext::Finish,
            ),
            ServerStage::Shutdown | ServerStage::CommandsClosed => (self, ServerNext::Finish),
        }
    }

    /// A server that has bound its endpoint and watches the configuration.
    pub fn started(listener: SocketIdentity) -> (r: Self)
        ensures
            r == (ServerState {
                listener: Some(listener),
                watching: true,
                supervisor_only: false,
            }),
            r.step(ServerStage::Resume).1 == ServerNext::Reply(Ok(())),
            r.step(ServerStage::Drain).1 == ServerNext::RemoveSocket(listener),
    {
        ServerState { listener: Some(listener), watching: true, supervisor_only: false }
    }

    /// Takes the server one stage on.
    pub fn advance(&mut self, stage: ServerStage) -> (r: ServerNext)
        ensures
            (*final(self), r) == old(self).step(stage),
    {
        match stage {
            ServerStage::Drain => {
                self.watching = false;
                let listener = self.listener;
                self.listener = None;
                match listener {
                    Some(identity) => ServerNext::RemoveSocket(identity),
                    None => ServerNext::Reply(Ok(())),
                }
            },
            ServerStage::DrainedSocket(outcome) => ServerNext::Reply(outcome),
            ServerStage::Resume => {
                if self.listener.is_some() {
                    ServerNext::Reply(Ok(()))
                } else {
                    ServerNext::StartWatch
                }
            },
            ServerStage::WatchStarted(Ok(())) => {
                self.watching = true;
                ServerNext::Rebind
            },
            ServerStage::WatchStarted(Err(text)) => ServerNext::Reply(Err(text)),
            ServerStage::Rebound(Ok(identity)) => {
                self.listener = Some(identity);
                ServerNext::Reply(Ok(()))
            },
            ServerStage::Rebound(Err(text)) => {
                self.watching = false;
                ServerNext::Reply(Err(text))
            },
            ServerStage::Stop => {
                self.watching = false;
                ServerNext::StopHost
            },
            ServerStage::HostStopped(Ok(())) => {
                let listener = self.listener;
                self.listener = None;
                match listener {
                    Some(identity) => ServerNext::RemoveSocket(identity),
                    None => ServerNext::SendTicket,
                }
            },
            ServerStage::HostStopped(Err(text)) | ServerStage::StoppedSocket(Err(text)) => {
                self.supervisor_only = true;
                ServerNext::RefuseAndFinish(text)
            },
            ServerStage::StoppedSocket(Ok(())) => ServerNext::SendTicket,
            ServerStage::TicketSent { taken } => {
                if taken {
                    self.supervisor_only = true;
                }
                ServerNext::Finish
            },
            ServerStage::Shutdown | ServerStage::CommandsClosed => ServerNext::Finish,
        }
    }

    /// What is left to be done when the server has ended: the socket that it still holds, and whether
    /// its children are waited for.
    pub fn finish(self) -> (r: (Option<SocketIdentity>, bool))
        ensures
            r == (self.listener, self.supervisor_only),
    {
        (self.listener, self.supervisor_only)
    }
}

/// Whether the end still waits for the children: while there are any and no shutdown is signalled.
pub fn waits_for_children(supervised: bool, shutdown: bool) -> (r: bool)
    ensures
        r == (supervised && !shutdown),
        shutdown ==> !r,
        !supervised ==> !r,
        supervised && !shutdown ==> r,
{
    supervised && !shutdown
}

/// A drained endpoint that is brought back is bound, and the configuration is watched; bringing it
/// back again changes nothing and succeeds.
pub proof fn law_a_drained_endpoint_comes_back(server: ServerState, identity: SocketIdentity)
    ensures
        ({
            let drained = server.step(ServerStage::Drain).0;
            let (asked, first) = drained.step(ServerStage::Resume);
            let (watched, second) = asked.step(ServerStage::WatchStarted(Ok(())));
            let (back, third) = watched.step(ServerStage::Rebound(Ok(identity)));
            &&& drained.listener is None && !drained.watching
            &&& first == ServerNext::StartWatch
            &&& second == ServerNext::Rebind
            &&& third == ServerNext::Reply(Ok(()))
            &&& back == (ServerState {
                listener: Some(identity),
                watching: true,
                supervisor_only: server.supervisor_only,
            })
            &&& back.step(ServerStage::Resume) == (back, ServerNext::Reply(Ok(())))
        }),
{
}

/// An endpoint that could not be brought back is as it was when it was drained, so that it can be
/// tried again.
pub proof fn law_a_failed_resume_leaves_it_drained(server: ServerState, text: String)
    requires
        server.listener is None,
        !server.watching,
    ensures
        server.step(ServerStage::WatchStarted(Err(text))).0 == server,
        server.step(ServerStage::WatchStarted(Ok(()))).0.step(ServerStage::Rebound(Err(text))).0
            == server,
{
}

/// A socket is let go before it is removed: whatever removes it, the server no longer holds it, and
/// only the socket that it held is removed.
pub proof fn law_a_socket_is_removed_once(server: ServerState, stage: ServerStage)
    ensures
        server.step(stage).1 matches ServerNext::RemoveSocket(identity) ==> server.listener == Some(
            identity,
        ) && server.step(stage).0.listener is None,
{
}

/// The permission to end is handed over only when nothing is held any more: after a stop, the
/// configuration is not watched, and the socket is gone.
pub proof fn law_a_ticket_means_that_nothing_is_held(
    server: ServerState,
    stopping: ServerState,
    stage: ServerStage,
)
    requires
        stopping == server.step(ServerStage::Stop).0,
        stage is HostStopped,
    ensures
        ({
            let (after, next) = stopping.step(stage);
            &&& !after.watching
            &&& next is SendTicket ==> after.listener is None
            &&& next is RemoveSocket ==> after.step(ServerStage::StoppedSocket(Ok(()))) == (
                after,
                ServerNext::SendTicket,
            ) && after.listener is None
        }),
{
}

} // verus!
