use muxe_broker::server::{
    bound_socket, owns_socket, waits_for_children, FileFacts, ServerNext, ServerStage, ServerState,
    SocketIdentity,
};

fn identity(inode: u64) -> SocketIdentity {
    SocketIdentity { device: 1, inode }
}

fn facts(is_socket: bool, inode: u64) -> FileFacts {
    FileFacts {
        is_socket,
        identity: identity(inode),
    }
}

#[test]
fn only_the_own_socket_is_removed() {
    assert!(owns_socket(Some(facts(true, 7)), identity(7)));
    assert!(!owns_socket(Some(facts(true, 8)), identity(7)));
    assert!(!owns_socket(Some(facts(false, 7)), identity(7)));
    assert!(!owns_socket(None, identity(7)));
    assert_eq!(bound_socket(facts(true, 7)), Ok(identity(7)));
    assert_eq!(
        bound_socket(facts(false, 7)),
        Err("broker listener path is not a Unix socket".to_owned())
    );
}

#[test]
fn a_drained_endpoint_is_brought_back() {
    let mut server = ServerState::started(identity(7));
    assert_eq!(
        server.advance(ServerStage::Resume),
        ServerNext::Reply(Ok(()))
    );
    assert_eq!(
        server.advance(ServerStage::Drain),
        ServerNext::RemoveSocket(identity(7))
    );
    assert!(!server.watching);
    assert_eq!(
        server.advance(ServerStage::DrainedSocket(Err("denied".to_owned()))),
        ServerNext::Reply(Err("denied".to_owned()))
    );
    assert_eq!(server.advance(ServerStage::Drain), ServerNext::Reply(Ok(())));
    assert_eq!(server.advance(ServerStage::Resume), ServerNext::StartWatch);
    assert_eq!(
        server.advance(ServerStage::WatchStarted(Ok(()))),
        ServerNext::Rebind
    );
    assert_eq!(
        server.advance(ServerStage::Rebound(Err("busy".to_owned()))),
        ServerNext::Reply(Err("busy".to_owned()))
    );
    assert!(!server.watching);
    assert_eq!(
        server.advance(ServerStage::WatchStarted(Err("limit".to_owned()))),
        ServerNext::Reply(Err("limit".to_owned()))
    );
    server.advance(ServerStage::WatchStarted(Ok(())));
    assert_eq!(
        server.advance(ServerStage::Rebound(Ok(identity(9)))),
        ServerNext::Reply(Ok(()))
    );
    assert_eq!(server, ServerState::started(identity(9)));
}

#[test]
fn a_ticket_is_handed_over_when_nothing_is_held() {
    let mut server = ServerState::started(identity(7));
    assert_eq!(server.advance(ServerStage::Stop), ServerNext::StopHost);
    assert_eq!(
        server.advance(ServerStage::HostStopped(Ok(()))),
        ServerNext::RemoveSocket(identity(7))
    );
    assert_eq!(
        server.advance(ServerStage::StoppedSocket(Ok(()))),
        ServerNext::SendTicket
    );
    assert_eq!(
        server.advance(ServerStage::TicketSent { taken: true }),
        ServerNext::Finish
    );
    assert_eq!(server.finish(), (None, true));

    let mut drained = ServerState::started(identity(7));
    drained.advance(ServerStage::Drain);
    drained.advance(ServerStage::Stop);
    assert_eq!(
        drained.advance(ServerStage::HostStopped(Ok(()))),
        ServerNext::SendTicket
    );
    drained.advance(ServerStage::TicketSent { taken: false });
    assert_eq!(drained.finish(), (None, false));
}

#[test]
fn a_stop_that_fails_still_ends_under_supervision() {
    let mut server = ServerState::started(identity(7));
    server.advance(ServerStage::Stop);
    assert_eq!(
        server.advance(ServerStage::HostStopped(Err("stuck".to_owned()))),
        ServerNext::RefuseAndFinish("stuck".to_owned())
    );
    assert_eq!(server.finish(), (Some(identity(7)), true));

    let mut server = ServerState::started(identity(7));
    server.advance(ServerStage::Stop);
    server.advance(ServerStage::HostStopped(Ok(())));
    assert_eq!(
        server.advance(ServerStage::StoppedSocket(Err("denied".to_owned()))),
        ServerNext::RefuseAndFinish("denied".to_owned())
    );
    assert_eq!(server.finish(), (None, true));
}

#[test]
fn a_shutdown_leaves_the_socket_to_be_removed() {
    for stage in [ServerStage::Shutdown, ServerStage::CommandsClosed] {
        let mut server = ServerState::started(identity(7));
        assert_eq!(server.advance(stage), ServerNext::Finish);
        assert_eq!(server.finish(), (Some(identity(7)), false));
    }
    assert!(waits_for_children(true, false));
    assert!(!waits_for_children(true, true));
    assert!(!waits_for_children(false, false));
}
