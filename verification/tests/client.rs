use muxe_broker::activation::LiveServerIdentity;
use muxe_broker::client::{
    accept_welcome, expect_event, require_client_role, AnswerStep, BrokerMessage, ClientError,
    ClientState,
};
use muxe_broker::ids::RequestId;
use muxe_broker::protocol::{HostKind, PeerRole};

fn server(id: &str) -> LiveServerIdentity {
    LiveServerIdentity {
        host: HostKind::Zellij,
        discovery_key: "key".to_owned(),
        server_id: id.to_owned(),
    }
}

#[test]
fn only_launchers_and_uis_connect() {
    assert_eq!(require_client_role(PeerRole::Launcher), Ok(()));
    assert_eq!(require_client_role(PeerRole::Ui), Ok(()));
    for role in [PeerRole::Broker, PeerRole::ActivationCoordinator] {
        assert_eq!(
            require_client_role(role),
            Err(ClientError::UnsupportedRole(role))
        );
    }
}

#[test]
fn identities_count_up() {
    let mut client: ClientState<u8> = ClientState::new();
    let mut first = [0u8; 16];
    first[15] = 1;
    assert_eq!(client.next_request_id(), RequestId(first));
    first[15] = 2;
    assert_eq!(client.next_request_id(), RequestId(first));
}

#[test]
fn a_welcome_answers_the_greeting_for_the_named_server() {
    let id = RequestId([1; 16]);
    let welcome = |request_id, name: &str| BrokerMessage::<u8>::Welcome {
        request_id,
        live_server: server(name),
    };
    assert_eq!(accept_welcome(id, &server("a"), &welcome(id, "a")), Ok(()));
    assert_eq!(
        accept_welcome(id, &server("a"), &welcome(id, "b")),
        Err(ClientError::IdentityMismatch)
    );
    assert_eq!(
        accept_welcome(id, &server("a"), &welcome(RequestId([2; 16]), "a")),
        Err(ClientError::IdentityMismatch)
    );
    assert_eq!(
        accept_welcome(id, &server("a"), &BrokerMessage::<u8>::Other),
        Err(ClientError::ExpectedWelcome)
    );
}

#[test]
fn events_are_kept_in_order_while_a_response_is_awaited() {
    let mut client = ClientState::new();
    let id = client.next_request_id();
    assert_eq!(client.answer(id, BrokerMessage::Event("first")), AnswerStep::Again);
    assert_eq!(client.answer(id, BrokerMessage::Event("second")), AnswerStep::Again);
    assert_eq!(
        client.answer(id, BrokerMessage::Response { request_id: id }),
        AnswerStep::Return
    );
    assert_eq!(client.take_event(), Some("first"));
    assert_eq!(client.take_event(), Some("second"));
    assert_eq!(client.take_event(), None);
    let other = RequestId([9; 16]);
    assert_eq!(
        client.answer(id, BrokerMessage::Response { request_id: other }),
        AnswerStep::Fail(ClientError::UnexpectedResponse {
            expected: id,
            actual: other
        })
    );
    assert_eq!(
        client.answer(id, BrokerMessage::Other),
        AnswerStep::Fail(ClientError::ExpectedResponse)
    );
    assert_eq!(expect_event(BrokerMessage::Event(3)), Ok(3));
    assert_eq!(
        expect_event(BrokerMessage::<u8>::Response { request_id: id }),
        Err(ClientError::ExpectedEvent)
    );
}
