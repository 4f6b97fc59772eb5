//! A peer's side of a connection: one request at a time, and no event lost meanwhile.
use crate::activation::LiveServerIdentity;
use crate::broker::counter_after;
use crate::ids::RequestId;
use crate::protocol::PeerRole;
use crate::table::Key;
use crate::text::{counter_bytes, law_counter_identities_differ, spells_counter};
use vstd::prelude::*;

verus! {

/// Why a peer cannot go on with the broker.
#[derive(Debug, PartialEq, Eq)]
#[allow(inconsistent_fields)]
pub enum ClientError {
    UnsupportedRole(PeerRole),
    IdentityMismatch,
    ConnectionClosed,
    ExpectedWelcome,
    ExpectedResponse,
    UnexpectedResponse { expected: RequestId, actual: RequestId },
    ExpectedEvent,
}

/// A message of the broker, as far as the peer's side looks at it.
#[derive(Debug, PartialEq, Eq)]
#[allow(inconsistent_fields)]
pub enum BrokerMessage<E> {
    Welcome { request_id: RequestId, live_server: LiveServerIdentity },
    Response { request_id: RequestId },
    Event(E),
    /// A message that only a peer sends.
    Other,
}

/// What follows a message that came while a response is awaited.
#[derive(Debug, PartialEq, Eq)]
pub enum AnswerStep {
    /// It is the response.
    Return,
    /// It was an event, which is kept; the next message is looked at.
    Again,
    Fail(ClientError),
}

/// What a peer's side holds.
#[verifier::ext_equal]
pub struct ClientModel<E> {
    pub events: Seq<E>,
    pub next_request: u64,
}

/// A peer's side of a connection.
#[derive(Debug)]
pub struct ClientState<E> {
    events: Vec<E>,
    next_request: u64,
}

impl<E> View for ClientState<E> {
    type V = ClientModel<E>;

    closed spec fn view(&self) -> ClientModel<E> {
        ClientModel { events: self.events@, next_request: self.next_request }
    }
}

/// Refuses to connect as anything but a launcher or a UI.
pub fn require_client_role(role: PeerRole) -> (r: Result<(), ClientError>)
    ensures
        r == if role == PeerRole::Launcher || role == PeerRole::Ui {
            Ok::<(), ClientError>(())
        } else {
            Err(ClientError::UnsupportedRole(role))
        },
        r is Err <==> role is Broker || role is ActivationCoordinator,
        r matches Err(error) ==> error == ClientError::UnsupportedRole(role),
{
    match role {
        PeerRole::Launcher | PeerRole::Ui => Ok(()),
        _ => Err(ClientError::UnsupportedRole(role)),
    }
}

/// Whether the broker's first message welcomes the peer: it has to answer the peer's own greeting, and
/// for the server that the peer named.
pub fn accept_welcome<E>(
    request_id: RequestId,
    live_server: &LiveServerIdentity,
    message: &BrokerMessage<E>,
) -> (r: Result<(), ClientError>)
    ensures
        r == (match *message {
            BrokerMessage::Welcome { request_id: answered, live_server: served } => {
                if answered@ == request_id@ && served@ == live_server@ {
                    Ok::<(), ClientError>(())
                } else {
                    Err(ClientError::IdentityMismatch)
                }
            },
            _ => Err(ClientError::ExpectedWelcome),
        }),
        r is Ok <==> message is Welcome && message->Welcome_request_id@ == request_id@
            && message->Welcome_live_server@ == live_server@,
        !(message is Welcome) ==> r == Err::<(), ClientError>(ClientError::ExpectedWelcome),
{
    match message {
        BrokerMessage::Welcome { request_id: answered, live_server: served } => {
            if answered.same(&request_id) && served.same(live_server) {
                Ok(())
            } else {
                Err(ClientError::IdentityMismatch)
            }
        },
        _ => Err(ClientError::ExpectedWelcome),
    }
}

/// The event that a message is, where no request is pending.
pub fn expect_event<E>(message: BrokerMessage<E>) -> (r: Result<E, ClientError>)
    ensures
        r == (match message {
            BrokerMessage::Event(event) => Ok::<E, ClientError>(event),
            _ => Err(ClientError::ExpectedEvent),
        }),
        r matches Ok(event) ==> message == BrokerMessage::Event(event),
        r is Err <==> !(message is Event),
{
    match message {
        BrokerMessage::Event(event) => Ok(event),
        _ => Err(ClientError::ExpectedEvent),
    }
}

impl<E> ClientState<E> {
    pub fn new() -> (r: Self)
        ensures
            r@ == (ClientModel { events: Seq::<E>::empty(), next_request: 1 }),
    {
        ClientState { events: Vec::new(), next_request: 1 }
    }

    /// A fresh identity for a request.
    pub fn next_request_id(&mut self) -> (r: RequestId)
        ensures
            spells_counter(r@, old(self)@.next_request),
            final(self)@ == (ClientModel {
                next_request: counter_after(old(self)@.next_request),
                ..old(self)@
            }),
    {
        let counter: u64 = self.next_request;
        self.next_request =
        match counter.checked_add(1) {
            Some(next) => next,
            None => 0,
        };
        RequestId(counter_bytes(counter))
    }

    /// Looks at a message that came while the response to `request_id` is awaited.
    pub fn answer(&mut self, request_id: RequestId, message: BrokerMessage<E>) -> (r: AnswerStep)
        ensures
            match message {
                BrokerMessage::Response { request_id: answered } => {
                    &&& final(self)@ == old(self)@
                    &&& r == if answered@ == request_id@ {
                        AnswerStep::Return
                    } else {
                        AnswerStep::Fail(
                            ClientError::UnexpectedResponse {
                                expected: request_id,
                                actual: answered,
                            },
                        )
                    }
                },
                BrokerMessage::Event(event) => {
                    &&& final(self)@ == (ClientModel {
                        events: old(self)@.events.push(event),
                        ..old(self)@
                    })
                    &&& r == AnswerStep::Again
                },
                _ => {
                    &&& final(self)@ == old(self)@
                    &&& r == AnswerStep::Fail(ClientError::ExpectedResponse)
                },
            },
            r is Return <==> message is Response && message->Response_request_id@ == request_id@,
            r is Again <==> message is Event,
            old(self)@.events.is_prefix_of(final(self)@.events),
            final(self)@.events.len() == old(self)@.events.len() + if message is Event {
                1int
            } else {
                0
            },
            message matches BrokerMessage::Event(event) ==> final(self)@.events.last() == event,
            final(self)@.next_request == old(self)@.next_request,
    {
        match message {
            BrokerMessage::Response { request_id: answered } => {
                if answered.same(&request_id) {
                    AnswerStep::Return
                } else {
                    AnswerStep::Fail(
                        ClientError::UnexpectedResponse {
                            expected: request_id,
                            actual: answered,
                        },
                    )
                }
            },
            BrokerMessage::Event(event) => {
                self.events.push(event);
                AnswerStep::Again
            },
            _ => AnswerStep::Fail(ClientError::ExpectedResponse),
        }
    }

    /// The first of the events that were kept.
    pub fn take_event(&mut self) -> (r: Option<E>)
        ensures
            if old(self)@.events.len() == 0 {
                r is None && final(self)@ == old(self)@
            } else {
                &&& r == Some(old(self)@.events[0])
                &&& final(self)@ == (ClientModel {
                    events: old(self)@.events.drop_first(),
                    ..old(self)@
                })
            },
            r is None <==> old(self)@.events.len() == 0,
            r matches Some(event) ==> old(self)@.events == seq![event] + final(self)@.events,
    {
        if self.events.len() == 0 {
            return None;
        }
        let event = self.events.remove(0);
        assert(self.events@ =~= old(self).events@.drop_first());
        assert(old(self).events@ =~= seq![event] + self.events@);
        Some(event)
    }
}

/// Two requests that are made one after the other have different identities.
pub proof fn law_request_identities_differ(first: Seq<u8>, second: Seq<u8>, counter: u64)
    requires
        spells_counter(first, counter),
        spells_counter(second, counter_after(counter)),
    ensures
        first != second,
{
    if first == second {
        law_counter_identities_differ(first, counter, counter_after(counter));
    }
}

} // verus!
