//! Bringing up a connection before its streams are dispatched.
//!
//! A connection over a transport that has to be set up first passes two
//! steps: the transport connects, then the protocol shakes hands on it. What
//! was settled when the connection was asked for is carried through both and
//! ends up, unchanged, in the dispatcher. Whoever waits for the steps acts
//! and the types here decide what follows from each.

use crate::dispatch::accept::Dispatcher;
use crate::message::ServiceConfig;
use vstd::prelude::*;

verus! {

/// The failure of a connection as a whole. `E` is what the service fails
/// with, `Q` what connecting the transport fails with, `H` what the
/// handshake fails with.
#[derive(Debug)]
pub enum ConnectionError<E, Q, H> {
    /// The service is not ready to take requests.
    Service(E),
    /// The transport did not connect.
    H3Connection(Q),
    /// The handshake of the protocol failed.
    H3(H),
}

/// A connection that waits for its transport to connect.
pub struct Connecting<F, D, A> {
    /// The handle on the service that answers requests.
    pub flow: F,
    /// The settings for the pipelines of the connection.
    pub config: ServiceConfig,
    /// The address of the peer, where it is known.
    pub peer_addr: Option<A>,
    /// What was gathered when the connection was asked for.
    pub on_connect_data: D,
}

/// A connection whose transport has connected and that waits for the
/// handshake of the protocol.
pub struct Handshaking<F, D, A> {
    /// The handle on the service that answers requests.
    pub flow: F,
    /// The settings for the pipelines of the connection.
    pub config: ServiceConfig,
    /// The address of the peer, where it is known.
    pub peer_addr: Option<A>,
    /// What was gathered when the connection was asked for.
    pub on_connect_data: D,
}

/// Whether the service is ready, as the outcome of the connection sees it:
/// a service that is not ready fails the connection with what it reports.
pub fn on_ready<E, Q, H>(ready: Result<(), E>) -> (outcome: Result<(), ConnectionError<E, Q, H>>)
    ensures
        outcome == (match ready {
            Ok(_) => Ok::<(), ConnectionError<E, Q, H>>(()),
            Err(error) => Err(ConnectionError::Service(error)),
        }),
{
    match ready {
        Ok(_) => Ok(()),
        Err(error) => Err(ConnectionError::Service(error)),
    }
}

impl<F, D, A> Connecting<F, D, A> {
    /// A connection that was asked for and waits for its transport.
    pub fn new(
        flow: F,
        config: ServiceConfig,
        peer_addr: Option<A>,
        on_connect_data: D,
    ) -> (connecting: Self)
        ensures
            connecting.flow == flow,
            connecting.config == config,
            connecting.peer_addr == peer_addr,
            connecting.on_connect_data == on_connect_data,
    {
        Connecting { flow, config, peer_addr, on_connect_data }
    }

    /// Takes in how connecting the transport went: the connection goes on to
    /// the handshake over what was connected, or fails with what connecting
    /// failed with.
    pub fn on_connected<N, E, Q, H>(self, made: Result<N, Q>) -> (step: Result<
        (Handshaking<F, D, A>, N),
        ConnectionError<E, Q, H>,
    >)
        ensures
            (match made {
                Ok(transport) => step == Ok::<
                    (Handshaking<F, D, A>, N),
                    ConnectionError<E, Q, H>,
                >(
                    (
                        Handshaking {
                            flow: self.flow,
                            config: self.config,
                            peer_addr: self.peer_addr,
                            on_connect_data: self.on_connect_data,
                        },
                        transport,
                    ),
                ),
                Err(error) => step == Err::<
                    (Handshaking<F, D, A>, N),
                    ConnectionError<E, Q, H>,
                >(ConnectionError::H3Connection(error)),
            }),
    {
        match made {
            Ok(transport) => Ok(
                (
                    Handshaking {
                        flow: self.flow,
                        config: self.config,
                        peer_addr: self.peer_addr,
                        on_connect_data: self.on_connect_data,
                    },
                    transport,
                ),
            ),
            Err(error) => Err(ConnectionError::H3Connection(error)),
        }
    }
}

impl<F, D, A> Handshaking<F, D, A> {
    /// Takes in how the handshake went: the connection gets its dispatcher,
    /// which accepts streams and holds what the connection was asked for
    /// with, or fails with what the handshake failed with.
    pub fn on_handshake<C, E, Q, H>(self, made: Result<C, H>) -> (step: Result<
        Dispatcher<F, C, D, A>,
        ConnectionError<E, Q, H>,
    >)
        ensures
            (match made {
                Ok(connection) => step == Ok::<Dispatcher<F, C, D, A>, ConnectionError<E, Q, H>>(
                    Dispatcher {
                        flow: self.flow,
                        connection,
                        on_connect_data: self.on_connect_data,
                        config: self.config,
                        peer_addr: self.peer_addr,
                        accepting: true,
                    },
                ),
                Err(error) => step == Err::<Dispatcher<F, C, D, A>, ConnectionError<E, Q, H>>(
                    ConnectionError::H3(error),
                ),
            }),
    {
        match made {
            Ok(connection) => Ok(
                Dispatcher::new(
                    self.flow,
                    connection,
                    self.on_connect_data,
                    self.config,
                    self.peer_addr,
                ),
            ),
            Err(error) => Err(ConnectionError::H3(error)),
        }
    }
}

} // verus!
