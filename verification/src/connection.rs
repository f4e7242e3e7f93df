//! Connection ends as the host stores them.

use vstd::prelude::*;
use crate::commitment::CommitmentPrefix;
use crate::identifier::{ClientId, ConnectionId};
use crate::timestamp::Duration;

verus! {

/// The state of a connection end.
#[derive(Clone, Copy, Debug, PartialEq, Eq, Structural)]
pub enum State {
    Uninitialized,
    Init,
    TryOpen,
    Open,
}

/// The other end of a connection: the client that follows this chain there,
/// the connection once it is known, and the prefix of that chain's store.
#[derive(Clone, Debug, PartialEq, Eq)]
pub struct Counterparty {
    pub client_id: ClientId,
    pub connection_id: Option<ConnectionId>,
    pub prefix: CommitmentPrefix,
}

impl Counterparty {
    pub fn new(
        client_id: ClientId,
        connection_id: Option<ConnectionId>,
        prefix: CommitmentPrefix,
    ) -> (r: Counterparty)
        ensures
            r == (Counterparty { client_id, connection_id, prefix }),
    {
        Counterparty { client_id, connection_id, prefix }
    }

    pub fn prefix(&self) -> (r: &CommitmentPrefix)
        ensures
            r == self.prefix,
    {
        &self.prefix
    }
}

/// A version of the connection protocol with the features it offers.
#[derive(Clone, Debug, PartialEq, Eq)]
pub struct Version {
    pub identifier: String,
    pub features: Vec<String>,
}

/// One end of a connection.
#[derive(Clone, Debug, PartialEq, Eq)]
pub struct ConnectionEnd {
    pub state: State,
    pub client_id: ClientId,
    pub counterparty: Counterparty,
    pub versions: Vec<Version>,
    pub delay_period: Duration,
}

impl ConnectionEnd {
    pub fn new(
        state: State,
        client_id: ClientId,
        counterparty: Counterparty,
        versions: Vec<Version>,
        delay_period: Duration,
    ) -> (r: ConnectionEnd)
        ensures
            r == (ConnectionEnd { state, client_id, counterparty, versions, delay_period }),
    {
        ConnectionEnd { state, client_id, counterparty, versions, delay_period }
    }

    pub fn state_matches(&self, other: &State) -> (r: bool)
        ensures
            r == (self.state == *other),
    {
        self.state == *other
    }

    pub fn client_id(&self) -> (r: &ClientId)
        ensures
            r == self.client_id,
    {
        &self.client_id
    }

    pub fn counterparty(&self) -> (r: &Counterparty)
        ensures
            r == self.counterparty,
    {
        &self.counterparty
    }

    pub fn delay_period(&self) -> (r: Duration)
        ensures
            r == self.delay_period,
    {
        self.delay_period
    }
}

} // verus!
