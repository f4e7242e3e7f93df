//! Channel ends as the host stores them.

use vstd::prelude::*;
use crate::identifier::{ChannelId, ConnectionId, PortId};

verus! {

/// The state of a channel end.
#[derive(Clone, Copy, Debug, PartialEq, Eq, Structural)]
pub enum State {
    Uninitialized,
    Init,
    TryOpen,
    Open,
    Closed,
}

/// The discipline in which a channel delivers its packets.
#[derive(Clone, Copy, Debug, PartialEq, Eq, Structural)]
pub enum Order {
    /// No discipline was chosen.
    Unspecified,
    Unordered,
    Ordered,
}

impl Default for Order {
    fn default() -> (r: Order)
        ensures
            r == Order::Unordered,
    {
        Order::Unordered
    }
}

/// The other end of a channel: its port, and its channel once it is known.
#[derive(Clone, Debug, PartialEq, Eq)]
pub struct Counterparty {
    pub port_id: PortId,
    pub channel_id: Option<ChannelId>,
}

impl Counterparty {
    /// The text of the channel identifier, where there is one.
    pub open spec fn channel_text(&self) -> Option<Seq<char>> {
        match self.channel_id {
            Some(id) => Some(id@),
            None => None,
        }
    }

    /// Both name the same port and the same channel.
    pub open spec fn spec_matches(&self, other: &Counterparty) -> bool {
        self.port_id@ == other.port_id@ && self.channel_text() == other.channel_text()
    }

    pub fn new(port_id: PortId, channel_id: Option<ChannelId>) -> (r: Counterparty)
        ensures
            r == (Counterparty { port_id, channel_id }),
    {
        Counterparty { port_id, channel_id }
    }

    /// Whether both name the same port and the same channel.
    pub fn matches(&self, other: &Counterparty) -> (r: bool)
        ensures
            r == self.spec_matches(other),
    {
        if !self.port_id.same(&other.port_id) {
            return false;
        }
        match (&self.channel_id, &other.channel_id) {
            (Some(a), Some(b)) => a.same(b),
            (None, None) => true,
            _ => false,
        }
    }
}

/// The version that the two ends of a channel agreed on.
#[derive(Clone, Debug, PartialEq, Eq)]
pub struct Version {
    pub text: String,
}

impl Version {
    pub fn new(text: String) -> (r: Version)
        ensures
            r == (Version { text }),
    {
        Version { text }
    }
}

/// One end of a channel.
#[derive(Clone, Debug, PartialEq, Eq)]
pub struct ChannelEnd {
    pub state: State,
    pub ordering: Order,
    pub remote: Counterparty,
    pub connection_hops: Vec<ConnectionId>,
    pub version: Version,
}

impl ChannelEnd {
    pub fn new(
        state: State,
        ordering: Order,
        remote: Counterparty,
        connection_hops: Vec<ConnectionId>,
        version: Version,
    ) -> (r: ChannelEnd)
        ensures
            r == (ChannelEnd { state, ordering, remote, connection_hops, version }),
    {
        ChannelEnd { state, ordering, remote, connection_hops, version }
    }

    pub fn state_matches(&self, other: &State) -> (r: bool)
        ensures
            r == (self.state == *other),
    {
        self.state == *other
    }

    pub fn order_matches(&self, other: &Order) -> (r: bool)
        ensures
            r == (self.ordering == *other),
    {
        self.ordering == *other
    }

    pub fn counterparty_matches(&self, other: &Counterparty) -> (r: bool)
        ensures
            r == self.remote.spec_matches(other),
    {
        self.remote.matches(other)
    }

    pub fn connection_hops(&self) -> (r: &Vec<ConnectionId>)
        ensures
            r == self.connection_hops,
    {
        &self.connection_hops
    }
}

} // verus!
