//! Tendermint light-client core for IBC: client state, header updates,
//! misbehaviour handling, commitment proofs and the packet-receive handler.
//!
//! The handlers read the host chain through the traits of [`context`] and
//! hand back what the host is to store. What the Tendermint verifier, the
//! proof verification of `ics23` and the protobuf codec compute is taken as it
//! comes: each such result has a name in the contracts, and the contracts say
//! what the library makes of it. Before each such call the library tests, on
//! plain values, that the outside code can do its arithmetic and its lookups
//! on the input, and answers with an error where it cannot.

pub mod error;
pub mod text;
pub mod height;
pub mod timestamp;
pub mod identifier;
pub mod trust_threshold;
pub mod commitment;
pub mod specs;
pub mod merkle;
pub mod path;
pub mod packet;
pub mod channel;
pub mod connection;
pub mod consensus_state;
pub mod header;
pub mod client_state;
pub mod raw;
pub mod wire;
pub mod light_client;
pub mod update;
pub mod misbehaviour;
pub mod proofs;
pub mod client;
pub mod context;
pub mod mock;
pub mod recv_packet;
