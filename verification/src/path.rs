//! The paths under which a chain stores what IBC proofs speak of.

use vstd::prelude::*;
use vstd::string::*;
use crate::identifier::{ChannelId, ClientId, ConnectionId, PortId};
use crate::packet::Sequence;
use crate::text::{append_decimal, decimal_digits};

verus! {

/// `clients/<id>/consensusStates/<revision>-<height>`
pub open spec fn client_consensus_state_path(client_id: Seq<char>, epoch: u64, height: u64) -> Seq<
    char,
> {
    "clients/"@ + client_id + "/consensusStates/"@ + decimal_digits(epoch as nat) + "-"@
        + decimal_digits(height as nat)
}

/// `clients/<id>/clientState`
pub open spec fn client_state_path(client_id: Seq<char>) -> Seq<char> {
    "clients/"@ + client_id + "/clientState"@
}

/// `connections/<id>`
pub open spec fn connections_path(connection_id: Seq<char>) -> Seq<char> {
    "connections/"@ + connection_id
}

/// `ports/<port>/channels/<channel>`
pub open spec fn channel_part(port_id: Seq<char>, channel_id: Seq<char>) -> Seq<char> {
    "ports/"@ + port_id + "/channels/"@ + channel_id
}

/// `channelEnds/ports/<port>/channels/<channel>`
pub open spec fn channel_ends_path(port_id: Seq<char>, channel_id: Seq<char>) -> Seq<char> {
    "channelEnds/"@ + channel_part(port_id, channel_id)
}

/// `nextSequenceRecv/ports/<port>/channels/<channel>`
pub open spec fn seq_recvs_path(port_id: Seq<char>, channel_id: Seq<char>) -> Seq<char> {
    "nextSequenceRecv/"@ + channel_part(port_id, channel_id)
}

/// `commitments/ports/<port>/channels/<channel>/sequences/<sequence>`
pub open spec fn commitments_path(port_id: Seq<char>, channel_id: Seq<char>, sequence: u64) -> Seq<
    char,
> {
    "commitments/"@ + channel_part(port_id, channel_id) + "/sequences/"@ + decimal_digits(
        sequence as nat,
    )
}

/// `acks/ports/<port>/channels/<channel>/sequences/<sequence>`
pub open spec fn acks_path(port_id: Seq<char>, channel_id: Seq<char>, sequence: u64) -> Seq<char> {
    "acks/"@ + channel_part(port_id, channel_id) + "/sequences/"@ + decimal_digits(sequence as nat)
}

/// `receipts/ports/<port>/channels/<channel>/sequences/<sequence>`
pub open spec fn receipts_path(port_id: Seq<char>, channel_id: Seq<char>, sequence: u64) -> Seq<
    char,
> {
    "receipts/"@ + channel_part(port_id, channel_id) + "/sequences/"@ + decimal_digits(
        sequence as nat,
    )
}

/// Appends `ports/<port>/channels/<channel>`.
fn append_channel_part(out: &mut String, port_id: &PortId, channel_id: &ChannelId)
    ensures
        final(out)@ == old(out)@ + channel_part(port_id@, channel_id@),
{
    out.append("ports/");
    out.append(port_id.as_str());
    out.append("/channels/");
    out.append(channel_id.as_str());
    assert(out@ =~= old(out)@ + channel_part(port_id@, channel_id@));
}

/// The path of the consensus state of a client at a height.
pub fn client_consensus_state(client_id: &ClientId, epoch: u64, height: u64) -> (r: String)
    ensures
        r@ == client_consensus_state_path(client_id@, epoch, height),
{
    let mut out = String::from_str("clients/");
    out.append(client_id.as_str());
    out.append("/consensusStates/");
    append_decimal(&mut out, epoch);
    out.append("-");
    append_decimal(&mut out, height);
    assert(out@ =~= client_consensus_state_path(client_id@, epoch, height));
    out
}

/// The path of the state of a client.
pub fn client_state(client_id: &ClientId) -> (r: String)
    ensures
        r@ == client_state_path(client_id@),
{
    let mut out = String::from_str("clients/");
    out.append(client_id.as_str());
    out.append("/clientState");
    assert(out@ =~= client_state_path(client_id@));
    out
}

/// The path of a connection end.
pub fn connections(connection_id: &ConnectionId) -> (r: String)
    ensures
        r@ == connections_path(connection_id@),
{
    let mut out = String::from_str("connections/");
    out.append(connection_id.as_str());
    assert(out@ =~= connections_path(connection_id@));
    out
}

/// The path of a channel end.
pub fn channel_ends(port_id: &PortId, channel_id: &ChannelId) -> (r: String)
    ensures
        r@ == channel_ends_path(port_id@, channel_id@),
{
    let mut out = String::from_str("channelEnds/");
    append_channel_part(&mut out, port_id, channel_id);
    out
}

/// The path of the next sequence number that a channel receives.
pub fn seq_recvs(port_id: &PortId, channel_id: &ChannelId) -> (r: String)
    ensures
        r@ == seq_recvs_path(port_id@, channel_id@),
{
    let mut out = String::from_str("nextSequenceRecv/");
    append_channel_part(&mut out, port_id, channel_id);
    out
}

/// The path of the commitment to a packet.
pub fn commitments(port_id: &PortId, channel_id: &ChannelId, sequence: Sequence) -> (r: String)
    ensures
        r@ == commitments_path(port_id@, channel_id@, sequence.0),
{
    let mut out = String::from_str("commitments/");
    append_channel_part(&mut out, port_id, channel_id);
    out.append("/sequences/");
    append_decimal(&mut out, sequence.value());
    assert(out@ =~= commitments_path(port_id@, channel_id@, sequence.0));
    out
}

/// The path of the commitment to an acknowledgement.
pub fn acks(port_id: &PortId, channel_id: &ChannelId, sequence: Sequence) -> (r: String)
    ensures
        r@ == acks_path(port_id@, channel_id@, sequence.0),
{
    let mut out = String::from_str("acks/");
    append_channel_part(&mut out, port_id, channel_id);
    out.append("/sequences/");
    append_decimal(&mut out, sequence.value());
    assert(out@ =~= acks_path(port_id@, channel_id@, sequence.0));
    out
}

/// The path of the receipt of a packet.
pub fn receipts(port_id: &PortId, channel_id: &ChannelId, sequence: Sequence) -> (r: String)
    ensures
        r@ == receipts_path(port_id@, channel_id@, sequence.0),
{
    let mut out = String::from_str("receipts/");
    append_channel_part(&mut out, port_id, channel_id);
    out.append("/sequences/");
    append_decimal(&mut out, sequence.value());
    assert(out@ =~= receipts_path(port_id@, channel_id@, sequence.0));
    out
}

} // verus!
