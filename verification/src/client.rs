//! The clients that the host may hold, by kind.

use vstd::prelude::*;
use crate::client_state::{ClientState, ClientStateView};
use crate::commitment::CommitmentRoot;
use crate::consensus_state::{ConsensusState, ConsensusStateView};
use crate::context::ClientReader;
use crate::error::ClientError;
use crate::header::Any;
use crate::identifier::ClientId;
use crate::mock::{mock_header_of_any, mock_report_headers};
use crate::update::same_update;
use crate::height::Height;
use crate::identifier::ClientType;
use crate::mock::{MockClientState, MockConsensusState};
use crate::timestamp::Timestamp;

verus! {

broadcast use crate::commitment::CommitmentRoot::lemma_of;

/// The state of a client of one of the kinds that the host knows.
#[derive(Clone, Debug, PartialEq, Eq)]
pub enum AnyClientState {
    Tendermint(ClientState),
    Mock(MockClientState),
}

/// The state of a client as plain values.
pub enum AnyClientStateView {
    Tendermint(ClientStateView),
    Mock(MockClientState),
}

impl View for AnyClientState {
    type V = AnyClientStateView;

    open spec fn view(&self) -> AnyClientStateView {
        match self {
            AnyClientState::Tendermint(cs) => AnyClientStateView::Tendermint(cs@),
            AnyClientState::Mock(cs) => AnyClientStateView::Mock(*cs),
        }
    }
}

impl AnyClientState {
    /// The latest height that the client has reached.
    pub open spec fn spec_latest_height(&self) -> Height {
        match self {
            AnyClientState::Tendermint(cs) => cs.latest_height,
            AnyClientState::Mock(cs) => cs.header.height,
        }
    }

    /// The height from which the client is frozen, if it is.
    pub open spec fn spec_frozen_height(&self) -> Option<Height> {
        match self {
            AnyClientState::Tendermint(cs) => cs.frozen_height,
            AnyClientState::Mock(cs) => cs.frozen_height,
        }
    }

    pub fn latest_height(&self) -> (r: Height)
        ensures
            r == self.spec_latest_height(),
    {
        match self {
            AnyClientState::Tendermint(cs) => cs.latest_height(),
            AnyClientState::Mock(cs) => cs.latest_height(),
        }
    }

    pub fn frozen_height(&self) -> (r: Option<Height>)
        ensures
            r == self.spec_frozen_height(),
    {
        match self {
            AnyClientState::Tendermint(cs) => cs.frozen_height(),
            AnyClientState::Mock(cs) => cs.frozen_height,
        }
    }

    pub fn is_frozen(&self) -> (r: bool)
        ensures
            r == self.spec_frozen_height().is_some(),
    {
        self.frozen_height().is_some()
    }

    pub fn client_type(&self) -> (r: ClientType)
        ensures
            self is Tendermint ==> r == ClientType::Tendermint,
            self is Mock ==> r == ClientType::Mock,
    {
        match self {
            AnyClientState::Tendermint(cs) => cs.client_type(),
            AnyClientState::Mock(_) => crate::mock::client_type(),
        }
    }
}

impl AnyClientState {
    /// What an update of the client with an encoded header gives.
    pub open spec fn updated_by<Ctx: ClientReader>(
        &self,
        ctx: &Ctx,
        client_id: &ClientId,
        header: &Any,
    ) -> Result<UpdatedState, ClientError> {
        match self {
            AnyClientState::Tendermint(cs) => cs.updated_by(ctx, client_id, header),
            AnyClientState::Mock(cs) => match mock_header_of_any(header) {
                Err(e) => Err(e),
                Ok(h) => cs.updated(h),
            },
        }
    }

    /// Updates the client with an encoded header, as its kind does.
    pub fn check_header_and_update_state<Ctx: ClientReader>(
        &self,
        ctx: &Ctx,
        client_id: ClientId,
        header: Any,
    ) -> (r: Result<UpdatedState, ClientError>)
        ensures
            same_update(r, self.updated_by(ctx, &client_id, &header)),
    {
        match self {
            AnyClientState::Tendermint(cs) => cs.check_header_and_update_state(
                ctx,
                client_id,
                header,
            ),
            AnyClientState::Mock(cs) => cs.check_header_and_update_state(header),
        }
    }

    /// Checks an encoded report of misbehaviour and freezes the client
    /// where the report holds, as its kind does.
    pub fn check_misbehaviour_and_update_state<Ctx: ClientReader>(
        &self,
        ctx: &Ctx,
        client_id: ClientId,
        misbehaviour: Any,
    ) -> (r: Result<AnyClientState, ClientError>)
        ensures
            self matches AnyClientState::Mock(cs) ==> r == match mock_report_headers(
                &misbehaviour,
            ) {
                Err(e) => Err(e),
                Ok((header1, header2)) => cs.frozen_by(header1, header2),
            },
            self matches AnyClientState::Tendermint(cs) ==> cs.reported(
                ctx,
                &client_id,
                &misbehaviour,
                r,
            ),
    {
        match self {
            AnyClientState::Tendermint(cs) => cs.check_misbehaviour_and_update_state(
                ctx,
                client_id,
                misbehaviour,
            ),
            AnyClientState::Mock(cs) => cs.check_misbehaviour_and_update_state(misbehaviour),
        }
    }
}

/// The consensus state of a client of one of the kinds that the host knows.
#[derive(Clone, Debug, PartialEq, Eq)]
pub enum AnyConsensusState {
    Tendermint(ConsensusState),
    Mock(MockConsensusState),
}

/// The consensus state of a client as plain values.
pub enum AnyConsensusStateView {
    Tendermint(ConsensusStateView),
    Mock(MockConsensusState),
}

impl View for AnyConsensusState {
    type V = AnyConsensusStateView;

    open spec fn view(&self) -> AnyConsensusStateView {
        match self {
            AnyConsensusState::Tendermint(cs) => AnyConsensusStateView::Tendermint(cs@),
            AnyConsensusState::Mock(cs) => AnyConsensusStateView::Mock(*cs),
        }
    }
}

impl AnyConsensusState {
    /// The time of the block that the state was made from.
    pub open spec fn spec_timestamp(&self) -> Timestamp {
        match self {
            AnyConsensusState::Tendermint(cs) => cs.timestamp,
            AnyConsensusState::Mock(cs) => cs.header.timestamp,
        }
    }

    pub fn timestamp(&self) -> (r: Timestamp)
        ensures
            r == self.spec_timestamp(),
    {
        match self {
            AnyConsensusState::Tendermint(cs) => cs.timestamp(),
            AnyConsensusState::Mock(cs) => cs.timestamp(),
        }
    }

    /// The bytes of the commitment root of the state. The root of a mock
    /// state is one zero byte.
    pub open spec fn spec_root(&self) -> Seq<u8> {
        match self {
            AnyConsensusState::Tendermint(cs) => cs.root@,
            AnyConsensusState::Mock(_) => seq![0u8],
        }
    }

    /// The commitment root of the state.
    pub fn root(&self) -> (r: CommitmentRoot)
        ensures
            r@ == self.spec_root(),
    {
        match self {
            AnyConsensusState::Tendermint(cs) => CommitmentRoot::from_bytes(cs.root.as_bytes()),
            AnyConsensusState::Mock(_) => {
                let mut bytes: Vec<u8> = Vec::new();
                bytes.push(0);
                assert(bytes@ =~= seq![0u8]);
                CommitmentRoot::from(bytes)
            },
        }
    }

    pub fn client_type(&self) -> (r: ClientType)
        ensures
            self is Tendermint ==> r == ClientType::Tendermint,
            self is Mock ==> r == ClientType::Mock,
    {
        match self {
            AnyConsensusState::Tendermint(_) => ClientType::Tendermint,
            AnyConsensusState::Mock(_) => crate::mock::client_type(),
        }
    }
}

/// What an update hands to the host to store: the new state of the client
/// and the consensus state at the height of the header.
#[derive(Clone, Debug, PartialEq, Eq)]
pub struct UpdatedState {
    pub client_state: AnyClientState,
    pub consensus_state: AnyConsensusState,
}

/// An update as plain values.
pub struct UpdatedStateView {
    pub client_state: AnyClientStateView,
    pub consensus_state: AnyConsensusStateView,
}

impl View for UpdatedState {
    type V = UpdatedStateView;

    open spec fn view(&self) -> UpdatedStateView {
        UpdatedStateView {
            client_state: self.client_state@,
            consensus_state: self.consensus_state@,
        }
    }
}

/// The failure to find a Tendermint state where one was expected.
pub open spec fn type_mismatch() -> ClientError {
    ClientError::ClientArgsTypeMismatch { client_type: ClientType::Tendermint }
}

/// The Tendermint client state in `cs`, where it is one.
pub fn downcast_tm_client_state(cs: &AnyClientState) -> (r: Result<&ClientState, ClientError>)
    ensures
        r == match cs {
            AnyClientState::Tendermint(tm) => Ok::<&ClientState, ClientError>(tm),
            _ => Err(type_mismatch()),
        },
{
    match cs {
        AnyClientState::Tendermint(tm) => Ok(tm),
        _ => Err(ClientError::ClientArgsTypeMismatch { client_type: ClientType::Tendermint }),
    }
}

/// The Tendermint consensus state in `cs`, where it is one.
pub fn downcast_tm_consensus_state(cs: &AnyConsensusState) -> (r: Result<
    &ConsensusState,
    ClientError,
>)
    ensures
        r == match cs {
            AnyConsensusState::Tendermint(tm) => Ok::<&ConsensusState, ClientError>(tm),
            _ => Err(type_mismatch()),
        },
{
    match cs {
        AnyConsensusState::Tendermint(tm) => Ok(tm),
        _ => Err(ClientError::ClientArgsTypeMismatch { client_type: ClientType::Tendermint }),
    }
}

} // verus!
