//! The header update flow: a header that verifies moves the client on, and a
//! header that contradicts what the host holds freezes it.

use vstd::prelude::*;
use crate::client::{type_mismatch, AnyClientState, AnyConsensusState, UpdatedState};
use crate::client_state::ClientState;
use crate::consensus_state::ConsensusState;
use crate::context::ClientReader;
use crate::error::{ClientError, Error};
use crate::header::{header_of_bytes, Any, Header, HeaderInfo, TENDERMINT_HEADER_TYPE_URL};
use crate::height::Height;
use crate::identifier::{ClientId, ClientType};
use crate::light_client::{checked, run_check, Check, Verdict};
use crate::timestamp::Timestamp;

verus! {

broadcast use {
    crate::height::Height::lemma_parts,
    crate::height::Height::lemma_of,
    crate::timestamp::Timestamp::lemma_parts,
    crate::timestamp::Timestamp::lemma_of,
    crate::commitment::CommitmentRoot::lemma_of,
};

/// An update is the expected one: the same error, or states with the same
/// values.
pub open spec fn same_update(
    r: Result<UpdatedState, ClientError>,
    expected: Result<UpdatedState, ClientError>,
) -> bool {
    match (r, expected) {
        (Ok(a), Ok(b)) => a@ == b@,
        (Err(a), Err(b)) => a == b,
        _ => false,
    }
}

/// The error that a verdict stands for, if it is not a success.
pub open spec fn verdict_error(verdict: Verdict) -> Option<Error> {
    match verdict {
        Verdict::Success => None,
        Verdict::NotEnoughTrust(reason) => Some(Error::NotEnoughTrustedValsSigned { reason }),
        Verdict::Invalid(detail) => Some(Error::VerificationError { detail }),
    }
}

/// What the host's answer for the height of the header means: a Tendermint
/// consensus state that is already there, none, or an error.
pub open spec fn existing_state(answer: Result<AnyConsensusState, ClientError>) -> Result<
    Option<ConsensusState>,
    ClientError,
> {
    match answer {
        Ok(AnyConsensusState::Tendermint(cs)) => Ok(Some(cs)),
        Ok(_) => Err(type_mismatch()),
        Err(ClientError::ConsensusStateNotFound { .. }) => Ok(None),
        Err(e) => Err(e),
    }
}

/// The Tendermint consensus state in the host's answer.
pub open spec fn tendermint_state(answer: Result<AnyConsensusState, ClientError>) -> Result<
    ConsensusState,
    ClientError,
> {
    match answer {
        Ok(AnyConsensusState::Tendermint(cs)) => Ok(cs),
        Ok(_) => Err(type_mismatch()),
        Err(e) => Err(e),
    }
}

/// The time of the neighbouring consensus state in the host's answer, if
/// there is a neighbour.
pub open spec fn neighbour_time(answer: Result<Option<AnyConsensusState>, ClientError>) -> Result<
    Option<Timestamp>,
    ClientError,
> {
    match answer {
        Ok(Some(AnyConsensusState::Tendermint(cs))) => Ok(Some(cs.timestamp)),
        Ok(Some(_)) => Err(type_mismatch()),
        Ok(None) => Ok(None),
        Err(e) => Err(e),
    }
}

/// The header is later than the consensus state that follows it.
pub open spec fn too_high(info: &HeaderInfo, next: Option<Timestamp>) -> bool {
    next matches Some(max) && info.time.spec_nanos() > max.spec_nanos()
}

/// The header is earlier than the consensus state that precedes it.
pub open spec fn too_low(info: &HeaderInfo, prev: Option<Timestamp>) -> bool {
    prev matches Some(min) && info.time.spec_nanos() < min.spec_nanos()
}

impl ClientState {
    /// The client frozen at the height of a header that contradicts the
    /// consensus state `existing`, which stays in place.
    pub open spec fn frozen_by(&self, info: &HeaderInfo, existing: ConsensusState) -> UpdatedState {
        UpdatedState {
            client_state: AnyClientState::Tendermint(
                ClientState { frozen_height: Some(info.height), ..*self },
            ),
            consensus_state: AnyConsensusState::Tendermint(existing),
        }
    }

    /// The client moved to the height of the header, with the consensus
    /// state that the header leaves behind.
    pub open spec fn moved_to(&self, info: &HeaderInfo) -> UpdatedState {
        UpdatedState {
            client_state: AnyClientState::Tendermint(
                ClientState {
                    latest_height: Height::of(self.latest_height.rev(), info.height.num()),
                    ..*self
                },
            ),
            consensus_state: AnyConsensusState::Tendermint(info.spec_consensus_state()),
        }
    }

    /// What becomes of the client once the verifier has given its verdict
    /// on a header: the verifier's error; the client frozen, where the host
    /// already holds another consensus state at the height of the header; an
    /// error, where the time of the header does not lie between the times of
    /// the consensus states next to it; and the client moved on otherwise.
    pub open spec fn concluded(
        &self,
        info: &HeaderInfo,
        existing: Option<ConsensusState>,
        verdict: Verdict,
        next: Option<Timestamp>,
        prev: Option<Timestamp>,
    ) -> Result<UpdatedState, ClientError> {
        if let Some(cause) = verdict_error(verdict) {
            Err(ClientError::ClientSpecific { cause })
        } else if existing is Some && existing.unwrap()@ != info.spec_consensus_state()@ {
            Ok(self.frozen_by(info, existing.unwrap()))
        } else if too_high(info, next) {
            Err(
                ClientError::ClientSpecific {
                    cause: Error::HeaderTimestampTooHigh { actual: info.time, max: next.unwrap() },
                },
            )
        } else if too_low(info, prev) {
            Err(
                ClientError::ClientSpecific {
                    cause: Error::HeaderTimestampTooLow { actual: info.time, min: prev.unwrap() },
                },
            )
        } else if info.height.num() == 0 {
            Err(ClientError::ClientSpecific { cause: Error::InvalidHeaderHeight { height: 0 } })
        } else {
            Ok(self.moved_to(info))
        }
    }

    /// Decides what becomes of the client once the verifier has given its
    /// verdict. `existing` is the consensus state that the host holds at the
    /// height of the header, `next` and `prev` are the times of the consensus
    /// states that the host holds next above and next below that height.
    pub fn conclude_update(
        &self,
        info: HeaderInfo,
        existing: Option<ConsensusState>,
        verdict: Verdict,
        next: Option<Timestamp>,
        prev: Option<Timestamp>,
    ) -> (r: Result<UpdatedState, ClientError>)
        ensures
            same_update(r, self.concluded(&info, existing, verdict, next, prev)),
    {
        match verdict {
            Verdict::Success => {},
            Verdict::NotEnoughTrust(reason) => {
                return Err(
                    ClientError::ClientSpecific {
                        cause: Error::NotEnoughTrustedValsSigned { reason },
                    },
                );
            },
            Verdict::Invalid(detail) => {
                return Err(
                    ClientError::ClientSpecific { cause: Error::VerificationError { detail } },
                );
            },
        }
        let height = info.height;
        let time = info.time;
        let ghost before = info;
        let header_state = info.into_consensus_state();
        if let Some(cs) = existing {
            if !cs.same(&header_state) {
                return Ok(
                    UpdatedState {
                        client_state: AnyClientState::Tendermint(
                            self.clone().with_frozen_height(height),
                        ),
                        consensus_state: AnyConsensusState::Tendermint(cs),
                    },
                );
            }
        }
        if let Some(max) = next {
            if time.nanoseconds() > max.nanoseconds() {
                return Err(
                    ClientError::ClientSpecific {
                        cause: Error::HeaderTimestampTooHigh { actual: time, max },
                    },
                );
            }
        }
        if let Some(min) = prev {
            if time.nanoseconds() < min.nanoseconds() {
                return Err(
                    ClientError::ClientSpecific {
                        cause: Error::HeaderTimestampTooLow { actual: time, min },
                    },
                );
            }
        }
        let latest = match Height::new(
            self.latest_height.revision_number(),
            height.revision_height(),
        ) {
            Ok(h) => h,
            Err(_) => {
                return Err(
                    ClientError::ClientSpecific {
                        cause: Error::InvalidHeaderHeight { height: height.revision_height() },
                    },
                );
            },
        };
        Ok(
            UpdatedState {
                client_state: AnyClientState::Tendermint(self.clone().with_latest_height(latest)),
                consensus_state: AnyConsensusState::Tendermint(header_state),
            },
        )
    }

    /// The same state at the height of a header.
    pub fn with_header(self, info: &HeaderInfo) -> (r: Result<ClientState, Error>)
        ensures
            r == if info.height.num() == 0 {
                Err::<ClientState, Error>(Error::InvalidHeaderHeight { height: 0 })
            } else {
                Ok(
                    ClientState {
                        latest_height: Height::of(self.latest_height.rev(), info.height.num()),
                        ..self
                    },
                )
            },
    {
        match Height::new(self.latest_height.revision_number(), info.height.revision_height()) {
            Ok(h) => Ok(self.with_latest_height(h)),
            Err(_) => Err(Error::InvalidHeaderHeight { height: info.height.revision_height() }),
        }
    }

    /// What an update of the client with `header` gives, as a function of
    /// what the host holds.
    ///
    /// The header must belong to the revision of the client's chain. Where
    /// the host already holds the consensus state that the header leaves
    /// behind, nothing changes. Otherwise the header is verified against the
    /// consensus state at its trusted height, with the client's parameters
    /// and at the host's time, and [`ClientState::concluded`] decides, with
    /// the neighbours that the host holds: the next one where the header is
    /// below the latest height, the previous one where the header is above its
    /// trusted height.
    pub open spec fn updated<Ctx: ClientReader>(
        &self,
        ctx: &Ctx,
        client_id: &ClientId,
        header: &Header,
    ) -> Result<UpdatedState, ClientError> {
        match header.spec_info() {
            Err(cause) => Err(ClientError::ClientSpecific { cause }),
            Ok(info) => if info.height.rev() != self.chain_id.spec_version() {
                Err(
                    ClientError::ClientSpecific {
                        cause: Error::MismatchedRevisions {
                            current_revision: self.chain_id.spec_version(),
                            update_revision: info.height.rev(),
                        },
                    },
                )
            } else {
                match existing_state(ctx.consensus_state_of(client_id, &info.height)) {
                    Err(e) => Err(e),
                    Ok(existing) => if existing is Some && existing.unwrap()@
                        == info.spec_consensus_state()@ {
                        Ok(
                            UpdatedState {
                                client_state: AnyClientState::Tendermint(*self),
                                consensus_state: AnyConsensusState::Tendermint(existing.unwrap()),
                            },
                        )
                    } else {
                        self.verified(ctx, client_id, header, &info, existing)
                    },
                }
            },
        }
    }

    /// The part of [`ClientState::updated`] that verifies the header.
    pub open spec fn verified<Ctx: ClientReader>(
        &self,
        ctx: &Ctx,
        client_id: &ClientId,
        header: &Header,
        info: &HeaderInfo,
        existing: Option<ConsensusState>,
    ) -> Result<UpdatedState, ClientError> {
        match tendermint_state(ctx.consensus_state_of(client_id, &header.trusted_height)) {
            Err(e) => Err(e),
            Ok(trusted) => match self.spec_options() {
                Err(cause) => Err(ClientError::ClientSpecific { cause }),
                Ok(options) => match ctx.host_timestamp_of() {
                    Err(e) => Err(e),
                    Ok(now) => match checked(
                        Check::Update,
                        header,
                        &self.chain_id,
                        &options,
                        &trusted,
                        now,
                    ) {
                        Err(cause) => Err(ClientError::ClientSpecific { cause }),
                        Ok(verdict) => self.settled(ctx, client_id, header, info, existing, verdict),
                    },
                },
            },
        }
    }

    /// The part of [`ClientState::updated`] that follows the verdict.
    pub open spec fn settled<Ctx: ClientReader>(
        &self,
        ctx: &Ctx,
        client_id: &ClientId,
        header: &Header,
        info: &HeaderInfo,
        existing: Option<ConsensusState>,
        verdict: Verdict,
    ) -> Result<UpdatedState, ClientError> {
        if verdict_error(verdict) is Some || existing is Some {
            self.concluded(info, existing, verdict, None, None)
        } else {
            let next = if info.height.spec_lt(self.latest_height) {
                neighbour_time(ctx.next_consensus_state_of(client_id, &info.height))
            } else {
                Ok(None)
            };
            match next {
                Err(e) => Err(e),
                Ok(next) => if too_high(info, next) {
                    self.concluded(info, existing, verdict, next, None)
                } else {
                    let prev = if header.trusted_height.spec_lt(info.height) {
                        neighbour_time(ctx.prev_consensus_state_of(client_id, &info.height))
                    } else {
                        Ok(None)
                    };
                    match prev {
                        Err(e) => Err(e),
                        Ok(prev) => self.concluded(info, existing, verdict, next, prev),
                    }
                },
            }
        }
    }

    /// What an update of the client with an encoded header gives.
    pub open spec fn updated_by<Ctx: ClientReader>(
        &self,
        ctx: &Ctx,
        client_id: &ClientId,
        header: &Any,
    ) -> Result<UpdatedState, ClientError> {
        if header.type_url@ != TENDERMINT_HEADER_TYPE_URL@ {
            Err(ClientError::UnknownHeaderType { header_type: header.type_url })
        } else {
            match header_of_bytes(header.value@) {
                Err(cause) => Err(ClientError::ClientSpecific { cause }),
                Ok(h) => self.updated(ctx, client_id, &h),
            }
        }
    }

    /// Updates the client with an encoded header: see
    /// [`ClientState::updated`].
    pub fn check_header_and_update_state<Ctx: ClientReader>(
        &self,
        ctx: &Ctx,
        client_id: ClientId,
        header: Any,
    ) -> (r: Result<UpdatedState, ClientError>)
        ensures
            same_update(r, self.updated_by(ctx, &client_id, &header)),
    {
        let header = Header::try_from_any(header)?;
        self.update_with_header(ctx, &client_id, &header)
    }

    /// Updates the client with a header: see [`ClientState::updated`].
    pub fn update_with_header<Ctx: ClientReader>(
        &self,
        ctx: &Ctx,
        client_id: &ClientId,
        header: &Header,
    ) -> (r: Result<UpdatedState, ClientError>)
        ensures
            same_update(r, self.updated(ctx, client_id, header)),
    {
        let info = match header.info() {
            Ok(info) => info,
            Err(cause) => {
                return Err(ClientError::ClientSpecific { cause });
            },
        };
        if info.height.revision_number() != self.chain_id.version() {
            return Err(
                ClientError::ClientSpecific {
                    cause: Error::MismatchedRevisions {
                        current_revision: self.chain_id.version(),
                        update_revision: info.height.revision_number(),
                    },
                },
            );
        }
        let existing = match ctx.consensus_state(client_id, &info.height) {
            Ok(AnyConsensusState::Tendermint(cs)) => {
                let header_state = ConsensusState {
                    timestamp: info.time,
                    root: crate::commitment::CommitmentRoot::from_bytes(info.app_hash.as_slice()),
                    next_validators_hash: info.next_validators_hash.clone(),
                };
                if cs.same(&header_state) {
                    return Ok(
                        UpdatedState {
                            client_state: AnyClientState::Tendermint(self.clone()),
                            consensus_state: AnyConsensusState::Tendermint(cs),
                        },
                    );
                }
                Some(cs)
            },
            Ok(_) => {
                return Err(
                    ClientError::ClientArgsTypeMismatch { client_type: ClientType::Tendermint },
                );
            },
            Err(ClientError::ConsensusStateNotFound { .. }) => None,
            Err(e) => {
                return Err(e);
            },
        };
        let trusted = match ctx.consensus_state(client_id, &header.trusted_height) {
            Ok(AnyConsensusState::Tendermint(cs)) => cs,
            Ok(_) => {
                return Err(
                    ClientError::ClientArgsTypeMismatch { client_type: ClientType::Tendermint },
                );
            },
            Err(e) => {
                return Err(e);
            },
        };
        let options = match self.as_light_client_options() {
            Ok(options) => options,
            Err(cause) => {
                return Err(ClientError::ClientSpecific { cause });
            },
        };
        let now = ctx.host_timestamp()?;
        let verdict = match run_check(
            Check::Update,
            header,
            &self.chain_id,
            &options,
            &trusted,
            now,
        ) {
            Ok(verdict) => verdict,
            Err(cause) => {
                return Err(ClientError::ClientSpecific { cause });
            },
        };
        let decided = match &verdict {
            Verdict::Success => existing.is_some(),
            _ => true,
        };
        if decided {
            return self.conclude_update(info, existing, verdict, None, None);
        }
        let next = if info.height.lt(&self.latest_height) {
            match ctx.next_consensus_state(client_id, &info.height) {
                Ok(Some(AnyConsensusState::Tendermint(cs))) => Some(cs.timestamp),
                Ok(Some(_)) => {
                    return Err(
                        ClientError::ClientArgsTypeMismatch {
                            client_type: ClientType::Tendermint,
                        },
                    );
                },
                Ok(None) => None,
                Err(e) => {
                    return Err(e);
                },
            }
        } else {
            None
        };
        let late = match next {
            Some(max) => info.time.nanoseconds() > max.nanoseconds(),
            None => false,
        };
        if late {
            return self.conclude_update(info, existing, verdict, next, None);
        }
        let prev = if header.trusted_height.lt(&info.height) {
            match ctx.prev_consensus_state(client_id, &info.height) {
                Ok(Some(AnyConsensusState::Tendermint(cs))) => Some(cs.timestamp),
                Ok(Some(_)) => {
                    return Err(
                        ClientError::ClientArgsTypeMismatch {
                            client_type: ClientType::Tendermint,
                        },
                    );
                },
                Ok(None) => None,
                Err(e) => {
                    return Err(e);
                },
            }
        } else {
            None
        };
        self.conclude_update(info, existing, verdict, next, prev)
    }
}

/// An accepted update leaves the client at or above the height it was at,
/// or frozen at the height of the header.
///
/// The client's latest height lies in the revision of its chain. Left out
/// are the headers below the latest height at whose height the host holds no
/// consensus state yet: they are accepted between two checkpoints, and the
/// client is then set to their height.
pub proof fn lemma_update_moves_on<Ctx: ClientReader>(
    cs: &ClientState,
    ctx: &Ctx,
    client_id: &ClientId,
    header: &Header,
)
    requires
        cs.latest_height.rev() == cs.chain_id.spec_version(),
        cs.updated(ctx, client_id, header) is Ok,
        header.spec_info() matches Ok(info) ==> !(info.height.spec_lt(cs.latest_height)
            && ctx.consensus_state_of(client_id, &info.height) is Err),
    ensures
        ({
            let after = cs.updated(ctx, client_id, header)->Ok_0.client_state;
            let info = header.spec_info()->Ok_0;
            cs.latest_height.spec_le(after.spec_latest_height()) || after.spec_frozen_height()
                == Some(info.height)
        }),
{
}

/// Applying a header again, after the host has stored what the first
/// application gave, gives the same again.
///
/// `ctx` is the host before the first application and `later` the host
/// after it: at the height of the header it holds the consensus state that
/// the first application returned, and it answers as before for the trusted
/// height and for the time.
pub proof fn lemma_update_idempotent<Ctx: ClientReader>(
    cs: &ClientState,
    ctx: &Ctx,
    later: &Ctx,
    client_id: &ClientId,
    header: &Header,
)
    requires
        cs.updated(ctx, client_id, header) matches Ok(first) && first.client_state matches AnyClientState::Tendermint(
            _,
        ) && later.consensus_state_of(client_id, &header.spec_info()->Ok_0.height) == Ok::<
            AnyConsensusState,
            ClientError,
        >(first.consensus_state),
        later.consensus_state_of(client_id, &header.trusted_height) == ctx.consensus_state_of(
            client_id,
            &header.trusted_height,
        ),
        later.host_timestamp_of() == ctx.host_timestamp_of(),
    ensures
        ({
            let first = cs.updated(ctx, client_id, header)->Ok_0;
            let after = first.client_state->Tendermint_0;
            same_update(after.updated(later, client_id, header), Ok(first))
        }),
{
    let first = cs.updated(ctx, client_id, header)->Ok_0;
    let after = first.client_state->Tendermint_0;
    let info = header.spec_info()->Ok_0;
    let existing = existing_state(ctx.consensus_state_of(client_id, &info.height))->Ok_0;
    if existing is Some && existing.unwrap()@ == info.spec_consensus_state()@ {
    } else if existing is Some {
        let trusted = tendermint_state(
            ctx.consensus_state_of(client_id, &header.trusted_height),
        )->Ok_0;
        let options = cs.spec_options()->Ok_0;
        let now = ctx.host_timestamp_of()->Ok_0;
        assert(after.spec_options() == cs.spec_options());
        assert(after.chain_id == cs.chain_id);
        let verdict = checked(Check::Update, header, &cs.chain_id, &options, &trusted, now)->Ok_0;
        assert(after.frozen_by(&info, existing.unwrap())@ == cs.frozen_by(
            &info,
            existing.unwrap(),
        )@);
    } else {
    }
}

} // verus!
