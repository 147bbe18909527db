//! Milestone events that the orchestrator emits as protocol steps complete.
use vstd::prelude::*;
use crate::ident::{ChainId, Identifier};
use crate::key::PublicKey;

verus! {

/// The six identifiers that a completed handshake leaves on both sides.
#[derive(Debug, Clone, PartialEq, Eq)]
pub struct ConnectionDetails {
    pub solo_machine_client_id: Identifier,
    pub tendermint_client_id: Identifier,
    pub solo_machine_connection_id: Identifier,
    pub tendermint_connection_id: Identifier,
    pub solo_machine_channel_id: Identifier,
    pub tendermint_channel_id: Identifier,
}

/// One completed milestone.
#[derive(Debug, Clone, PartialEq, Eq)]
pub enum Event {
    TokensMinted { chain_id: ChainId, address: String, amount: u32, denom: Identifier },
    TokensBurnt { chain_id: ChainId, address: String, amount: u32, denom: Identifier },
    TokensSent {
        chain_id: ChainId,
        from_address: String,
        to_address: String,
        amount: u32,
        denom: Identifier,
    },
    TokensReceived {
        chain_id: ChainId,
        from_address: String,
        to_address: String,
        amount: u32,
        denom: Identifier,
    },
    SignerUpdated { chain_id: ChainId, old_public_key: PublicKey, new_public_key: PublicKey },
    CreatedSoloMachineClient { client_id: Identifier },
    CreatedTendermintClient { client_id: Identifier },
    InitializedConnectionOnTendermint { connection_id: Identifier },
    InitializedConnectionOnSoloMachine { connection_id: Identifier },
    ConfirmedConnectionOnTendermint { connection_id: Identifier },
    ConfirmedConnectionOnSoloMachine { connection_id: Identifier },
    InitializedChannelOnTendermint { channel_id: Identifier },
    InitializedChannelOnSoloMachine { channel_id: Identifier },
    ConfirmedChannelOnTendermint { channel_id: Identifier },
    ConfirmedChannelOnSoloMachine { channel_id: Identifier },
    ConnectionEstablished { chain_id: ChainId, connection_details: ConnectionDetails },
}

/// The tag of an event, without its data.
#[derive(Debug, Clone, Copy, PartialEq, Eq, Structural)]
pub enum EventKind {
    TokensMinted,
    TokensBurnt,
    TokensSent,
    TokensReceived,
    SignerUpdated,
    CreatedSoloMachineClient,
    CreatedTendermintClient,
    InitializedConnectionOnTendermint,
    InitializedConnectionOnSoloMachine,
    ConfirmedConnectionOnTendermint,
    ConfirmedConnectionOnSoloMachine,
    InitializedChannelOnTendermint,
    InitializedChannelOnSoloMachine,
    ConfirmedChannelOnTendermint,
    ConfirmedChannelOnSoloMachine,
    ConnectionEstablished,
}

/// Whether a kind belongs to the vocabulary of the IBC flows: transfers, signer
/// rotation and the handshake.
pub open spec fn is_ibc_kind(k: EventKind) -> bool {
    k != EventKind::TokensMinted && k != EventKind::TokensBurnt
}

impl Event {
    pub open spec fn kind_spec(&self) -> EventKind {
        match self {
            Event::TokensMinted { .. } => EventKind::TokensMinted,
            Event::TokensBurnt { .. } => EventKind::TokensBurnt,
            Event::TokensSent { .. } => EventKind::TokensSent,
            Event::TokensReceived { .. } => EventKind::TokensReceived,
            Event::SignerUpdated { .. } => EventKind::SignerUpdated,
            Event::CreatedSoloMachineClient { .. } => EventKind::CreatedSoloMachineClient,
            Event::CreatedTendermintClient { .. } => EventKind::CreatedTendermintClient,
            Event::InitializedConnectionOnTendermint { .. } => EventKind::InitializedConnectionOnTendermint,
            Event::InitializedConnectionOnSoloMachine { .. } => EventKind::InitializedConnectionOnSoloMachine,
            Event::ConfirmedConnectionOnTendermint { .. } => EventKind::ConfirmedConnectionOnTendermint,
            Event::ConfirmedConnectionOnSoloMachine { .. } => EventKind::ConfirmedConnectionOnSoloMachine,
            Event::InitializedChannelOnTendermint { .. } => EventKind::InitializedChannelOnTendermint,
            Event::InitializedChannelOnSoloMachine { .. } => EventKind::InitializedChannelOnSoloMachine,
            Event::ConfirmedChannelOnTendermint { .. } => EventKind::ConfirmedChannelOnTendermint,
            Event::ConfirmedChannelOnSoloMachine { .. } => EventKind::ConfirmedChannelOnSoloMachine,
            Event::ConnectionEstablished { .. } => EventKind::ConnectionEstablished,
        }
    }

    /// The event's tag.
    pub fn kind(&self) -> (r: EventKind)
        ensures
            r == self.kind_spec(),
    {
        match self {
            Event::TokensMinted { .. } => EventKind::TokensMinted,
            Event::TokensBurnt { .. } => EventKind::TokensBurnt,
            Event::TokensSent { .. } => EventKind::TokensSent,
            Event::TokensReceived { .. } => EventKind::TokensReceived,
            Event::SignerUpdated { .. } => EventKind::SignerUpdated,
            Event::CreatedSoloMachineClient { .. } => EventKind::CreatedSoloMachineClient,
            Event::CreatedTendermintClient { .. } => EventKind::CreatedTendermintClient,
            Event::InitializedConnectionOnTendermint { .. } => EventKind::InitializedConnectionOnTendermint,
            Event::InitializedConnectionOnSoloMachine { .. } => EventKind::InitializedConnectionOnSoloMachine,
            Event::ConfirmedConnectionOnTendermint { .. } => EventKind::ConfirmedConnectionOnTendermint,
            Event::ConfirmedConnectionOnSoloMachine { .. } => EventKind::ConfirmedConnectionOnSoloMachine,
            Event::InitializedChannelOnTendermint { .. } => EventKind::InitializedChannelOnTendermint,
            Event::InitializedChannelOnSoloMachine { .. } => EventKind::InitializedChannelOnSoloMachine,
            Event::ConfirmedChannelOnTendermint { .. } => EventKind::ConfirmedChannelOnTendermint,
            Event::ConfirmedChannelOnSoloMachine { .. } => EventKind::ConfirmedChannelOnSoloMachine,
            Event::ConnectionEstablished { .. } => EventKind::ConnectionEstablished,
        }
    }
}

} // verus!
