//! Token transfers and signer rotation: each is validated before any network
//! work, and emits exactly one event once the remote chain has accepted it.
use vstd::prelude::*;
use crate::event::{Event, EventKind};
use crate::ident::{identifier_error, valid_identifier, ChainId, Identifier, IdentifierError};
use crate::key::{decode_public_key, hex_decode, public_key_error, KeyError, PublicKey, PublicKeyAlgo};

verus! {

/// Which way tokens move: from the solo machine to the chain, or back.
#[derive(Debug, Clone, Copy, PartialEq, Eq, Structural)]
pub enum Direction {
    Send,
    Receive,
}

/// Why a transfer was refused before any network work.
#[derive(Debug, Clone, Copy, PartialEq, Eq, Structural)]
pub enum TransferError {
    /// The amount is zero.
    ZeroAmount,
    /// The denomination breaks the identifier rules.
    InvalidDenom(IdentifierError),
}

/// The error that `plan_transfer` gives, if any: the amount is checked first.
pub open spec fn transfer_error(amount: u32, denom: Seq<char>) -> Option<TransferError> {
    if amount == 0 {
        Some(TransferError::ZeroAmount)
    } else {
        match identifier_error(denom) {
            Some(e) => Some(TransferError::InvalidDenom(e)),
            None => None,
        }
    }
}

/// The event kind that a completed transfer emits.
pub open spec fn transfer_kind(d: Direction) -> EventKind {
    match d {
        Direction::Send => EventKind::TokensSent,
        Direction::Receive => EventKind::TokensReceived,
    }
}

/// A validated transfer, ready to be submitted.
pub struct Transfer {
    pub direction: Direction,
    pub chain_id: ChainId,
    pub amount: u32,
    pub denom: Identifier,
    pub receiver: Option<String>,
    pub memo: String,
}

/// Validates a transfer's amount and denomination.
pub fn plan_transfer(
    direction: Direction,
    chain_id: ChainId,
    amount: u32,
    denom: &str,
    receiver: Option<String>,
    memo: String,
) -> (r: Result<Transfer, TransferError>)
    ensures
        r is Ok <==> amount > 0 && valid_identifier(denom@),
        r is Err ==> transfer_error(amount, denom@) == Some(r->Err_0),
        r is Ok ==> {
            let t = r->Ok_0;
            &&& t.direction == direction
            &&& t.chain_id@ == chain_id@
            &&& t.amount == amount
            &&& t.denom@ == denom@
            &&& t.receiver == receiver
            &&& t.memo@ == memo@
        },
{
    if amount == 0 {
        return Err(TransferError::ZeroAmount);
    }
    match Identifier::new(denom) {
        Ok(d) => Ok(Transfer { direction, chain_id, amount, denom: d, receiver, memo }),
        Err(e) => Err(TransferError::InvalidDenom(e)),
    }
}

impl Transfer {
    /// Where the tokens go: the receiver if one was given, else the signer.
    pub open spec fn to_address_spec(&self, signer_address: Seq<char>) -> Seq<char> {
        match self.receiver {
            Some(a) => a@,
            None => signer_address,
        }
    }

    /// Where the tokens go: the receiver if one was given, else the signer.
    pub fn to_address(&self, signer_address: &str) -> (r: String)
        ensures
            r@ == self.to_address_spec(signer_address@),
    {
        match &self.receiver {
            Some(a) => a.clone(),
            None => String::from_str(signer_address),
        }
    }

    /// The one event that the transfer emits once the chain has accepted it:
    /// from the signer's address to the receiving address.
    pub fn completed_event(&self, signer_address: &str) -> (r: Event)
        ensures
            r.kind_spec() == transfer_kind(self.direction),
            match r {
                Event::TokensSent { chain_id, from_address, to_address, amount, denom }
                | Event::TokensReceived { chain_id, from_address, to_address, amount, denom } => {
                    &&& chain_id@ == self.chain_id@
                    &&& from_address@ == signer_address@
                    &&& to_address@ == self.to_address_spec(signer_address@)
                    &&& amount == self.amount
                    &&& denom@ == self.denom@
                },
                _ => false,
            },
    {
        let chain_id = self.chain_id.duplicate();
        let from_address = String::from_str(signer_address);
        let to_address = self.to_address(signer_address);
        let denom = self.denom.duplicate();
        match self.direction {
            Direction::Send => Event::TokensSent {
                chain_id,
                from_address,
                to_address,
                amount: self.amount,
                denom,
            },
            Direction::Receive => Event::TokensReceived {
                chain_id,
                from_address,
                to_address,
                amount: self.amount,
                denom,
            },
        }
    }
}

/// A validated signer rotation, ready to be submitted.
pub struct SignerUpdate {
    pub chain_id: ChainId,
    pub new_public_key: PublicKey,
    pub memo: String,
}

/// Validates a signer rotation: the algorithm must be enabled, and the key must be
/// hexadecimal text of a point on the curve. A disabled algorithm is refused
/// whatever the key text holds.
pub fn plan_update_signer(
    chain_id: ChainId,
    new_public_key: &str,
    algo: PublicKeyAlgo,
    eth_enabled: bool,
    memo: String,
) -> (r: Result<SignerUpdate, KeyError>)
    ensures
        r is Ok <==> public_key_error(new_public_key@, algo, eth_enabled) is None,
        r is Err ==> public_key_error(new_public_key@, algo, eth_enabled) == Some(r->Err_0),
        !algo.enabled(eth_enabled) ==> r == Err::<SignerUpdate, _>(KeyError::AlgorithmNotEnabled),
        r is Ok ==> {
            let u = r->Ok_0;
            &&& u.chain_id@ == chain_id@
            &&& u.new_public_key.algo_spec() == algo
            &&& u.new_public_key.bytes() == hex_decode(new_public_key@)
            &&& u.memo@ == memo@
        },
{
    match decode_public_key(new_public_key, algo, eth_enabled) {
        Ok(k) => Ok(SignerUpdate { chain_id, new_public_key: k, memo }),
        Err(e) => Err(e),
    }
}

impl SignerUpdate {
    /// The one event that the rotation emits once the chain has accepted it.
    pub fn completed_event(&self, old_public_key: PublicKey) -> (r: Event)
        ensures
            r matches Event::SignerUpdated { chain_id, old_public_key: o, new_public_key: n }
                && chain_id@ == self.chain_id@ && o == old_public_key && n.algo_spec()
                == self.new_public_key.algo_spec() && n.bytes() == self.new_public_key.bytes(),
    {
        Event::SignerUpdated {
            chain_id: self.chain_id.duplicate(),
            old_public_key,
            new_public_key: self.new_public_key.duplicate(),
        }
    }
}

} // verus!
