//! The IBC command: which flow the operator chose, its validation into a plan,
//! and how the orchestrator's and the renderer's outcomes combine.
use vstd::prelude::*;
use crate::connect::ConnectSession;
use crate::flow::{plan_transfer, plan_update_signer, transfer_error, Direction, SignerUpdate, Transfer, TransferError};
use crate::ident::{ChainId, Identifier};
use crate::key::{public_key_error, KeyError, PublicKeyAlgo};

verus! {

/// Memo attached to transactions when none is configured.
pub const DEFAULT_MEMO: &'static str = "solo-machine-memo";

/// The memo in force: the command-line value, else the environment's, else the
/// default.
pub fn resolve_memo(cli: Option<String>, env: Option<String>) -> (r: String)
    ensures
        r@ == match (cli, env) {
            (Some(c), _) => c@,
            (None, Some(e)) => e@,
            (None, None) => DEFAULT_MEMO@,
        },
{
    match cli {
        Some(c) => c,
        None => match env {
            Some(e) => e,
            None => String::from_str(DEFAULT_MEMO),
        },
    }
}

/// One of the four IBC operations, with its parameters.
pub enum IbcCommand {
    /// Establishes a connection with an IBC enabled chain.
    Connect { chain_id: ChainId, memo: String },
    /// Sends tokens to an IBC enabled chain.
    Send {
        chain_id: ChainId,
        amount: u32,
        denom: Identifier,
        receiver: Option<String>,
        memo: String,
    },
    /// Receives tokens from an IBC enabled chain.
    Receive {
        chain_id: ChainId,
        amount: u32,
        denom: Identifier,
        receiver: Option<String>,
        memo: String,
    },
    /// Rotates the signer's public key on an IBC enabled chain.
    UpdateSigner {
        chain_id: ChainId,
        new_public_key: String,
        public_key_algo: PublicKeyAlgo,
        memo: String,
    },
}

/// A validated command, ready for the orchestrator.
pub enum Plan {
    Connect { session: ConnectSession, memo: String },
    Transfer(Transfer),
    UpdateSigner(SignerUpdate),
}

/// Why a command was refused before any network work.
#[derive(Debug, Clone, Copy, PartialEq, Eq, Structural)]
pub enum CommandError {
    Transfer(TransferError),
    Key(KeyError),
}

impl IbcCommand {
    /// The error that `plan` gives for this command, if any.
    pub open spec fn plan_error(&self, eth_enabled: bool) -> Option<CommandError> {
        match self {
            IbcCommand::Connect { .. } => None,
            IbcCommand::Send { amount, denom, .. } | IbcCommand::Receive { amount, denom, .. } => {
                match transfer_error(*amount, denom@) {
                    Some(e) => Some(CommandError::Transfer(e)),
                    None => None,
                }
            },
            IbcCommand::UpdateSigner { new_public_key, public_key_algo, .. } => {
                match public_key_error(new_public_key@, *public_key_algo, eth_enabled) {
                    Some(e) => Some(CommandError::Key(e)),
                    None => None,
                }
            },
        }
    }

    /// Validates the command into a plan for the orchestrator. `eth_enabled` says
    /// whether the Ethereum-flavoured key capability is enabled.
    pub fn plan(self, eth_enabled: bool) -> (r: Result<Plan, CommandError>)
        ensures
            r is Ok <==> self.plan_error(eth_enabled) is None,
            r is Err ==> self.plan_error(eth_enabled) == Some(r->Err_0),
            r is Ok ==> match (self, r->Ok_0) {
                (IbcCommand::Connect { chain_id, memo }, Plan::Connect { session, memo: m }) => {
                    &&& session.wf()
                    &&& session.chain() == chain_id@
                    &&& session.completed() == 0
                    &&& !session.has_failed()
                    &&& m@ == memo@
                },
                (
                    IbcCommand::Send { chain_id, amount, denom, receiver, memo },
                    Plan::Transfer(t),
                ) => t.direction == Direction::Send && t.chain_id@ == chain_id@ && t.amount
                    == amount && t.denom@ == denom@ && t.receiver == receiver && t.memo@ == memo@,
                (
                    IbcCommand::Receive { chain_id, amount, denom, receiver, memo },
                    Plan::Transfer(t),
                ) => t.direction == Direction::Receive && t.chain_id@ == chain_id@ && t.amount
                    == amount && t.denom@ == denom@ && t.receiver == receiver && t.memo@ == memo@,
                (
                    IbcCommand::UpdateSigner { chain_id, new_public_key, public_key_algo, memo },
                    Plan::UpdateSigner(u),
                ) => u.chain_id@ == chain_id@ && u.new_public_key.algo_spec() == public_key_algo
                    && u.memo@ == memo@,
                _ => false,
            },
    {
        match self {
            IbcCommand::Connect { chain_id, memo } => Ok(
                Plan::Connect { session: ConnectSession::new(chain_id), memo },
            ),
            IbcCommand::Send { chain_id, amount, denom, receiver, memo } => {
                match plan_transfer(Direction::Send, chain_id, amount, denom.as_str(), receiver, memo) {
                    Ok(t) => Ok(Plan::Transfer(t)),
                    Err(e) => Err(CommandError::Transfer(e)),
                }
            },
            IbcCommand::Receive { chain_id, amount, denom, receiver, memo } => {
                match plan_transfer(
                    Direction::Receive,
                    chain_id,
                    amount,
                    denom.as_str(),
                    receiver,
                    memo,
                ) {
                    Ok(t) => Ok(Plan::Transfer(t)),
                    Err(e) => Err(CommandError::Transfer(e)),
                }
            },
            IbcCommand::UpdateSigner { chain_id, new_public_key, public_key_algo, memo } => {
                match plan_update_signer(
                    chain_id,
                    new_public_key.as_str(),
                    public_key_algo,
                    eth_enabled,
                    memo,
                ) {
                    Ok(u) => Ok(Plan::UpdateSigner(u)),
                    Err(e) => Err(CommandError::Key(e)),
                }
            },
        }
    }
}

/// A failed invocation: the primary error, and the other task's error if both
/// failed.
#[derive(Debug, Clone, PartialEq, Eq)]
pub struct Failure<E> {
    pub primary: E,
    pub secondary: Option<E>,
}

/// Combines the orchestrator's and the renderer's outcomes. The invocation fails
/// if either failed; when both did, the orchestrator's error is primary and the
/// renderer's is kept beside it.
pub fn reconcile<E>(orchestrator: Result<(), E>, renderer: Result<(), E>) -> (r: Result<
    (),
    Failure<E>,
>)
    ensures
        r is Ok <==> orchestrator is Ok && renderer is Ok,
        orchestrator is Err ==> r is Err && r->Err_0.primary == orchestrator->Err_0,
        orchestrator is Ok && renderer is Err ==> r is Err && r->Err_0.primary == renderer->Err_0
            && r->Err_0.secondary is None,
        orchestrator is Err ==> (r->Err_0.secondary is Some <==> renderer is Err),
        orchestrator is Err && renderer is Err ==> r->Err_0.secondary == Some(renderer->Err_0),
{
    match orchestrator {
        Ok(()) => match renderer {
            Ok(()) => Ok(()),
            Err(b) => Err(Failure { primary: b, secondary: None }),
        },
        Err(a) => match renderer {
            Ok(()) => Err(Failure { primary: a, secondary: None }),
            Err(b) => Err(Failure { primary: a, secondary: Some(b) }),
        },
    }
}

} // verus!
