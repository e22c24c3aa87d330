//! Administrative operations on the protocol's authority record: simple
//! authorization writes, each one atomic and fully specified.

use crate::engine::Engine;
use crate::engine::EngineV;
use crate::error::SwapLayerError;
use crate::types::Custodian;
use crate::types::NULL_ID;
use crate::types::USDC_MINT;
use vstd::prelude::*;

verus! {

/// Accounts of an ownership-transfer request: the signing administrator
/// and the proposed new owner.
#[derive(Clone, Copy, Debug, PartialEq, Eq, Structural)]
pub struct SubmitOwnershipTransferRequest {
    /// Signer; must be the current owner.
    pub admin: u64,
    /// Proposed new owner; neither the null identity nor the current
    /// owner.
    pub new_owner: u64,
}

/// Transition of an ownership-transfer request: only the owner may
/// propose, the proposed owner must be a real, different identity, and
/// the proposal is recorded as pending without changing the owner.
pub open spec fn spec_submit_ownership_transfer_request(
    s: EngineV,
    accounts: SubmitOwnershipTransferRequest,
) -> (EngineV, Result<(), SwapLayerError>) {
    if accounts.admin != s.custodian.owner {
        (s, Err(SwapLayerError::OwnerOnly))
    } else if accounts.new_owner == NULL_ID {
        (s, Err(SwapLayerError::InvalidNewOwner))
    } else if accounts.new_owner == s.custodian.owner {
        (s, Err(SwapLayerError::AlreadyOwner))
    } else {
        (
            EngineV {
                custodian: Custodian { pending_owner: accounts.new_owner, ..s.custodian },
                ..s
            },
            Ok(()),
        )
    }
}

/// Proposes a new owner; see [`spec_submit_ownership_transfer_request`].
pub fn submit_ownership_transfer_request(
    engine: &mut Engine,
    accounts: &SubmitOwnershipTransferRequest,
) -> (r: Result<(), SwapLayerError>)
    ensures
        final(engine)@ == spec_submit_ownership_transfer_request(old(engine)@, *accounts).0,
        r == spec_submit_ownership_transfer_request(old(engine)@, *accounts).1,
{
    let ghost s0 = engine@;
    if accounts.admin != engine.custodian.owner {
        return Err(SwapLayerError::OwnerOnly);
    }
    if accounts.new_owner == NULL_ID {
        return Err(SwapLayerError::InvalidNewOwner);
    }
    if accounts.new_owner == engine.custodian.owner {
        return Err(SwapLayerError::AlreadyOwner);
    }
    engine.custodian.pending_owner = accounts.new_owner;
    proof {
        assert(engine@ =~= spec_submit_ownership_transfer_request(s0, *accounts).0);
    }
    Ok(())
}

/// Accounts of an assistant rotation: the signing administrator and the
/// new assistant.
#[derive(Clone, Copy, Debug, PartialEq, Eq, Structural)]
pub struct UpdateOwnerAssistant {
    /// Signer; must be the current owner.
    pub admin: u64,
    /// New assistant; never the null identity.
    pub new_owner_assistant: u64,
}

/// Transition of an assistant rotation: only the owner may rotate, and
/// the new assistant must be a real identity.
pub open spec fn spec_update_owner_assistant(s: EngineV, accounts: UpdateOwnerAssistant) -> (
    EngineV,
    Result<(), SwapLayerError>,
) {
    if accounts.admin != s.custodian.owner {
        (s, Err(SwapLayerError::OwnerOnly))
    } else if accounts.new_owner_assistant == NULL_ID {
        (s, Err(SwapLayerError::AssistantZeroPubkey))
    } else {
        (
            EngineV {
                custodian: Custodian {
                    owner_assistant: accounts.new_owner_assistant,
                    ..s.custodian
                },
                ..s
            },
            Ok(()),
        )
    }
}

/// Rotates the owner assistant; see [`spec_update_owner_assistant`].
pub fn update_owner_assistant(engine: &mut Engine, accounts: &UpdateOwnerAssistant) -> (r: Result<
    (),
    SwapLayerError,
>)
    ensures
        final(engine)@ == spec_update_owner_assistant(old(engine)@, *accounts).0,
        r == spec_update_owner_assistant(old(engine)@, *accounts).1,
{
    let ghost s0 = engine@;
    if accounts.admin != engine.custodian.owner {
        return Err(SwapLayerError::OwnerOnly);
    }
    if accounts.new_owner_assistant == NULL_ID {
        return Err(SwapLayerError::AssistantZeroPubkey);
    }
    engine.custodian.owner_assistant = accounts.new_owner_assistant;
    proof {
        assert(engine@ =~= spec_update_owner_assistant(s0, *accounts).0);
    }
    Ok(())
}

/// Accounts of a fee-recipient rotation: the signing administrator, the
/// new fee recipient, and their settlement-asset account.
#[derive(Clone, Copy, Debug, PartialEq, Eq, Structural)]
pub struct UpdateFeeRecipient {
    /// Signer; the owner or the owner assistant.
    pub admin: u64,
    /// New fee recipient; never the null identity.
    pub new_fee_recipient: u64,
    /// Settlement-asset account of the new fee recipient; relaying fees
    /// are collected here from then on.
    pub new_fee_recipient_token: u64,
}

/// Transition of a fee-recipient rotation: the owner or the assistant may
/// rotate; the new recipient must be a real identity and the named token
/// account must be their settlement-asset account.
pub open spec fn spec_update_fee_recipient(s: EngineV, accounts: UpdateFeeRecipient) -> (
    EngineV,
    Result<(), SwapLayerError>,
) {
    if accounts.admin != s.custodian.owner && accounts.admin != s.custodian.owner_assistant {
        (s, Err(SwapLayerError::OwnerOrAssistantOnly))
    } else if accounts.new_fee_recipient == NULL_ID {
        (s, Err(SwapLayerError::FeeRecipientZeroPubkey))
    } else if !s.tokens.contains_key(accounts.new_fee_recipient_token) {
        (s, Err(SwapLayerError::AccountNotFound))
    } else if s.tokens[accounts.new_fee_recipient_token].mint != USDC_MINT {
        (s, Err(SwapLayerError::InvalidMint))
    } else if s.tokens[accounts.new_fee_recipient_token].owner != accounts.new_fee_recipient {
        (s, Err(SwapLayerError::InvalidTokenOwner))
    } else {
        (
            EngineV {
                custodian: Custodian {
                    fee_recipient_token: accounts.new_fee_recipient_token,
                    ..s.custodian
                },
                ..s
            },
            Ok(()),
        )
    }
}

/// Rotates the fee recipient's collection account; see
/// [`spec_update_fee_recipient`].
pub fn update_fee_recipient(engine: &mut Engine, accounts: &UpdateFeeRecipient) -> (r: Result<
    (),
    SwapLayerError,
>)
    ensures
        final(engine)@ == spec_update_fee_recipient(old(engine)@, *accounts).0,
        r == spec_update_fee_recipient(old(engine)@, *accounts).1,
{
    let ghost s0 = engine@;
    if accounts.admin != engine.custodian.owner && accounts.admin
        != engine.custodian.owner_assistant {
        return Err(SwapLayerError::OwnerOrAssistantOnly);
    }
    if accounts.new_fee_recipient == NULL_ID {
        return Err(SwapLayerError::FeeRecipientZeroPubkey);
    }
    let token_acct = match engine.tokens.get(&accounts.new_fee_recipient_token) {
        None => {
            return Err(SwapLayerError::AccountNotFound);
        },
        Some(acct) => *acct,
    };
    if token_acct.mint != USDC_MINT {
        return Err(SwapLayerError::InvalidMint);
    }
    if token_acct.owner != accounts.new_fee_recipient {
        return Err(SwapLayerError::InvalidTokenOwner);
    }
    engine.custodian.fee_recipient_token = accounts.new_fee_recipient_token;
    proof {
        assert(engine@ =~= spec_update_fee_recipient(s0, *accounts).0);
    }
    Ok(())
}

} // verus!
