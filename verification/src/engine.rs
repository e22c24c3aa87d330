//! Completion engine and staging ledger.
//!
//! The engine owns the modeled host ledger — token accounts and native
//! balances in explicit keyed stores — together with the prepared fills
//! delivered by the bridging substrate, the staged escrow records, and the
//! protocol's authority record. Every operation is one atomic transition:
//! all validation runs before the first balance moves, so an operation
//! either completes with exactly the stated effect or fails with the
//! stated error and leaves every balance and record untouched.
//!
//! Each operation is specified by a transition function over the abstract
//! state [`EngineV`]; the executable operation is proved to compute exactly
//! that transition.

use crate::adapter::prepare_swap_args;
use crate::adapter::spec_prepare_swap_args;
use crate::adapter::JupiterV6SharedAccountsRoute;
use crate::adapter::SwapArgs;
use crate::error::SwapLayerError;
use crate::fees::calculate_relayer_fee;
use crate::fees::denormalize_gas_dropoff;
use crate::fees::spec_calculate_relayer_fee;
use crate::fees::spec_denormalize_gas_dropoff;
use crate::types::Custodian;
use crate::types::JupiterV6SwapParameters;
use crate::types::stage_outbound_args_eq;
use crate::types::stage_outbound_args_equal;
use crate::types::OutputToken;
use crate::types::Peer;
use crate::types::RedeemMode;
use crate::types::RedeemOption;
use crate::types::StagedOutboundInfo;
use crate::types::StagedRedeem;
use crate::types::NULL_ID;
use crate::types::SwapType;
use crate::types::USDC_MINT;
use crate::types::PreparedFill;
use crate::types::StageOutboundArgs;
use crate::types::SwapMessage;
use crate::types::StagedInbound;
use crate::types::StagedOutbound;
use crate::types::TokenAccount;
use std::collections::HashMap;
use std::collections::HashSet;
use vstd::prelude::*;

verus! {

broadcast use vstd::std_specs::hash::group_hash_axioms;

/// Abstract state of the settlement engine: the keyed stores as
/// mathematical maps, and the authority record.
#[verifier::ext_equal]
pub struct EngineV {
    pub fills: Map<u64, PreparedFill>,
    pub consumed_fills: Set<u64>,
    pub tokens: Map<u64, TokenAccount>,
    pub native: Map<u64, u64>,
    pub staged_inbound: Map<u64, StagedInbound>,
    pub staged_outbound: Map<u64, StagedOutbound>,
    pub delegations: Map<u64, StageOutboundArgs>,
    pub custodian: Custodian,
}

/// The settlement engine and its modeled ledger.
///
/// Token accounts live in `tokens`, keyed by account id; native balances in
/// `native`, keyed by wallet id, where an absent wallet holds zero.
/// `fills` holds the prepared fills delivered by the bridging substrate;
/// `staged_inbound` the Payload-mode escrows, keyed by the identity of the
/// fill they park; `staged_outbound` the source-side escrows;
/// `delegations` the one-time transfer authorities, keyed by the token
/// account they are spent from.
pub struct Engine {
    pub fills: HashMap<u64, PreparedFill>,
    pub consumed_fills: HashSet<u64>,
    pub tokens: HashMap<u64, TokenAccount>,
    pub native: HashMap<u64, u64>,
    pub staged_inbound: HashMap<u64, StagedInbound>,
    pub staged_outbound: HashMap<u64, StagedOutbound>,
    pub delegations: HashMap<u64, StageOutboundArgs>,
    pub custodian: Custodian,
}

impl View for Engine {
    type V = EngineV;

    open spec fn view(&self) -> EngineV {
        EngineV {
            fills: self.fills@,
            consumed_fills: self.consumed_fills@,
            tokens: self.tokens@,
            native: self.native@,
            staged_inbound: self.staged_inbound@,
            staged_outbound: self.staged_outbound@,
            delegations: self.delegations@,
            custodian: self.custodian,
        }
    }
}

/// Native balance of a wallet; a wallet the store does not list holds zero.
pub open spec fn native_balance(native: Map<u64, u64>, id: u64) -> u64 {
    if native.contains_key(id) {
        native[id]
    } else {
        0
    }
}

/// A credit of `amount` to token account `id` is possible: the account
/// exists and its balance does not overflow.
pub open spec fn token_credit_ok(tokens: Map<u64, TokenAccount>, id: u64, amount: u64) -> bool {
    &&& tokens.contains_key(id)
    &&& tokens[id].amount + amount <= u64::MAX
}

/// The token store after crediting `amount` to account `id`.
pub open spec fn token_credit(tokens: Map<u64, TokenAccount>, id: u64, amount: u64) -> Map<
    u64,
    TokenAccount,
> {
    tokens.insert(
        id,
        TokenAccount {
            mint: tokens[id].mint,
            owner: tokens[id].owner,
            amount: (tokens[id].amount + amount) as u64,
        },
    )
}

/// A debit of `amount` from token account `id` is possible: the account
/// exists and holds at least `amount`.
pub open spec fn token_debit_ok(tokens: Map<u64, TokenAccount>, id: u64, amount: u64) -> bool {
    &&& tokens.contains_key(id)
    &&& tokens[id].amount >= amount
}

/// The token store after debiting `amount` from account `id`.
pub open spec fn token_debit(tokens: Map<u64, TokenAccount>, id: u64, amount: u64) -> Map<
    u64,
    TokenAccount,
> {
    tokens.insert(
        id,
        TokenAccount {
            mint: tokens[id].mint,
            owner: tokens[id].owner,
            amount: (tokens[id].amount - amount) as u64,
        },
    )
}

/// A credit of `amount` native units to wallet `id` does not overflow.
pub open spec fn native_credit_ok(native: Map<u64, u64>, id: u64, amount: u64) -> bool {
    native_balance(native, id) + amount <= u64::MAX
}

/// The native store after crediting `amount` to wallet `id`.
pub open spec fn native_credit(native: Map<u64, u64>, id: u64, amount: u64) -> Map<u64, u64> {
    native.insert(id, (native_balance(native, id) + amount) as u64)
}

/// A debit of `amount` native units from wallet `id` is covered.
pub open spec fn native_debit_ok(native: Map<u64, u64>, id: u64, amount: u64) -> bool {
    native_balance(native, id) >= amount
}

/// The native store after debiting `amount` from wallet `id`.
pub open spec fn native_debit(native: Map<u64, u64>, id: u64, amount: u64) -> Map<u64, u64> {
    native.insert(id, (native_balance(native, id) - amount) as u64)
}

/// Transition of one fill consumption. Consumption is the single
/// irreversible step out of the fill's initial state: it succeeds exactly
/// once, returning the claimable amount, and every later attempt fails
/// with the already-consumed condition and changes nothing.
pub open spec fn spec_consume_prepared_fill(s: EngineV, fill_id: u64) -> (EngineV, Result<
    u64,
    SwapLayerError,
>) {
    if s.consumed_fills.contains(fill_id) {
        (s, Err(SwapLayerError::FillAlreadyConsumed))
    } else if !s.fills.contains_key(fill_id) {
        (s, Err(SwapLayerError::FillNotFound))
    } else {
        (
            EngineV {
                fills: s.fills.remove(fill_id),
                consumed_fills: s.consumed_fills.insert(fill_id),
                ..s
            },
            Ok(s.fills[fill_id].amount),
        )
    }
}

/// Consumption of a fill succeeds at most once: whatever state a
/// successful consumption produces, a second attempt on the same fill
/// fails with the already-consumed condition and leaves the state as it
/// was.
pub proof fn lemma_fill_consumed_at_most_once(s: EngineV, fill_id: u64)
    requires
        spec_consume_prepared_fill(s, fill_id).1 is Ok,
    ensures
        ({
            let s1 = spec_consume_prepared_fill(s, fill_id).0;
            &&& spec_consume_prepared_fill(s1, fill_id).1 == Err::<u64, SwapLayerError>(
                SwapLayerError::FillAlreadyConsumed,
            )
            &&& spec_consume_prepared_fill(s1, fill_id).0 == s1
        }),
{
}

/// Fixed size of a staged inbound record before its payload, in bytes.
pub const STAGED_INBOUND_BASE_SIZE: u64 = 184;

/// Largest staged inbound record the ledger will hold, in bytes.
pub const MAX_STAGED_ACCOUNT_SIZE: u64 = 10_240;

/// Native holding deposit paid when a staged inbound escrow is created and
/// returned to a beneficiary when the escrow is released.
pub const STAGED_INBOUND_DEPOSIT: u64 = 2_000_000;

/// Accounts of one fee-relayed settlement-asset completion: who submits
/// it, who receives, which token accounts are paid, and which fill is
/// redeemed.
#[derive(Clone, Copy, Debug, PartialEq, Eq, Structural)]
pub struct CompleteTransferRelay {
    /// Submitter; either the recipient or a relayer fronting gas.
    pub payer: u64,
    pub recipient: u64,
    /// Settlement-asset account of the recipient.
    pub recipient_token_account: u64,
    /// Settlement-asset account that collects the relaying fee; must be
    /// the one the authority record designates.
    pub fee_recipient_token: u64,
    /// Identity of the prepared fill being redeemed.
    pub prepared_fill: u64,
}

/// Transition of a fee-relayed settlement-asset completion, after the
/// relay terms were read from the message.
///
/// All validation precedes every balance movement. When the payer is the
/// recipient the relay terms are suppressed: the full fill amount goes to
/// the recipient and nothing else moves. Otherwise the relaying fee is
/// deducted from the fill — more fee than fill is an error — and the gas
/// dropoff is fronted from the payer's own native balance to the
/// recipient, reimbursed through the fee.
pub open spec fn spec_handle_complete_transfer_relay(
    s: EngineV,
    accounts: CompleteTransferRelay,
    gas_dropoff: u64,
    relaying_fee: u64,
) -> (EngineV, Result<(), SwapLayerError>) {
    if s.consumed_fills.contains(accounts.prepared_fill) {
        (s, Err(SwapLayerError::FillAlreadyConsumed))
    } else if !s.fills.contains_key(accounts.prepared_fill) {
        (s, Err(SwapLayerError::FillNotFound))
    } else {
        let fill = s.fills[accounts.prepared_fill];
        if fill.message.recipient != accounts.recipient {
            (s, Err(SwapLayerError::InvalidRecipient))
        } else if !s.tokens.contains_key(accounts.recipient_token_account) {
            (s, Err(SwapLayerError::AccountNotFound))
        } else if s.tokens[accounts.recipient_token_account].mint != USDC_MINT {
            (s, Err(SwapLayerError::InvalidMint))
        } else if s.tokens[accounts.recipient_token_account].owner != accounts.recipient {
            (s, Err(SwapLayerError::InvalidTokenOwner))
        } else if accounts.fee_recipient_token != s.custodian.fee_recipient_token {
            (s, Err(SwapLayerError::InvalidFeeRecipient))
        } else if !s.tokens.contains_key(accounts.fee_recipient_token) {
            (s, Err(SwapLayerError::AccountNotFound))
        } else if s.tokens[accounts.fee_recipient_token].mint != USDC_MINT {
            (s, Err(SwapLayerError::InvalidMint))
        } else {
            let s_consumed = spec_consume_prepared_fill(s, accounts.prepared_fill).0;
            if accounts.payer == accounts.recipient {
                if !token_credit_ok(s.tokens, accounts.recipient_token_account, fill.amount) {
                    (s, Err(SwapLayerError::U64Overflow))
                } else {
                    (
                        EngineV {
                            tokens: token_credit(
                                s.tokens,
                                accounts.recipient_token_account,
                                fill.amount,
                            ),
                            ..s_consumed
                        },
                        Ok(()),
                    )
                }
            } else {
                if relaying_fee > fill.amount {
                    (s, Err(SwapLayerError::InvalidRelayerFee))
                } else {
                    let user_amount = (fill.amount - relaying_fee) as u64;
                    if gas_dropoff > 0 && !native_debit_ok(s.native, accounts.payer, gas_dropoff) {
                        (s, Err(SwapLayerError::InsufficientFunds))
                    } else if gas_dropoff > 0 && !native_credit_ok(
                        s.native,
                        accounts.recipient,
                        gas_dropoff,
                    ) {
                        (s, Err(SwapLayerError::U64Overflow))
                    } else if !token_credit_ok(
                        s.tokens,
                        accounts.recipient_token_account,
                        user_amount,
                    ) {
                        (s, Err(SwapLayerError::U64Overflow))
                    } else if relaying_fee > 0 && !token_credit_ok(
                        token_credit(s.tokens, accounts.recipient_token_account, user_amount),
                        accounts.fee_recipient_token,
                        relaying_fee,
                    ) {
                        (s, Err(SwapLayerError::U64Overflow))
                    } else {
                        let native1 = if gas_dropoff > 0 {
                            native_credit(
                                native_debit(s.native, accounts.payer, gas_dropoff),
                                accounts.recipient,
                                gas_dropoff,
                            )
                        } else {
                            s.native
                        };
                        let tokens1 = token_credit(
                            s.tokens,
                            accounts.recipient_token_account,
                            user_amount,
                        );
                        let tokens2 = if relaying_fee > 0 {
                            token_credit(tokens1, accounts.fee_recipient_token, relaying_fee)
                        } else {
                            tokens1
                        };
                        (
                            EngineV { tokens: tokens2, native: native1, ..s_consumed },
                            Ok(()),
                        )
                    }
                }
            }
        }
    }
}

/// Transition of the fee-relayed settlement-asset completion operation:
/// the message must settle in the settlement asset and its redeem mode
/// must be Relay; the relay terms are then read from the message, the
/// dropoff denormalized to native units, and the completion handled by
/// [`spec_handle_complete_transfer_relay`].
pub open spec fn spec_complete_transfer_relay(s: EngineV, accounts: CompleteTransferRelay) -> (
    EngineV,
    Result<(), SwapLayerError>,
) {
    if s.consumed_fills.contains(accounts.prepared_fill) {
        (s, Err(SwapLayerError::FillAlreadyConsumed))
    } else if !s.fills.contains_key(accounts.prepared_fill) {
        (s, Err(SwapLayerError::FillNotFound))
    } else {
        let msg = s.fills[accounts.prepared_fill].message;
        match msg.output_token {
            OutputToken::Usdc => match msg.redeem_mode {
                RedeemMode::Relay { gas_dropoff, relaying_fee } => {
                    spec_handle_complete_transfer_relay(
                        s,
                        accounts,
                        spec_denormalize_gas_dropoff(gas_dropoff) as u64,
                        relaying_fee,
                    )
                },
                _ => (s, Err(SwapLayerError::InvalidRedeemMode)),
            },
            _ => (s, Err(SwapLayerError::InvalidOutputToken)),
        }
    }
}

/// Self-redemption suppresses the relay terms: whenever a fee-relayed
/// completion succeeds with the payer equal to the recipient, the
/// recipient is credited the full fill amount, no fee is taken, and no
/// native currency moves — regardless of the fee and dropoff values
/// encoded in the message.
pub proof fn lemma_relay_self_redemption_suppresses_fee(
    s: EngineV,
    accounts: CompleteTransferRelay,
    gas_dropoff: u64,
    relaying_fee: u64,
)
    requires
        accounts.payer == accounts.recipient,
        spec_handle_complete_transfer_relay(s, accounts, gas_dropoff, relaying_fee).1 is Ok,
    ensures
        ({
            let s1 = spec_handle_complete_transfer_relay(s, accounts, gas_dropoff, relaying_fee).0;
            &&& s1.native == s.native
            &&& s1.tokens == token_credit(
                s.tokens,
                accounts.recipient_token_account,
                s.fills[accounts.prepared_fill].amount,
            )
        }),
{
}

/// A relaying fee that exceeds the fill amount makes the operation fail
/// when the payer is not the recipient: the result is an error and no
/// balance or record changes at all.
pub proof fn lemma_relay_fee_exceeding_fill_fails(
    s: EngineV,
    accounts: CompleteTransferRelay,
    gas_dropoff: u64,
    relaying_fee: u64,
)
    requires
        accounts.payer != accounts.recipient,
        s.fills.contains_key(accounts.prepared_fill) ==> relaying_fee
            > s.fills[accounts.prepared_fill].amount,
    ensures
        spec_handle_complete_transfer_relay(s, accounts, gas_dropoff, relaying_fee).1 is Err,
        spec_handle_complete_transfer_relay(s, accounts, gas_dropoff, relaying_fee).0 == s,
{
}

impl Engine {
    /// A fresh engine with the given authority record and an empty ledger.
    pub fn new(custodian: Custodian) -> (r: Engine)
        ensures
            r@.fills == Map::<u64, PreparedFill>::empty(),
            r@.consumed_fills == Set::<u64>::empty(),
            r@.tokens == Map::<u64, TokenAccount>::empty(),
            r@.native == Map::<u64, u64>::empty(),
            r@.staged_inbound == Map::<u64, StagedInbound>::empty(),
            r@.staged_outbound == Map::<u64, StagedOutbound>::empty(),
            r@.delegations == Map::<u64, StageOutboundArgs>::empty(),
            r@.custodian == custodian,
    {
        Engine {
            fills: HashMap::new(),
            consumed_fills: HashSet::new(),
            tokens: HashMap::new(),
            native: HashMap::new(),
            staged_inbound: HashMap::new(),
            staged_outbound: HashMap::new(),
            delegations: HashMap::new(),
            custodian,
        }
    }

    /// Consumes a prepared fill: the single irreversible transition out of
    /// the fill-available state. See [`spec_consume_prepared_fill`].
    pub fn consume_prepared_fill(&mut self, fill_id: u64) -> (r: Result<u64, SwapLayerError>)
        ensures
            final(self)@ == spec_consume_prepared_fill(old(self)@, fill_id).0,
            r == spec_consume_prepared_fill(old(self)@, fill_id).1,
    {
        let ghost s0 = self@;
        if self.consumed_fills.contains(&fill_id) {
            return Err(SwapLayerError::FillAlreadyConsumed);
        }
        let fill = match self.fills.remove(&fill_id) {
            Some(fill) => fill,
            None => {
                return Err(SwapLayerError::FillNotFound);
            },
        };
        let amount = fill.amount;
        self.consumed_fills.insert(fill_id);
        proof {
            assert(self@ =~= spec_consume_prepared_fill(s0, fill_id).0);
        }
        Ok(amount)
    }

    /// Credits a token account whose existence and headroom were already
    /// established.
    fn apply_token_credit(&mut self, id: u64, amount: u64)
        requires
            token_credit_ok(old(self)@.tokens, id, amount),
        ensures
            final(self)@ == (EngineV {
                tokens: token_credit(old(self)@.tokens, id, amount),
                ..old(self)@
            }),
    {
        let ghost s0 = self@;
        let acct = match self.tokens.get(&id) {
            Some(acct) => *acct,
            None => {
                proof {
                    assert(false);
                }
                TokenAccount { mint: 0, owner: 0, amount: 0 }
            },
        };
        self.tokens.insert(
            id,
            TokenAccount { mint: acct.mint, owner: acct.owner, amount: acct.amount + amount },
        );
        proof {
            assert(self@ =~= (EngineV { tokens: token_credit(s0.tokens, id, amount), ..s0 }));
        }
    }

    /// Debits a token account whose existence and balance were already
    /// established.
    fn apply_token_debit(&mut self, id: u64, amount: u64)
        requires
            token_debit_ok(old(self)@.tokens, id, amount),
        ensures
            final(self)@ == (EngineV {
                tokens: token_debit(old(self)@.tokens, id, amount),
                ..old(self)@
            }),
    {
        let ghost s0 = self@;
        let acct = match self.tokens.get(&id) {
            Some(acct) => *acct,
            None => {
                proof {
                    assert(false);
                }
                TokenAccount { mint: 0, owner: 0, amount: 0 }
            },
        };
        self.tokens.insert(
            id,
            TokenAccount { mint: acct.mint, owner: acct.owner, amount: acct.amount - amount },
        );
        proof {
            assert(self@ =~= (EngineV { tokens: token_debit(s0.tokens, id, amount), ..s0 }));
        }
    }

    /// Reads a wallet's native balance.
    pub fn native_balance_of(&self, id: u64) -> (r: u64)
        ensures
            r == native_balance(self@.native, id),
    {
        match self.native.get(&id) {
            Some(balance) => *balance,
            None => 0,
        }
    }

    /// Credits native units to a wallet; headroom was already established.
    fn apply_native_credit(&mut self, id: u64, amount: u64)
        requires
            native_credit_ok(old(self)@.native, id, amount),
        ensures
            final(self)@ == (EngineV {
                native: native_credit(old(self)@.native, id, amount),
                ..old(self)@
            }),
    {
        let ghost s0 = self@;
        let balance = self.native_balance_of(id);
        self.native.insert(id, balance + amount);
        proof {
            assert(self@ =~= (EngineV { native: native_credit(s0.native, id, amount), ..s0 }));
        }
    }

    /// Retires a fill and leaves its consumption marker, returning the
    /// retired fill; that the fill exists and is unconsumed was already
    /// established.
    fn apply_consume_fill(&mut self, fill_id: u64) -> (fill: PreparedFill)
        requires
            old(self)@.fills.contains_key(fill_id),
            !old(self)@.consumed_fills.contains(fill_id),
        ensures
            final(self)@ == spec_consume_prepared_fill(old(self)@, fill_id).0,
            fill == old(self)@.fills[fill_id],
    {
        let ghost s0 = self@;
        let fill = match self.fills.remove(&fill_id) {
            Some(fill) => fill,
            None => {
                proof {
                    assert(false);
                }
                unreached()
            },
        };
        self.consumed_fills.insert(fill_id);
        proof {
            assert(self@ =~= spec_consume_prepared_fill(s0, fill_id).0);
        }
        fill
    }

    /// Debits native units from a wallet; coverage was already established.
    fn apply_native_debit(&mut self, id: u64, amount: u64)
        requires
            native_debit_ok(old(self)@.native, id, amount),
        ensures
            final(self)@ == (EngineV {
                native: native_debit(old(self)@.native, id, amount),
                ..old(self)@
            }),
    {
        let ghost s0 = self@;
        let balance = self.native_balance_of(id);
        self.native.insert(id, balance - amount);
        proof {
            assert(self@ =~= (EngineV { native: native_debit(s0.native, id, amount), ..s0 }));
        }
    }
}

/// Completes a fee-relayed settlement-asset transfer after the relay
/// terms were read from the message; see
/// [`spec_handle_complete_transfer_relay`]. `gas_dropoff` is already in
/// native base units.
pub fn handle_complete_transfer_relay(
    engine: &mut Engine,
    accounts: &CompleteTransferRelay,
    gas_dropoff: u64,
    relaying_fee: u64,
) -> (r: Result<(), SwapLayerError>)
    ensures
        final(engine)@ == spec_handle_complete_transfer_relay(
            old(engine)@,
            *accounts,
            gas_dropoff,
            relaying_fee,
        ).0,
        r == spec_handle_complete_transfer_relay(
            old(engine)@,
            *accounts,
            gas_dropoff,
            relaying_fee,
        ).1,
{
    let ghost s0 = engine@;
    if engine.consumed_fills.contains(&accounts.prepared_fill) {
        return Err(SwapLayerError::FillAlreadyConsumed);
    }
    let (fill_amount, msg_recipient) = match engine.fills.get(&accounts.prepared_fill) {
        None => {
            return Err(SwapLayerError::FillNotFound);
        },
        Some(fill) => (fill.amount, fill.message.recipient),
    };
    if msg_recipient != accounts.recipient {
        return Err(SwapLayerError::InvalidRecipient);
    }
    let recipient_acct = match engine.tokens.get(&accounts.recipient_token_account) {
        None => {
            return Err(SwapLayerError::AccountNotFound);
        },
        Some(acct) => *acct,
    };
    if recipient_acct.mint != USDC_MINT {
        return Err(SwapLayerError::InvalidMint);
    }
    if recipient_acct.owner != accounts.recipient {
        return Err(SwapLayerError::InvalidTokenOwner);
    }
    if accounts.fee_recipient_token != engine.custodian.fee_recipient_token {
        return Err(SwapLayerError::InvalidFeeRecipient);
    }
    let fee_acct = match engine.tokens.get(&accounts.fee_recipient_token) {
        None => {
            return Err(SwapLayerError::AccountNotFound);
        },
        Some(acct) => *acct,
    };
    if fee_acct.mint != USDC_MINT {
        return Err(SwapLayerError::InvalidMint);
    }
    if accounts.payer == accounts.recipient {
        if fill_amount > u64::MAX - recipient_acct.amount {
            return Err(SwapLayerError::U64Overflow);
        }
        let _ = engine.apply_consume_fill(accounts.prepared_fill);
        engine.apply_token_credit(accounts.recipient_token_account, fill_amount);
        proof {
            assert(engine@ =~= spec_handle_complete_transfer_relay(
                s0,
                *accounts,
                gas_dropoff,
                relaying_fee,
            ).0);
        }
        Ok(())
    } else {
        if relaying_fee > fill_amount {
            return Err(SwapLayerError::InvalidRelayerFee);
        }
        let user_amount = fill_amount - relaying_fee;
        if gas_dropoff > 0 {
            let payer_native = engine.native_balance_of(accounts.payer);
            if payer_native < gas_dropoff {
                return Err(SwapLayerError::InsufficientFunds);
            }
            let recipient_native = engine.native_balance_of(accounts.recipient);
            if gas_dropoff > u64::MAX - recipient_native {
                return Err(SwapLayerError::U64Overflow);
            }
        }
        if user_amount > u64::MAX - recipient_acct.amount {
            return Err(SwapLayerError::U64Overflow);
        }
        if relaying_fee > 0 {
            let fee_base = if accounts.fee_recipient_token == accounts.recipient_token_account {
                recipient_acct.amount + user_amount
            } else {
                fee_acct.amount
            };
            if relaying_fee > u64::MAX - fee_base {
                return Err(SwapLayerError::U64Overflow);
            }
        }
        let _ = engine.apply_consume_fill(accounts.prepared_fill);
        if gas_dropoff > 0 {
            engine.apply_native_debit(accounts.payer, gas_dropoff);
            engine.apply_native_credit(accounts.recipient, gas_dropoff);
        }
        engine.apply_token_credit(accounts.recipient_token_account, user_amount);
        if relaying_fee > 0 {
            engine.apply_token_credit(accounts.fee_recipient_token, relaying_fee);
        }
        proof {
            assert(engine@ =~= spec_handle_complete_transfer_relay(
                s0,
                *accounts,
                gas_dropoff,
                relaying_fee,
            ).0);
        }
        Ok(())
    }
}

/// Completes a fee-relayed transfer that settles in the settlement asset:
/// reads the relay terms from the fill's message and hands off to
/// [`handle_complete_transfer_relay`]. See [`spec_complete_transfer_relay`].
pub fn complete_transfer_relay(engine: &mut Engine, accounts: &CompleteTransferRelay) -> (r:
    Result<(), SwapLayerError>)
    ensures
        final(engine)@ == spec_complete_transfer_relay(old(engine)@, *accounts).0,
        r == spec_complete_transfer_relay(old(engine)@, *accounts).1,
{
    if engine.consumed_fills.contains(&accounts.prepared_fill) {
        return Err(SwapLayerError::FillAlreadyConsumed);
    }
    let (is_usdc, relay_terms) = match engine.fills.get(&accounts.prepared_fill) {
        None => {
            return Err(SwapLayerError::FillNotFound);
        },
        Some(fill) => (
            matches!(fill.message.output_token, OutputToken::Usdc),
            match &fill.message.redeem_mode {
                RedeemMode::Relay { gas_dropoff, relaying_fee } => Some(
                    (*gas_dropoff, *relaying_fee),
                ),
                _ => None,
            },
        ),
    };
    if !is_usdc {
        return Err(SwapLayerError::InvalidOutputToken);
    }
    match relay_terms {
        Some((gas_dropoff, relaying_fee)) => handle_complete_transfer_relay(
            engine,
            accounts,
            denormalize_gas_dropoff(gas_dropoff),
            relaying_fee,
        ),
        None => Err(SwapLayerError::InvalidRedeemMode),
    }
}


/// Size a staged inbound record for this message would need: the fixed
/// record size plus its payload. Only a Payload-mode message can be
/// staged, and a payload pushing the record past the ledger's limit is
/// rejected.
pub open spec fn spec_try_compute_staged_transfer_size(msg: SwapMessage) -> Result<
    u64,
    SwapLayerError,
> {
    match msg.redeem_mode {
        RedeemMode::Payload { sender, buf } => {
            if STAGED_INBOUND_BASE_SIZE + buf@.len() > MAX_STAGED_ACCOUNT_SIZE {
                Err(SwapLayerError::PayloadTooLarge)
            } else {
                Ok((STAGED_INBOUND_BASE_SIZE + buf@.len()) as u64)
            }
        },
        _ => Err(SwapLayerError::InvalidRedeemMode),
    }
}

/// Executable form of [`spec_try_compute_staged_transfer_size`].
pub fn try_compute_staged_transfer_size(msg: &SwapMessage) -> (r: Result<u64, SwapLayerError>)
    ensures
        r == spec_try_compute_staged_transfer_size(*msg),
{
    match &msg.redeem_mode {
        RedeemMode::Payload { sender: _, buf } => {
            let payload_len: u64 = buf.len() as u64;
            if payload_len > MAX_STAGED_ACCOUNT_SIZE - STAGED_INBOUND_BASE_SIZE {
                Err(SwapLayerError::PayloadTooLarge)
            } else {
                Ok(STAGED_INBOUND_BASE_SIZE + payload_len)
            }
        },
        _ => Err(SwapLayerError::InvalidRedeemMode),
    }
}

/// The opaque payload of a Payload-mode message; any other redeem mode is
/// the wrong one for a staging path.
pub fn get_swap_message_payload(msg: &SwapMessage) -> (r: Result<&Vec<u8>, SwapLayerError>)
    ensures
        (msg.redeem_mode matches RedeemMode::Payload { sender, buf } ==> (r matches Ok(b)
            && b@ == buf@)),
        (!(msg.redeem_mode is Payload) ==> r == Err::<&Vec<u8>, SwapLayerError>(
            SwapLayerError::InvalidRedeemMode,
        )),
{
    match &msg.redeem_mode {
        RedeemMode::Payload { sender: _, buf } => Ok(buf),
        _ => Err(SwapLayerError::InvalidRedeemMode),
    }
}

/// Accounts of one Payload-mode completion: who submits it and which fill
/// is parked. The escrow the operation creates is keyed by the fill's own
/// identity — the deterministic address both the writer and a later
/// release recompute.
#[derive(Clone, Copy, Debug, PartialEq, Eq, Structural)]
pub struct CompleteTransferPayload {
    /// Submitter; pays the holding deposit and is recorded as the stager.
    pub payer: u64,
    /// Identity of the prepared fill being parked.
    pub prepared_fill: u64,
}

/// Transition of a Payload-mode completion. The message must settle in
/// the settlement asset and carry a Payload redeem mode. The first
/// invocation consumes the fill, debits the payer's holding deposit, and
/// creates the escrow record holding the fill amount and the payload; any
/// later invocation on an already-initialized escrow succeeds and changes
/// nothing, so the operation is safe to retry.
pub open spec fn spec_complete_transfer_payload(s: EngineV, accounts: CompleteTransferPayload) -> (
    EngineV,
    Result<(), SwapLayerError>,
) {
    if s.consumed_fills.contains(accounts.prepared_fill) {
        if s.staged_inbound.contains_key(accounts.prepared_fill) {
            (s, Ok(()))
        } else {
            (s, Err(SwapLayerError::FillAlreadyConsumed))
        }
    } else if !s.fills.contains_key(accounts.prepared_fill) {
        (s, Err(SwapLayerError::FillNotFound))
    } else {
        let fill = s.fills[accounts.prepared_fill];
        let msg = fill.message;
        if !(msg.output_token is Usdc) {
            (s, Err(SwapLayerError::InvalidOutputToken))
        } else {
            match msg.redeem_mode {
                RedeemMode::Payload { sender, buf } => {
                    if STAGED_INBOUND_BASE_SIZE + buf@.len() > MAX_STAGED_ACCOUNT_SIZE {
                        (s, Err(SwapLayerError::PayloadTooLarge))
                    } else if s.staged_inbound.contains_key(accounts.prepared_fill) {
                        (s, Ok(()))
                    } else if !native_debit_ok(s.native, accounts.payer, STAGED_INBOUND_DEPOSIT) {
                        (s, Err(SwapLayerError::InsufficientFunds))
                    } else {
                        let s1 = spec_consume_prepared_fill(s, accounts.prepared_fill).0;
                        let record = StagedInbound {
                            staged_by: accounts.payer,
                            source_chain: fill.source_chain,
                            sender: sender,
                            recipient: msg.recipient,
                            is_native: false,
                            recipient_payload: buf,
                            custody_amount: fill.amount,
                            deposit: STAGED_INBOUND_DEPOSIT,
                        };
                        (
                            EngineV {
                                native: native_debit(
                                    s.native,
                                    accounts.payer,
                                    STAGED_INBOUND_DEPOSIT,
                                ),
                                staged_inbound: s.staged_inbound.insert(
                                    accounts.prepared_fill,
                                    record,
                                ),
                                ..s1
                            },
                            Ok(()),
                        )
                    }
                },
                _ => (s, Err(SwapLayerError::InvalidRedeemMode)),
            }
        }
    }
}

/// Payload-mode escrow initialization is idempotent: once one invocation
/// has succeeded, every further invocation on the same fill succeeds and
/// leaves the state — the single escrow record included — exactly as it
/// was.
pub proof fn lemma_payload_staging_idempotent(s: EngineV, accounts: CompleteTransferPayload)
    requires
        spec_complete_transfer_payload(s, accounts).1 is Ok,
    ensures
        ({
            let s1 = spec_complete_transfer_payload(s, accounts).0;
            &&& spec_complete_transfer_payload(s1, accounts).1 == Ok::<(), SwapLayerError>(())
            &&& spec_complete_transfer_payload(s1, accounts).0 == s1
        }),
{
}

/// Parks a Payload-mode fill in a staged inbound escrow; see
/// [`spec_complete_transfer_payload`].
pub fn complete_transfer_payload(engine: &mut Engine, accounts: &CompleteTransferPayload) -> (r:
    Result<(), SwapLayerError>)
    ensures
        final(engine)@ == spec_complete_transfer_payload(old(engine)@, *accounts).0,
        r == spec_complete_transfer_payload(old(engine)@, *accounts).1,
{
    let ghost s0 = engine@;
    if engine.consumed_fills.contains(&accounts.prepared_fill) {
        if engine.staged_inbound.contains_key(&accounts.prepared_fill) {
            return Ok(());
        }
        return Err(SwapLayerError::FillAlreadyConsumed);
    }
    let payload_len: u64 = match engine.fills.get(&accounts.prepared_fill) {
        None => {
            return Err(SwapLayerError::FillNotFound);
        },
        Some(fill) => {
            if !matches!(fill.message.output_token, OutputToken::Usdc) {
                return Err(SwapLayerError::InvalidOutputToken);
            }
            match &fill.message.redeem_mode {
                RedeemMode::Payload { sender: _, buf } => buf.len() as u64,
                _ => {
                    return Err(SwapLayerError::InvalidRedeemMode);
                },
            }
        },
    };
    if payload_len > MAX_STAGED_ACCOUNT_SIZE - STAGED_INBOUND_BASE_SIZE {
        return Err(SwapLayerError::PayloadTooLarge);
    }
    if engine.staged_inbound.contains_key(&accounts.prepared_fill) {
        return Ok(());
    }
    let payer_native = engine.native_balance_of(accounts.payer);
    if payer_native < STAGED_INBOUND_DEPOSIT {
        return Err(SwapLayerError::InsufficientFunds);
    }
    let fill = engine.apply_consume_fill(accounts.prepared_fill);
    engine.apply_native_debit(accounts.payer, STAGED_INBOUND_DEPOSIT);
    let amount = fill.amount;
    let source_chain = fill.source_chain;
    let recipient = fill.message.recipient;
    let (sender, buf) = match fill.message.redeem_mode {
        RedeemMode::Payload { sender, buf } => (sender, buf),
        _ => {
            proof {
                assert(false);
            }
            unreached()
        },
    };
    engine.staged_inbound.insert(
        accounts.prepared_fill,
        StagedInbound {
            staged_by: accounts.payer,
            source_chain: source_chain,
            sender: sender,
            recipient: recipient,
            is_native: false,
            recipient_payload: buf,
            custody_amount: amount,
            deposit: STAGED_INBOUND_DEPOSIT,
        },
    );
    proof {
        assert(engine@ =~= spec_complete_transfer_payload(s0, *accounts).0);
    }
    Ok(())
}

/// Accounts of one escrow release: the signer claiming the parked funds,
/// the destination they chose, the escrow being drained, and the
/// beneficiary of the holding deposit.
#[derive(Clone, Copy, Debug, PartialEq, Eq, Structural)]
pub struct ReleaseInbound {
    /// Signer; must be the recipient recorded in the escrow.
    pub recipient: u64,
    /// Wallet receiving the residual holding deposit; chosen freely by
    /// whoever submits the release.
    pub beneficiary: u64,
    /// Settlement-asset account the escrowed funds are drained to; the
    /// releaser may send them anywhere.
    pub dst_token: u64,
    /// Identity of the staged inbound escrow (the fill it parked).
    pub staged_inbound: u64,
}

/// Transition of one escrow release. Only the recipient recorded at
/// staging time may release; the full escrowed balance is drained to the
/// destination the releaser selected, the record is destroyed, and the
/// holding deposit goes to the chosen beneficiary.
pub open spec fn spec_release_inbound(s: EngineV, accounts: ReleaseInbound) -> (EngineV, Result<
    (),
    SwapLayerError,
>) {
    if !s.staged_inbound.contains_key(accounts.staged_inbound) {
        (s, Err(SwapLayerError::AccountNotFound))
    } else {
        let record = s.staged_inbound[accounts.staged_inbound];
        if accounts.recipient != record.recipient {
            (s, Err(SwapLayerError::InvalidRecipient))
        } else if !s.tokens.contains_key(accounts.dst_token) {
            (s, Err(SwapLayerError::AccountNotFound))
        } else if s.tokens[accounts.dst_token].mint != USDC_MINT {
            (s, Err(SwapLayerError::InvalidMint))
        } else if !token_credit_ok(s.tokens, accounts.dst_token, record.custody_amount) {
            (s, Err(SwapLayerError::U64Overflow))
        } else if !native_credit_ok(s.native, accounts.beneficiary, record.deposit) {
            (s, Err(SwapLayerError::U64Overflow))
        } else {
            (
                EngineV {
                    tokens: token_credit(s.tokens, accounts.dst_token, record.custody_amount),
                    native: native_credit(s.native, accounts.beneficiary, record.deposit),
                    staged_inbound: s.staged_inbound.remove(accounts.staged_inbound),
                    ..s
                },
                Ok(()),
            )
        }
    }
}

/// Releases a staged inbound escrow to a destination of the recipient's
/// choosing; see [`spec_release_inbound`].
pub fn release_inbound(engine: &mut Engine, accounts: &ReleaseInbound) -> (r: Result<
    (),
    SwapLayerError,
>)
    ensures
        final(engine)@ == spec_release_inbound(old(engine)@, *accounts).0,
        r == spec_release_inbound(old(engine)@, *accounts).1,
{
    let ghost s0 = engine@;
    let (record_recipient, custody_amount, deposit) = match engine.staged_inbound.get(
        &accounts.staged_inbound,
    ) {
        None => {
            return Err(SwapLayerError::AccountNotFound);
        },
        Some(record) => (record.recipient, record.custody_amount, record.deposit),
    };
    if accounts.recipient != record_recipient {
        return Err(SwapLayerError::InvalidRecipient);
    }
    let dst_acct = match engine.tokens.get(&accounts.dst_token) {
        None => {
            return Err(SwapLayerError::AccountNotFound);
        },
        Some(acct) => *acct,
    };
    if dst_acct.mint != USDC_MINT {
        return Err(SwapLayerError::InvalidMint);
    }
    if custody_amount > u64::MAX - dst_acct.amount {
        return Err(SwapLayerError::U64Overflow);
    }
    let beneficiary_native = engine.native_balance_of(accounts.beneficiary);
    if deposit > u64::MAX - beneficiary_native {
        return Err(SwapLayerError::U64Overflow);
    }
    engine.apply_token_credit(accounts.dst_token, custody_amount);
    engine.apply_native_credit(accounts.beneficiary, deposit);
    let _ = engine.staged_inbound.remove(&accounts.staged_inbound);
    proof {
        assert(engine@ =~= spec_release_inbound(s0, *accounts).0);
    }
    Ok(())
}


/// Least output the venue may deliver for the executed arguments: the
/// quoted amount less the allowed slippage.
pub open spec fn spec_swap_min_out(quoted_out_amount: u64, slippage_bps: u16) -> int {
    if slippage_bps >= crate::fees::MAX_BPS {
        0
    } else {
        quoted_out_amount - (quoted_out_amount * slippage_bps) / (crate::fees::MAX_BPS as int)
    }
}

/// Executable form of [`spec_swap_min_out`].
pub fn swap_min_out(quoted_out_amount: u64, slippage_bps: u16) -> (r: u64)
    ensures
        r == spec_swap_min_out(quoted_out_amount, slippage_bps),
{
    if slippage_bps as u64 >= crate::fees::MAX_BPS {
        return 0;
    }
    proof {
        assert((quoted_out_amount as int) * (slippage_bps as int) <= (u64::MAX as int) * (
        u16::MAX as int)) by (nonlinear_arith)
            requires
                0 <= quoted_out_amount as int <= u64::MAX as int,
                0 <= slippage_bps as int <= u16::MAX as int,
        ;
    }
    let allowance_wide: u128 = ((quoted_out_amount as u128) * (slippage_bps as u128)) / (
    crate::fees::MAX_BPS as u128);
    proof {
        assert(allowance_wide as int <= quoted_out_amount as int) by (nonlinear_arith)
            requires
                allowance_wide as int == ((quoted_out_amount as int) * (slippage_bps as int))
                    / 10_000,
                0 <= (slippage_bps as int) && (slippage_bps as int) < 10_000,
                0 <= (quoted_out_amount as int),
        ;
    }
    quoted_out_amount - (allowance_wide as u64)
}

/// Accounts of one direct swap completion: the submitter, the recipient
/// and their destination-asset account, the fill being redeemed, and the
/// transient per-fill swap authority with its two custody accounts.
#[derive(Clone, Copy, Debug, PartialEq, Eq, Structural)]
pub struct CompleteSwapDirect {
    pub payer: u64,
    pub recipient: u64,
    /// Destination-asset account of the recipient; unused when the output
    /// is native currency.
    pub recipient_token: u64,
    /// Identity of the prepared fill being redeemed.
    pub prepared_fill: u64,
    /// Transient swap authority derived from the fill's own identity.
    pub swap_authority: u64,
    /// Custody the venue draws the settlement asset from.
    pub src_swap_token: u64,
    /// Custody the venue fills with the destination asset.
    pub dst_swap_token: u64,
    /// The destination mint the swap must settle in.
    pub dst_mint: u64,
}

/// The route accounts the engine expects for a swap under these accounts:
/// its own transient authority, its own custody accounts, the settlement
/// asset in, and the declared destination mint out.
pub open spec fn spec_expected_route(accounts: CompleteSwapDirect) -> JupiterV6SharedAccountsRoute {
    JupiterV6SharedAccountsRoute {
        transfer_authority: accounts.swap_authority,
        src_custody_token: accounts.src_swap_token,
        dst_custody_token: accounts.dst_swap_token,
        src_mint: USDC_MINT,
        dst_mint: accounts.dst_mint,
    }
}

/// Transition of the swap-and-distribute tail of a direct completion,
/// after the redeem mode was checked and the staged limit read.
///
/// The fill is consumed before the swap; the declared route must match
/// the engine's expectations ([`spec_prepare_swap_args`]); the venue's
/// realized output must meet the executed minimum; the proceeds go to the
/// recipient — their destination-asset account, or their native balance
/// when `is_native` holds.
pub open spec fn spec_handle_complete_swap_direct_jup_v6(
    s: EngineV,
    accounts: CompleteSwapDirect,
    route: JupiterV6SharedAccountsRoute,
    swap_args: SwapArgs,
    venue_out: u64,
    limit_and_params: Option<(u64, JupiterV6SwapParameters)>,
    is_native: bool,
) -> (EngineV, Result<(), SwapLayerError>) {
    if s.consumed_fills.contains(accounts.prepared_fill) {
        (s, Err(SwapLayerError::FillAlreadyConsumed))
    } else if !s.fills.contains_key(accounts.prepared_fill) {
        (s, Err(SwapLayerError::FillNotFound))
    } else {
        let fill = s.fills[accounts.prepared_fill];
        match spec_prepare_swap_args(
            route,
            swap_args,
            spec_expected_route(accounts),
            fill.amount,
            limit_and_params,
        ) {
            Err(e) => (s, Err(e)),
            Ok(executed) => {
                if venue_out < spec_swap_min_out(executed.quoted_out_amount, executed.slippage_bps) {
                    (s, Err(SwapLayerError::InvalidLimitAmount))
                } else if !is_native {
                    if !s.tokens.contains_key(accounts.recipient_token) {
                        (s, Err(SwapLayerError::AccountNotFound))
                    } else if s.tokens[accounts.recipient_token].mint != accounts.dst_mint {
                        (s, Err(SwapLayerError::InvalidMint))
                    } else if s.tokens[accounts.recipient_token].owner != accounts.recipient {
                        (s, Err(SwapLayerError::InvalidTokenOwner))
                    } else if !token_credit_ok(s.tokens, accounts.recipient_token, venue_out) {
                        (s, Err(SwapLayerError::U64Overflow))
                    } else {
                        let s1 = spec_consume_prepared_fill(s, accounts.prepared_fill).0;
                        (
                            EngineV {
                                tokens: token_credit(s.tokens, accounts.recipient_token, venue_out),
                                ..s1
                            },
                            Ok(()),
                        )
                    }
                } else {
                    if !native_credit_ok(s.native, accounts.recipient, venue_out) {
                        (s, Err(SwapLayerError::U64Overflow))
                    } else {
                        let s1 = spec_consume_prepared_fill(s, accounts.prepared_fill).0;
                        (
                            EngineV {
                                native: native_credit(s.native, accounts.recipient, venue_out),
                                ..s1
                            },
                            Ok(()),
                        )
                    }
                }
            },
        }
    }
}

/// Transition of a direct completion. The message's recipient must be the
/// named recipient and the redeem mode must be Direct. Settlement in the
/// settlement asset requires the caller to be the recipient and pays the
/// full fill amount with no swap; settlement in native currency or another
/// mint requires a swap whose limit and target were fixed at staging time.
pub open spec fn spec_complete_swap_direct(
    s: EngineV,
    accounts: CompleteSwapDirect,
    route: JupiterV6SharedAccountsRoute,
    swap_args: SwapArgs,
    venue_out: u64,
) -> (EngineV, Result<(), SwapLayerError>) {
    if s.consumed_fills.contains(accounts.prepared_fill) {
        (s, Err(SwapLayerError::FillAlreadyConsumed))
    } else if !s.fills.contains_key(accounts.prepared_fill) {
        (s, Err(SwapLayerError::FillNotFound))
    } else {
        let msg = s.fills[accounts.prepared_fill].message;
        if msg.recipient != accounts.recipient {
            (s, Err(SwapLayerError::InvalidRecipient))
        } else if !(msg.redeem_mode is Direct) {
            (s, Err(SwapLayerError::InvalidRedeemMode))
        } else {
            match msg.output_token {
                OutputToken::Usdc => {
                    if accounts.payer != accounts.recipient {
                        (s, Err(SwapLayerError::InvalidRecipient))
                    } else if accounts.dst_mint != USDC_MINT {
                        (s, Err(SwapLayerError::InvalidDestinationMint))
                    } else if !s.tokens.contains_key(accounts.recipient_token) {
                        (s, Err(SwapLayerError::AccountNotFound))
                    } else if s.tokens[accounts.recipient_token].mint != USDC_MINT {
                        (s, Err(SwapLayerError::InvalidMint))
                    } else if s.tokens[accounts.recipient_token].owner != accounts.recipient {
                        (s, Err(SwapLayerError::InvalidTokenOwner))
                    } else if !token_credit_ok(
                        s.tokens,
                        accounts.recipient_token,
                        s.fills[accounts.prepared_fill].amount,
                    ) {
                        (s, Err(SwapLayerError::U64Overflow))
                    } else {
                        let s1 = spec_consume_prepared_fill(s, accounts.prepared_fill).0;
                        (
                            EngineV {
                                tokens: token_credit(
                                    s.tokens,
                                    accounts.recipient_token,
                                    s.fills[accounts.prepared_fill].amount,
                                ),
                                ..s1
                            },
                            Ok(()),
                        )
                    }
                },
                OutputToken::Gas(swap) => match swap.swap_type {
                    SwapType::JupiterV6(params) => spec_handle_complete_swap_direct_jup_v6(
                        s,
                        accounts,
                        route,
                        swap_args,
                        venue_out,
                        Some((swap.limit_amount, params)),
                        true,
                    ),
                    _ => (s, Err(SwapLayerError::InvalidOutputToken)),
                },
                OutputToken::Other { address, swap } => match swap.swap_type {
                    SwapType::JupiterV6(params) => {
                        if accounts.dst_mint != address {
                            (s, Err(SwapLayerError::InvalidDestinationMint))
                        } else {
                            spec_handle_complete_swap_direct_jup_v6(
                                s,
                                accounts,
                                route,
                                swap_args,
                                venue_out,
                                Some((swap.limit_amount, params)),
                                false,
                            )
                        }
                    },
                    _ => (s, Err(SwapLayerError::InvalidOutputToken)),
                },
            }
        }
    }
}

/// In every asset-converting direct completion the swap runs in override
/// mode: it is validated against the consumed fill amount itself — never a
/// caller-declared amount — and the arguments it executes carry that exact
/// input, the staged limit, and zero slippage.
pub proof fn lemma_direct_swap_pins_fill_amount(
    s: EngineV,
    accounts: CompleteSwapDirect,
    route: JupiterV6SharedAccountsRoute,
    swap_args: SwapArgs,
    venue_out: u64,
    limit_amount: u64,
    params: JupiterV6SwapParameters,
    is_native: bool,
)
    requires
        spec_handle_complete_swap_direct_jup_v6(
            s,
            accounts,
            route,
            swap_args,
            venue_out,
            Some((limit_amount, params)),
            is_native,
        ).1 is Ok,
    ensures
        ({
            let executed = spec_prepare_swap_args(
                route,
                swap_args,
                spec_expected_route(accounts),
                s.fills[accounts.prepared_fill].amount,
                Some((limit_amount, params)),
            )->Ok_0;
            &&& executed.in_amount == s.fills[accounts.prepared_fill].amount
            &&& executed.quoted_out_amount == limit_amount
            &&& executed.slippage_bps == 0
            &&& venue_out >= limit_amount
        }),
{
}

/// Completes the swap-and-distribute tail of a direct completion; see
/// [`spec_handle_complete_swap_direct_jup_v6`]. `venue_out` is the
/// realized output the external venue reported for this execution.
pub fn handle_complete_swap_direct_jup_v6(
    engine: &mut Engine,
    accounts: &CompleteSwapDirect,
    route: &JupiterV6SharedAccountsRoute,
    swap_args: SwapArgs,
    venue_out: u64,
    limit_and_params: Option<(u64, JupiterV6SwapParameters)>,
    is_native: bool,
) -> (r: Result<(), SwapLayerError>)
    ensures
        final(engine)@ == spec_handle_complete_swap_direct_jup_v6(
            old(engine)@,
            *accounts,
            *route,
            swap_args,
            venue_out,
            limit_and_params,
            is_native,
        ).0,
        r == spec_handle_complete_swap_direct_jup_v6(
            old(engine)@,
            *accounts,
            *route,
            swap_args,
            venue_out,
            limit_and_params,
            is_native,
        ).1,
{
    let ghost s0 = engine@;
    if engine.consumed_fills.contains(&accounts.prepared_fill) {
        return Err(SwapLayerError::FillAlreadyConsumed);
    }
    let fill_amount = match engine.fills.get(&accounts.prepared_fill) {
        None => {
            return Err(SwapLayerError::FillNotFound);
        },
        Some(fill) => fill.amount,
    };
    let expected = JupiterV6SharedAccountsRoute {
        transfer_authority: accounts.swap_authority,
        src_custody_token: accounts.src_swap_token,
        dst_custody_token: accounts.dst_swap_token,
        src_mint: USDC_MINT,
        dst_mint: accounts.dst_mint,
    };
    let executed = match prepare_swap_args(route, swap_args, &expected, fill_amount, limit_and_params) {
        Err(e) => {
            return Err(e);
        },
        Ok(executed) => executed,
    };
    let min_out = swap_min_out(executed.quoted_out_amount, executed.slippage_bps);
    if venue_out < min_out {
        return Err(SwapLayerError::InvalidLimitAmount);
    }
    if !is_native {
        let recipient_acct = match engine.tokens.get(&accounts.recipient_token) {
            None => {
                return Err(SwapLayerError::AccountNotFound);
            },
            Some(acct) => *acct,
        };
        if recipient_acct.mint != accounts.dst_mint {
            return Err(SwapLayerError::InvalidMint);
        }
        if recipient_acct.owner != accounts.recipient {
            return Err(SwapLayerError::InvalidTokenOwner);
        }
        if venue_out > u64::MAX - recipient_acct.amount {
            return Err(SwapLayerError::U64Overflow);
        }
        let _ = engine.apply_consume_fill(accounts.prepared_fill);
        engine.apply_token_credit(accounts.recipient_token, venue_out);
        proof {
            assert(engine@ =~= spec_handle_complete_swap_direct_jup_v6(
                s0,
                *accounts,
                *route,
                swap_args,
                venue_out,
                limit_and_params,
                is_native,
            ).0);
        }
        Ok(())
    } else {
        let recipient_native = engine.native_balance_of(accounts.recipient);
        if venue_out > u64::MAX - recipient_native {
            return Err(SwapLayerError::U64Overflow);
        }
        let _ = engine.apply_consume_fill(accounts.prepared_fill);
        engine.apply_native_credit(accounts.recipient, venue_out);
        proof {
            assert(engine@ =~= spec_handle_complete_swap_direct_jup_v6(
                s0,
                *accounts,
                *route,
                swap_args,
                venue_out,
                limit_and_params,
                is_native,
            ).0);
        }
        Ok(())
    }
}

/// Completes a direct redemption, swapping when the staged output token
/// requires it; see [`spec_complete_swap_direct`].
pub fn complete_swap_direct(
    engine: &mut Engine,
    accounts: &CompleteSwapDirect,
    route: &JupiterV6SharedAccountsRoute,
    swap_args: SwapArgs,
    venue_out: u64,
) -> (r: Result<(), SwapLayerError>)
    ensures
        final(engine)@ == spec_complete_swap_direct(
            old(engine)@,
            *accounts,
            *route,
            swap_args,
            venue_out,
        ).0,
        r == spec_complete_swap_direct(old(engine)@, *accounts, *route, swap_args, venue_out).1,
{
    let ghost s0 = engine@;
    if engine.consumed_fills.contains(&accounts.prepared_fill) {
        return Err(SwapLayerError::FillAlreadyConsumed);
    }
    let (msg_recipient, is_direct, output_token, fill_amount) = match engine.fills.get(
        &accounts.prepared_fill,
    ) {
        None => {
            return Err(SwapLayerError::FillNotFound);
        },
        Some(fill) => (
            fill.message.recipient,
            matches!(fill.message.redeem_mode, RedeemMode::Direct),
            fill.message.output_token,
            fill.amount,
        ),
    };
    if msg_recipient != accounts.recipient {
        return Err(SwapLayerError::InvalidRecipient);
    }
    if !is_direct {
        return Err(SwapLayerError::InvalidRedeemMode);
    }
    match output_token {
        OutputToken::Usdc => {
            if accounts.payer != accounts.recipient {
                return Err(SwapLayerError::InvalidRecipient);
            }
            if accounts.dst_mint != USDC_MINT {
                return Err(SwapLayerError::InvalidDestinationMint);
            }
            let recipient_acct = match engine.tokens.get(&accounts.recipient_token) {
                None => {
                    return Err(SwapLayerError::AccountNotFound);
                },
                Some(acct) => *acct,
            };
            if recipient_acct.mint != USDC_MINT {
                return Err(SwapLayerError::InvalidMint);
            }
            if recipient_acct.owner != accounts.recipient {
                return Err(SwapLayerError::InvalidTokenOwner);
            }
            if fill_amount > u64::MAX - recipient_acct.amount {
                return Err(SwapLayerError::U64Overflow);
            }
            let _ = engine.apply_consume_fill(accounts.prepared_fill);
            engine.apply_token_credit(accounts.recipient_token, fill_amount);
            proof {
                assert(engine@ =~= spec_complete_swap_direct(
                    s0,
                    *accounts,
                    *route,
                    swap_args,
                    venue_out,
                ).0);
            }
            Ok(())
        },
        OutputToken::Gas(swap) => match swap.swap_type {
            SwapType::JupiterV6(params) => handle_complete_swap_direct_jup_v6(
                engine,
                accounts,
                route,
                swap_args,
                venue_out,
                Some((swap.limit_amount, params)),
                true,
            ),
            _ => Err(SwapLayerError::InvalidOutputToken),
        },
        OutputToken::Other { address, swap } => match swap.swap_type {
            SwapType::JupiterV6(params) => {
                if accounts.dst_mint != address {
                    return Err(SwapLayerError::InvalidDestinationMint);
                }
                handle_complete_swap_direct_jup_v6(
                    engine,
                    accounts,
                    route,
                    swap_args,
                    venue_out,
                    Some((swap.limit_amount, params)),
                    false,
                )
            },
            _ => Err(SwapLayerError::InvalidOutputToken),
        },
    }
}


/// Accounts of one fee-relayed swap completion: the submitter, the
/// recipient with their destination accounts, the fee collection account,
/// the fill being redeemed, and the transient swap authority with its
/// custody accounts.
#[derive(Clone, Copy, Debug, PartialEq, Eq, Structural)]
pub struct CompleteSwapRelay {
    /// Submitter; either the recipient or a relayer fronting gas.
    pub payer: u64,
    pub recipient: u64,
    /// Destination-asset account of the recipient; unused when the output
    /// is native currency.
    pub recipient_token: u64,
    /// Settlement-asset account that collects the relaying fee; must be
    /// the one the authority record designates.
    pub fee_recipient_token: u64,
    /// Identity of the prepared fill being redeemed.
    pub prepared_fill: u64,
    /// Transient swap authority derived from the fill's own identity.
    pub swap_authority: u64,
    /// Custody the venue draws the settlement asset from.
    pub src_swap_token: u64,
    /// Custody the venue fills with the destination asset.
    pub dst_swap_token: u64,
    /// The destination mint the swap must settle in.
    pub dst_mint: u64,
}

/// The route accounts the engine expects for a swap under these accounts.
pub open spec fn spec_expected_route_relay(accounts: CompleteSwapRelay) -> JupiterV6SharedAccountsRoute {
    JupiterV6SharedAccountsRoute {
        transfer_authority: accounts.swap_authority,
        src_custody_token: accounts.src_swap_token,
        dst_custody_token: accounts.dst_swap_token,
        src_mint: USDC_MINT,
        dst_mint: accounts.dst_mint,
    }
}

/// Transition of the swap-and-distribute tail of a fee-relayed
/// completion, after the relay terms were read from the message.
///
/// With the payer equal to the recipient the relay terms are suppressed:
/// the full fill amount is swapped and nothing else moves. Otherwise the
/// relaying fee is deducted from the fill before the swap and the gas
/// dropoff is fronted from the payer's native balance to the recipient.
/// The staged output token must be an asset-converting one; the swap runs
/// in override mode — input is the redeemable amount, the minimum output
/// is the staged limit, slippage is zero — and its realized output goes to
/// the recipient, while the fee goes to the designated fee collection
/// account.
pub open spec fn spec_handle_complete_swap_relay(
    s: EngineV,
    accounts: CompleteSwapRelay,
    route: JupiterV6SharedAccountsRoute,
    swap_args: SwapArgs,
    venue_out: u64,
    gas_dropoff: u64,
    relaying_fee: u64,
) -> (EngineV, Result<(), SwapLayerError>) {
    if s.consumed_fills.contains(accounts.prepared_fill) {
        (s, Err(SwapLayerError::FillAlreadyConsumed))
    } else if !s.fills.contains_key(accounts.prepared_fill) {
        (s, Err(SwapLayerError::FillNotFound))
    } else {
        let fill = s.fills[accounts.prepared_fill];
        if accounts.fee_recipient_token != s.custodian.fee_recipient_token {
            (s, Err(SwapLayerError::InvalidFeeRecipient))
        } else if !s.tokens.contains_key(accounts.fee_recipient_token) {
            (s, Err(SwapLayerError::AccountNotFound))
        } else if s.tokens[accounts.fee_recipient_token].mint != USDC_MINT {
            (s, Err(SwapLayerError::InvalidMint))
        } else if accounts.payer != accounts.recipient && relaying_fee > fill.amount {
            (s, Err(SwapLayerError::InvalidRelayerFee))
        } else {
            let self_redeem = accounts.payer == accounts.recipient;
            let in_amount = if self_redeem {
                fill.amount
            } else {
                (fill.amount - relaying_fee) as u64
            };
            let eff_dropoff: u64 = if self_redeem {
                0
            } else {
                gas_dropoff
            };
            let eff_fee: u64 = if self_redeem {
                0
            } else {
                relaying_fee
            };
            let swap_target = match fill.message.output_token {
                OutputToken::Usdc => Err(SwapLayerError::InvalidOutputToken),
                OutputToken::Gas(swap) => match swap.swap_type {
                    SwapType::JupiterV6(params) => Ok((true, swap.limit_amount, params)),
                    _ => Err(SwapLayerError::InvalidOutputToken),
                },
                OutputToken::Other { address, swap } => match swap.swap_type {
                    SwapType::JupiterV6(params) => {
                        if accounts.dst_mint != address {
                            Err(SwapLayerError::InvalidDestinationMint)
                        } else {
                            Ok((false, swap.limit_amount, params))
                        }
                    },
                    _ => Err(SwapLayerError::InvalidOutputToken),
                },
            };
            match swap_target {
                Err(e) => (s, Err(e)),
                Ok((is_native, limit_amount, params)) => {
                    match spec_prepare_swap_args(
                        route,
                        swap_args,
                        spec_expected_route_relay(accounts),
                        in_amount,
                        Some((limit_amount, params)),
                    ) {
                        Err(e) => (s, Err(e)),
                        Ok(executed) => {
                            if venue_out < spec_swap_min_out(
                                executed.quoted_out_amount,
                                executed.slippage_bps,
                            ) {
                                (s, Err(SwapLayerError::InvalidLimitAmount))
                            } else if eff_dropoff > 0 && !native_debit_ok(
                                s.native,
                                accounts.payer,
                                eff_dropoff,
                            ) {
                                (s, Err(SwapLayerError::InsufficientFunds))
                            } else if eff_dropoff > 0 && !native_credit_ok(
                                s.native,
                                accounts.recipient,
                                eff_dropoff,
                            ) {
                                (s, Err(SwapLayerError::U64Overflow))
                            } else {
                                let native1 = if eff_dropoff > 0 {
                                    native_credit(
                                        native_debit(s.native, accounts.payer, eff_dropoff),
                                        accounts.recipient,
                                        eff_dropoff,
                                    )
                                } else {
                                    s.native
                                };
                                if is_native {
                                    if !native_credit_ok(native1, accounts.recipient, venue_out) {
                                        (s, Err(SwapLayerError::U64Overflow))
                                    } else if eff_fee > 0 && !token_credit_ok(
                                        s.tokens,
                                        accounts.fee_recipient_token,
                                        eff_fee,
                                    ) {
                                        (s, Err(SwapLayerError::U64Overflow))
                                    } else {
                                        let s1 = spec_consume_prepared_fill(
                                            s,
                                            accounts.prepared_fill,
                                        ).0;
                                        let tokens1 = if eff_fee > 0 {
                                            token_credit(
                                                s.tokens,
                                                accounts.fee_recipient_token,
                                                eff_fee,
                                            )
                                        } else {
                                            s.tokens
                                        };
                                        (
                                            EngineV {
                                                native: native_credit(
                                                    native1,
                                                    accounts.recipient,
                                                    venue_out,
                                                ),
                                                tokens: tokens1,
                                                ..s1
                                            },
                                            Ok(()),
                                        )
                                    }
                                } else {
                                    if !s.tokens.contains_key(accounts.recipient_token) {
                                        (s, Err(SwapLayerError::AccountNotFound))
                                    } else if s.tokens[accounts.recipient_token].mint
                                        != accounts.dst_mint {
                                        (s, Err(SwapLayerError::InvalidMint))
                                    } else if s.tokens[accounts.recipient_token].owner
                                        != accounts.recipient {
                                        (s, Err(SwapLayerError::InvalidTokenOwner))
                                    } else if !token_credit_ok(
                                        s.tokens,
                                        accounts.recipient_token,
                                        venue_out,
                                    ) {
                                        (s, Err(SwapLayerError::U64Overflow))
                                    } else {
                                        let tokens1 = token_credit(
                                            s.tokens,
                                            accounts.recipient_token,
                                            venue_out,
                                        );
                                        if eff_fee > 0 && !token_credit_ok(
                                            tokens1,
                                            accounts.fee_recipient_token,
                                            eff_fee,
                                        ) {
                                            (s, Err(SwapLayerError::U64Overflow))
                                        } else {
                                            let s1 = spec_consume_prepared_fill(
                                                s,
                                                accounts.prepared_fill,
                                            ).0;
                                            let tokens2 = if eff_fee > 0 {
                                                token_credit(
                                                    tokens1,
                                                    accounts.fee_recipient_token,
                                                    eff_fee,
                                                )
                                            } else {
                                                tokens1
                                            };
                                            (
                                                EngineV { native: native1, tokens: tokens2, ..s1 },
                                                Ok(()),
                                            )
                                        }
                                    }
                                }
                            }
                        },
                    }
                },
            }
        }
    }
}

/// Transition of the fee-relayed swap completion operation: the message's
/// recipient must be the named recipient and its redeem mode must be
/// Relay; the relay terms are then read from the message, the dropoff
/// denormalized to native units, and the completion handled by
/// [`spec_handle_complete_swap_relay`].
pub open spec fn spec_complete_swap_relay(
    s: EngineV,
    accounts: CompleteSwapRelay,
    route: JupiterV6SharedAccountsRoute,
    swap_args: SwapArgs,
    venue_out: u64,
) -> (EngineV, Result<(), SwapLayerError>) {
    if s.consumed_fills.contains(accounts.prepared_fill) {
        (s, Err(SwapLayerError::FillAlreadyConsumed))
    } else if !s.fills.contains_key(accounts.prepared_fill) {
        (s, Err(SwapLayerError::FillNotFound))
    } else {
        let msg = s.fills[accounts.prepared_fill].message;
        if msg.recipient != accounts.recipient {
            (s, Err(SwapLayerError::InvalidRecipient))
        } else {
            match msg.redeem_mode {
                RedeemMode::Relay { gas_dropoff, relaying_fee } => {
                    spec_handle_complete_swap_relay(
                        s,
                        accounts,
                        route,
                        swap_args,
                        venue_out,
                        spec_denormalize_gas_dropoff(gas_dropoff) as u64,
                        relaying_fee,
                    )
                },
                _ => (s, Err(SwapLayerError::InvalidRedeemMode)),
            }
        }
    }
}

/// Self-redemption suppresses the relay terms in a swap completion: when
/// it succeeds with the payer equal to the recipient, the full fill
/// amount — with no fee deducted — is what the swap is validated against,
/// no fee is collected, and no native dropoff moves; the recipient
/// receives exactly the venue's realized output, regardless of the
/// encoded fee and dropoff values.
pub proof fn lemma_swap_relay_self_redemption_suppresses_fee(
    s: EngineV,
    accounts: CompleteSwapRelay,
    route: JupiterV6SharedAccountsRoute,
    swap_args: SwapArgs,
    venue_out: u64,
    gas_dropoff: u64,
    relaying_fee: u64,
)
    requires
        accounts.payer == accounts.recipient,
        spec_handle_complete_swap_relay(
            s,
            accounts,
            route,
            swap_args,
            venue_out,
            gas_dropoff,
            relaying_fee,
        ).1 is Ok,
    ensures
        ({
            let s1 = spec_handle_complete_swap_relay(
                s,
                accounts,
                route,
                swap_args,
                venue_out,
                gas_dropoff,
                relaying_fee,
            ).0;
            let fill = s.fills[accounts.prepared_fill];
            match fill.message.output_token {
                OutputToken::Gas(swap) => {
                    &&& (swap.swap_type matches SwapType::JupiterV6(params)
                        ==> spec_prepare_swap_args(
                        route,
                        swap_args,
                        spec_expected_route_relay(accounts),
                        fill.amount,
                        Some((swap.limit_amount, params)),
                    ) is Ok)
                    &&& s1.tokens == s.tokens
                    &&& s1.native == native_credit(s.native, accounts.recipient, venue_out)
                },
                OutputToken::Other { address, swap } => {
                    &&& (swap.swap_type matches SwapType::JupiterV6(params)
                        ==> spec_prepare_swap_args(
                        route,
                        swap_args,
                        spec_expected_route_relay(accounts),
                        fill.amount,
                        Some((swap.limit_amount, params)),
                    ) is Ok)
                    &&& s1.native == s.native
                    &&& s1.tokens == token_credit(s.tokens, accounts.recipient_token, venue_out)
                },
                _ => false,
            }
        }),
{
}


/// A relaying fee that exceeds the fill amount makes a fee-relayed swap
/// completion fail when the payer is not the recipient: the result is an
/// error and no balance or record changes at all.
pub proof fn lemma_swap_relay_fee_exceeding_fill_fails(
    s: EngineV,
    accounts: CompleteSwapRelay,
    route: JupiterV6SharedAccountsRoute,
    swap_args: SwapArgs,
    venue_out: u64,
    gas_dropoff: u64,
    relaying_fee: u64,
)
    requires
        accounts.payer != accounts.recipient,
        s.fills.contains_key(accounts.prepared_fill) ==> relaying_fee
            > s.fills[accounts.prepared_fill].amount,
    ensures
        spec_handle_complete_swap_relay(
            s,
            accounts,
            route,
            swap_args,
            venue_out,
            gas_dropoff,
            relaying_fee,
        ).1 is Err,
        spec_handle_complete_swap_relay(
            s,
            accounts,
            route,
            swap_args,
            venue_out,
            gas_dropoff,
            relaying_fee,
        ).0 == s,
{
}

/// Completes the swap-and-distribute tail of a fee-relayed completion;
/// see [`spec_handle_complete_swap_relay`]. `gas_dropoff` is already in
/// native base units; `venue_out` is the realized output the external
/// venue reported.
pub fn handle_complete_swap_relay(
    engine: &mut Engine,
    accounts: &CompleteSwapRelay,
    route: &JupiterV6SharedAccountsRoute,
    swap_args: SwapArgs,
    venue_out: u64,
    gas_dropoff: u64,
    relaying_fee: u64,
) -> (r: Result<(), SwapLayerError>)
    ensures
        final(engine)@ == spec_handle_complete_swap_relay(
            old(engine)@,
            *accounts,
            *route,
            swap_args,
            venue_out,
            gas_dropoff,
            relaying_fee,
        ).0,
        r == spec_handle_complete_swap_relay(
            old(engine)@,
            *accounts,
            *route,
            swap_args,
            venue_out,
            gas_dropoff,
            relaying_fee,
        ).1,
{
    let ghost s0 = engine@;
    if engine.consumed_fills.contains(&accounts.prepared_fill) {
        return Err(SwapLayerError::FillAlreadyConsumed);
    }
    let (fill_amount, output_token) = match engine.fills.get(&accounts.prepared_fill) {
        None => {
            return Err(SwapLayerError::FillNotFound);
        },
        Some(fill) => (fill.amount, fill.message.output_token),
    };
    if accounts.fee_recipient_token != engine.custodian.fee_recipient_token {
        return Err(SwapLayerError::InvalidFeeRecipient);
    }
    let fee_acct = match engine.tokens.get(&accounts.fee_recipient_token) {
        None => {
            return Err(SwapLayerError::AccountNotFound);
        },
        Some(acct) => *acct,
    };
    if fee_acct.mint != USDC_MINT {
        return Err(SwapLayerError::InvalidMint);
    }
    if accounts.payer != accounts.recipient && relaying_fee > fill_amount {
        return Err(SwapLayerError::InvalidRelayerFee);
    }
    let self_redeem = accounts.payer == accounts.recipient;
    let in_amount = if self_redeem {
        fill_amount
    } else {
        fill_amount - relaying_fee
    };
    let eff_dropoff: u64 = if self_redeem {
        0
    } else {
        gas_dropoff
    };
    let eff_fee: u64 = if self_redeem {
        0
    } else {
        relaying_fee
    };
    let (is_native, limit_amount, params) = match output_token {
        OutputToken::Usdc => {
            return Err(SwapLayerError::InvalidOutputToken);
        },
        OutputToken::Gas(swap) => match swap.swap_type {
            SwapType::JupiterV6(params) => (true, swap.limit_amount, params),
            _ => {
                return Err(SwapLayerError::InvalidOutputToken);
            },
        },
        OutputToken::Other { address, swap } => match swap.swap_type {
            SwapType::JupiterV6(params) => {
                if accounts.dst_mint != address {
                    return Err(SwapLayerError::InvalidDestinationMint);
                }
                (false, swap.limit_amount, params)
            },
            _ => {
                return Err(SwapLayerError::InvalidOutputToken);
            },
        },
    };
    let expected = JupiterV6SharedAccountsRoute {
        transfer_authority: accounts.swap_authority,
        src_custody_token: accounts.src_swap_token,
        dst_custody_token: accounts.dst_swap_token,
        src_mint: USDC_MINT,
        dst_mint: accounts.dst_mint,
    };
    let executed = match prepare_swap_args(
        route,
        swap_args,
        &expected,
        in_amount,
        Some((limit_amount, params)),
    ) {
        Err(e) => {
            return Err(e);
        },
        Ok(executed) => executed,
    };
    let min_out = swap_min_out(executed.quoted_out_amount, executed.slippage_bps);
    if venue_out < min_out {
        return Err(SwapLayerError::InvalidLimitAmount);
    }
    if eff_dropoff > 0 {
        let payer_native = engine.native_balance_of(accounts.payer);
        if payer_native < eff_dropoff {
            return Err(SwapLayerError::InsufficientFunds);
        }
        let recipient_native = engine.native_balance_of(accounts.recipient);
        if eff_dropoff > u64::MAX - recipient_native {
            return Err(SwapLayerError::U64Overflow);
        }
    }
    if is_native {
        let recipient_base = engine.native_balance_of(accounts.recipient) + eff_dropoff;
        if venue_out > u64::MAX - recipient_base {
            return Err(SwapLayerError::U64Overflow);
        }
        if eff_fee > 0 {
            if eff_fee > u64::MAX - fee_acct.amount {
                return Err(SwapLayerError::U64Overflow);
            }
        }
        let _ = engine.apply_consume_fill(accounts.prepared_fill);
        if eff_dropoff > 0 {
            engine.apply_native_debit(accounts.payer, eff_dropoff);
            engine.apply_native_credit(accounts.recipient, eff_dropoff);
        }
        engine.apply_native_credit(accounts.recipient, venue_out);
        if eff_fee > 0 {
            engine.apply_token_credit(accounts.fee_recipient_token, eff_fee);
        }
        proof {
            assert(engine@ =~= spec_handle_complete_swap_relay(
                s0,
                *accounts,
                *route,
                swap_args,
                venue_out,
                gas_dropoff,
                relaying_fee,
            ).0);
        }
        Ok(())
    } else {
        let recipient_acct = match engine.tokens.get(&accounts.recipient_token) {
            None => {
                return Err(SwapLayerError::AccountNotFound);
            },
            Some(acct) => *acct,
        };
        if recipient_acct.mint != accounts.dst_mint {
            return Err(SwapLayerError::InvalidMint);
        }
        if recipient_acct.owner != accounts.recipient {
            return Err(SwapLayerError::InvalidTokenOwner);
        }
        if venue_out > u64::MAX - recipient_acct.amount {
            return Err(SwapLayerError::U64Overflow);
        }
        if eff_fee > 0 {
            let fee_base = if accounts.fee_recipient_token == accounts.recipient_token {
                recipient_acct.amount + venue_out
            } else {
                fee_acct.amount
            };
            if eff_fee > u64::MAX - fee_base {
                return Err(SwapLayerError::U64Overflow);
            }
        }
        let _ = engine.apply_consume_fill(accounts.prepared_fill);
        if eff_dropoff > 0 {
            engine.apply_native_debit(accounts.payer, eff_dropoff);
            engine.apply_native_credit(accounts.recipient, eff_dropoff);
        }
        engine.apply_token_credit(accounts.recipient_token, venue_out);
        if eff_fee > 0 {
            engine.apply_token_credit(accounts.fee_recipient_token, eff_fee);
        }
        proof {
            assert(engine@ =~= spec_handle_complete_swap_relay(
                s0,
                *accounts,
                *route,
                swap_args,
                venue_out,
                gas_dropoff,
                relaying_fee,
            ).0);
        }
        Ok(())
    }
}

/// Completes a fee-relayed redemption that swaps into the staged output
/// token: reads the relay terms from the fill's message and hands off to
/// [`handle_complete_swap_relay`]. See [`spec_complete_swap_relay`].
pub fn complete_swap_relay(
    engine: &mut Engine,
    accounts: &CompleteSwapRelay,
    route: &JupiterV6SharedAccountsRoute,
    swap_args: SwapArgs,
    venue_out: u64,
) -> (r: Result<(), SwapLayerError>)
    ensures
        final(engine)@ == spec_complete_swap_relay(
            old(engine)@,
            *accounts,
            *route,
            swap_args,
            venue_out,
        ).0,
        r == spec_complete_swap_relay(old(engine)@, *accounts, *route, swap_args, venue_out).1,
{
    if engine.consumed_fills.contains(&accounts.prepared_fill) {
        return Err(SwapLayerError::FillAlreadyConsumed);
    }
    let (msg_recipient, relay_terms) = match engine.fills.get(&accounts.prepared_fill) {
        None => {
            return Err(SwapLayerError::FillNotFound);
        },
        Some(fill) => (
            fill.message.recipient,
            match &fill.message.redeem_mode {
                RedeemMode::Relay { gas_dropoff, relaying_fee } => Some(
                    (*gas_dropoff, *relaying_fee),
                ),
                _ => None,
            },
        ),
    };
    if msg_recipient != accounts.recipient {
        return Err(SwapLayerError::InvalidRecipient);
    }
    match relay_terms {
        Some((gas_dropoff, relaying_fee)) => handle_complete_swap_relay(
            engine,
            accounts,
            route,
            swap_args,
            venue_out,
            denormalize_gas_dropoff(gas_dropoff),
            relaying_fee,
        ),
        None => Err(SwapLayerError::InvalidRedeemMode),
    }
}


/// Accounts of one stage-outbound request: who pays for the record, who
/// the funds are drawn from — a signing sender, or a one-time program
/// transfer authority spending a delegation — the registered destination
/// peer, and where the record and a possible refund live.
#[derive(Clone, Copy, Debug, PartialEq, Eq)]
pub struct StageOutbound {
    /// Pays for the record's creation.
    pub payer: u64,
    /// Signing sender; absent when a program transfer authority is used,
    /// or when the funds come from the sender's native balance.
    pub sender: Option<u64>,
    /// Whether the one-time program transfer authority signs instead of
    /// the sender.
    pub has_program_transfer_authority: bool,
    /// Token account the funds are drawn from; absent when native
    /// currency is staged.
    pub sender_token: Option<u64>,
    /// The registered peer of the destination chain; also the authority
    /// over the escrowed funds.
    pub target_peer: Peer,
    /// Identity for the new staged outbound record; must be unused.
    pub staged_outbound: u64,
    /// Settlement-asset account a failed transfer would be refunded to.
    pub usdc_refund_token: u64,
    /// Mint of the staged funds: the settlement asset, or whichever mint
    /// is swapped into it.
    pub src_mint: u64,
}

/// The redeem instructions a staged outbound record keeps, with the
/// relaying fee fixed to the value computed at staging time.
pub open spec fn spec_staged_redeem_of(
    redeem_option: Option<RedeemOption>,
    fee: u64,
) -> StagedRedeem {
    match redeem_option {
        Option::Some(RedeemOption::Relay { gas_dropoff, max_relayer_fee }) => StagedRedeem::Relay {
            gas_dropoff: gas_dropoff,
            relaying_fee: fee,
        },
        Option::Some(RedeemOption::Payload(buf)) => StagedRedeem::Payload(buf),
        Option::None => StagedRedeem::Direct,
    }
}

/// Executable form of [`spec_staged_redeem_of`].
fn staged_redeem_of(redeem_option: Option<RedeemOption>, fee: u64) -> (r: StagedRedeem)
    ensures
        r == spec_staged_redeem_of(redeem_option, fee),
{
    match redeem_option {
        Option::Some(RedeemOption::Relay { gas_dropoff, max_relayer_fee: _ }) => {
            StagedRedeem::Relay { gas_dropoff: gas_dropoff, relaying_fee: fee }
        },
        Option::Some(RedeemOption::Payload(buf)) => StagedRedeem::Payload(buf),
        Option::None => StagedRedeem::Direct,
    }
}

/// The staged outbound record one successful stage-outbound request
/// creates.
pub open spec fn spec_staged_outbound_record(
    accounts: StageOutbound,
    args: StageOutboundArgs,
    output_token: OutputToken,
    fee: u64,
    transfer_amount: u64,
    sender: u64,
) -> StagedOutbound {
    StagedOutbound {
        info: StagedOutboundInfo {
            prepared_by: accounts.payer,
            sender: sender,
            target_chain: args.target_chain,
            recipient: args.recipient,
            usdc_refund_token: accounts.usdc_refund_token,
        },
        staged_redeem: spec_staged_redeem_of(args.redeem_option, fee),
        output_token: output_token,
        custody_amount: transfer_amount,
    }
}

/// Transition of one stage-outbound request: the source-side setup that
/// precedes the bridging leg.
///
/// The recipient may not be the null identity and the target chain must
/// be the registered peer's. For Relay redemption the relaying fee is
/// computed now, rejected if above the sender's declared maximum, and —
/// when the staged asset is the settlement asset itself — escrowed on top
/// of the amount. The funds move out of the sender's balance by their own
/// signature, by a one-time delegated authority bound to the exact
/// request, or from their native balance; the escrowed amount and the
/// redeem instructions are recorded in one immutable record.
pub open spec fn spec_stage_outbound(
    s: EngineV,
    accounts: StageOutbound,
    args: StageOutboundArgs,
) -> (EngineV, Result<(), SwapLayerError>) {
    if accounts.has_program_transfer_authority && accounts.sender_token is None {
        (s, Err(SwapLayerError::SenderTokenRequired))
    } else if args.target_chain != accounts.target_peer.chain {
        (s, Err(SwapLayerError::InvalidTargetChain))
    } else if args.recipient == NULL_ID {
        (s, Err(SwapLayerError::InvalidRecipient))
    } else if s.staged_outbound.contains_key(accounts.staged_outbound) {
        (s, Err(SwapLayerError::AccountAlreadyInUse))
    } else if !s.tokens.contains_key(accounts.usdc_refund_token) {
        (s, Err(SwapLayerError::AccountNotFound))
    } else if s.tokens[accounts.usdc_refund_token].mint != USDC_MINT {
        (s, Err(SwapLayerError::InvalidMint))
    } else if accounts.sender_token matches Some(st) && !s.tokens.contains_key(st) {
        (s, Err(SwapLayerError::AccountNotFound))
    } else if accounts.sender_token matches Some(st) && s.tokens[st].mint != accounts.src_mint {
        (s, Err(SwapLayerError::InvalidMint))
    } else {
        let output_token = match args.output_token {
            Option::Some(token) => token,
            Option::None => OutputToken::Usdc,
        };
        let fee_result = match args.redeem_option {
            Option::Some(RedeemOption::Relay { gas_dropoff, max_relayer_fee }) => {
                spec_calculate_relayer_fee(
                    accounts.target_peer.relay_params,
                    gas_dropoff,
                    output_token,
                )
            },
            _ => Ok(0u64),
        };
        match fee_result {
            Err(e) => (s, Err(e)),
            Ok(fee) => {
                if args.redeem_option matches Some(
                    RedeemOption::Relay { gas_dropoff, max_relayer_fee },
                ) && fee > max_relayer_fee {
                    (s, Err(SwapLayerError::ExceedsMaxRelayingFee))
                } else {
                    let needs_fee_escrow = (args.redeem_option matches Some(
                        RedeemOption::Relay { .. },
                    )) && accounts.src_mint == USDC_MINT;
                    if needs_fee_escrow && args.amount_in + fee > u64::MAX {
                        (s, Err(SwapLayerError::U64Overflow))
                    } else {
                        let transfer_amount: u64 = if needs_fee_escrow {
                            (args.amount_in + fee) as u64
                        } else {
                            args.amount_in
                        };
                        match accounts.sender_token {
                            Option::Some(st) => {
                                match (accounts.sender, accounts.has_program_transfer_authority) {
                                    (Option::Some(sender), false) => {
                                        if s.tokens[st].owner != sender {
                                            (s, Err(SwapLayerError::InvalidTokenOwner))
                                        } else if !token_debit_ok(s.tokens, st, transfer_amount) {
                                            (s, Err(SwapLayerError::InsufficientFunds))
                                        } else {
                                            (
                                                EngineV {
                                                    tokens: token_debit(
                                                        s.tokens,
                                                        st,
                                                        transfer_amount,
                                                    ),
                                                    staged_outbound: s.staged_outbound.insert(
                                                        accounts.staged_outbound,
                                                        spec_staged_outbound_record(
                                                            accounts,
                                                            args,
                                                            output_token,
                                                            fee,
                                                            transfer_amount,
                                                            sender,
                                                        ),
                                                    ),
                                                    ..s
                                                },
                                                Ok(()),
                                            )
                                        }
                                    },
                                    (Option::None, true) => {
                                        if !(s.delegations.contains_key(st)
                                            && stage_outbound_args_eq(s.delegations[st], args)) {
                                            (s, Err(SwapLayerError::DelegatedAuthorityMismatch))
                                        } else if !token_debit_ok(s.tokens, st, transfer_amount) {
                                            (s, Err(SwapLayerError::InsufficientFunds))
                                        } else {
                                            (
                                                EngineV {
                                                    tokens: token_debit(
                                                        s.tokens,
                                                        st,
                                                        transfer_amount,
                                                    ),
                                                    delegations: s.delegations.remove(st),
                                                    staged_outbound: s.staged_outbound.insert(
                                                        accounts.staged_outbound,
                                                        spec_staged_outbound_record(
                                                            accounts,
                                                            args,
                                                            output_token,
                                                            fee,
                                                            transfer_amount,
                                                            s.tokens[st].owner,
                                                        ),
                                                    ),
                                                    ..s
                                                },
                                                Ok(()),
                                            )
                                        }
                                    },
                                    _ => (
                                        s,
                                        Err(SwapLayerError::EitherSenderOrProgramTransferAuthority),
                                    ),
                                }
                            },
                            Option::None => {
                                match accounts.sender {
                                    Option::Some(sender) => {
                                        if !native_debit_ok(s.native, sender, transfer_amount) {
                                            (s, Err(SwapLayerError::InsufficientFunds))
                                        } else {
                                            (
                                                EngineV {
                                                    native: native_debit(
                                                        s.native,
                                                        sender,
                                                        transfer_amount,
                                                    ),
                                                    staged_outbound: s.staged_outbound.insert(
                                                        accounts.staged_outbound,
                                                        spec_staged_outbound_record(
                                                            accounts,
                                                            args,
                                                            output_token,
                                                            fee,
                                                            transfer_amount,
                                                            sender,
                                                        ),
                                                    ),
                                                    ..s
                                                },
                                                Ok(()),
                                            )
                                        }
                                    },
                                    Option::None => (s, Err(SwapLayerError::SenderRequired)),
                                }
                            },
                        }
                    }
                }
            },
        }
    }
}

impl Engine {
    /// Grants a one-time transfer authority over `sender_token`, bound to
    /// the exact request `args`. Spending it with any other request is
    /// refused, and it is gone after one use. Models the delegation a
    /// sender signs ahead of a stage-outbound request submitted on their
    /// behalf.
    pub fn approve_stage_outbound_delegation(&mut self, sender_token: u64, args: StageOutboundArgs)
        ensures
            final(self)@ == (EngineV {
                delegations: old(self)@.delegations.insert(sender_token, args),
                ..old(self)@
            }),
    {
        let ghost s0 = self@;
        self.delegations.insert(sender_token, args);
        proof {
            assert(self@ =~= (EngineV { delegations: s0.delegations.insert(sender_token, args), ..s0 }));
        }
    }
}

/// Stages an outbound transfer: validates the destination and redeem
/// configuration, moves the sender's funds into escrow, and records the
/// redemption instructions before the cross-chain leg begins. See
/// [`spec_stage_outbound`].
pub fn stage_outbound(engine: &mut Engine, accounts: &StageOutbound, args: StageOutboundArgs) -> (r:
    Result<(), SwapLayerError>)
    ensures
        final(engine)@ == spec_stage_outbound(old(engine)@, *accounts, args).0,
        r == spec_stage_outbound(old(engine)@, *accounts, args).1,
{
    let ghost s0 = engine@;
    let ghost args0 = args;
    if accounts.has_program_transfer_authority && accounts.sender_token.is_none() {
        return Err(SwapLayerError::SenderTokenRequired);
    }
    if args.target_chain != accounts.target_peer.chain {
        return Err(SwapLayerError::InvalidTargetChain);
    }
    if args.recipient == NULL_ID {
        return Err(SwapLayerError::InvalidRecipient);
    }
    if engine.staged_outbound.contains_key(&accounts.staged_outbound) {
        return Err(SwapLayerError::AccountAlreadyInUse);
    }
    let refund_acct = match engine.tokens.get(&accounts.usdc_refund_token) {
        None => {
            return Err(SwapLayerError::AccountNotFound);
        },
        Some(acct) => *acct,
    };
    if refund_acct.mint != USDC_MINT {
        return Err(SwapLayerError::InvalidMint);
    }
    let sender_token_acct: Option<TokenAccount> = match accounts.sender_token {
        Some(st) => match engine.tokens.get(&st) {
            None => {
                return Err(SwapLayerError::AccountNotFound);
            },
            Some(acct) => Some(*acct),
        },
        None => None,
    };
    match &sender_token_acct {
        Some(acct) => {
            if acct.mint != accounts.src_mint {
                return Err(SwapLayerError::InvalidMint);
            }
        },
        None => {},
    }
    let output_token = match &args.output_token {
        Some(token) => *token,
        None => OutputToken::Usdc,
    };
    let fee: u64 = match &args.redeem_option {
        Some(RedeemOption::Relay { gas_dropoff, max_relayer_fee }) => {
            let fee = match calculate_relayer_fee(
                &accounts.target_peer.relay_params,
                *gas_dropoff,
                &output_token,
            ) {
                Err(e) => {
                    return Err(e);
                },
                Ok(fee) => fee,
            };
            if fee > *max_relayer_fee {
                return Err(SwapLayerError::ExceedsMaxRelayingFee);
            }
            fee
        },
        _ => 0,
    };
    let is_relay = matches!(&args.redeem_option, Some(RedeemOption::Relay { .. }));
    let needs_fee_escrow = is_relay && accounts.src_mint == USDC_MINT;
    if needs_fee_escrow && args.amount_in > u64::MAX - fee {
        return Err(SwapLayerError::U64Overflow);
    }
    let transfer_amount: u64 = if needs_fee_escrow {
        args.amount_in + fee
    } else {
        args.amount_in
    };
    match accounts.sender_token {
        Some(st) => {
            let st_acct = match sender_token_acct {
                Some(acct) => acct,
                None => {
                    proof {
                        assert(false);
                    }
                    unreached()
                },
            };
            match (accounts.sender, accounts.has_program_transfer_authority) {
                (Some(sender), false) => {
                    if st_acct.owner != sender {
                        return Err(SwapLayerError::InvalidTokenOwner);
                    }
                    if st_acct.amount < transfer_amount {
                        return Err(SwapLayerError::InsufficientFunds);
                    }
                    let staged_redeem = staged_redeem_of(args.redeem_option, fee);
                    engine.apply_token_debit(st, transfer_amount);
                    engine.staged_outbound.insert(
                        accounts.staged_outbound,
                        StagedOutbound {
                            info: StagedOutboundInfo {
                                prepared_by: accounts.payer,
                                sender: sender,
                                target_chain: args.target_chain,
                                recipient: args.recipient,
                                usdc_refund_token: accounts.usdc_refund_token,
                            },
                            staged_redeem: staged_redeem,
                            output_token: output_token,
                            custody_amount: transfer_amount,
                        },
                    );
                    proof {
                        assert(engine@ =~= spec_stage_outbound(s0, *accounts, args0).0);
                    }
                    Ok(())
                },
                (None, true) => {
                    let delegation_matches = match engine.delegations.get(&st) {
                        None => false,
                        Some(stored) => stage_outbound_args_equal(stored, &args),
                    };
                    if !delegation_matches {
                        return Err(SwapLayerError::DelegatedAuthorityMismatch);
                    }
                    if st_acct.amount < transfer_amount {
                        return Err(SwapLayerError::InsufficientFunds);
                    }
                    let staged_redeem = staged_redeem_of(args.redeem_option, fee);
                    engine.apply_token_debit(st, transfer_amount);
                    let _ = engine.delegations.remove(&st);
                    engine.staged_outbound.insert(
                        accounts.staged_outbound,
                        StagedOutbound {
                            info: StagedOutboundInfo {
                                prepared_by: accounts.payer,
                                sender: st_acct.owner,
                                target_chain: args.target_chain,
                                recipient: args.recipient,
                                usdc_refund_token: accounts.usdc_refund_token,
                            },
                            staged_redeem: staged_redeem,
                            output_token: output_token,
                            custody_amount: transfer_amount,
                        },
                    );
                    proof {
                        assert(engine@ =~= spec_stage_outbound(s0, *accounts, args0).0);
                    }
                    Ok(())
                },
                _ => Err(SwapLayerError::EitherSenderOrProgramTransferAuthority),
            }
        },
        None => {
            match accounts.sender {
                Some(sender) => {
                    let sender_native = engine.native_balance_of(sender);
                    if sender_native < transfer_amount {
                        return Err(SwapLayerError::InsufficientFunds);
                    }
                    let staged_redeem = staged_redeem_of(args.redeem_option, fee);
                    engine.apply_native_debit(sender, transfer_amount);
                    engine.staged_outbound.insert(
                        accounts.staged_outbound,
                        StagedOutbound {
                            info: StagedOutboundInfo {
                                prepared_by: accounts.payer,
                                sender: sender,
                                target_chain: args.target_chain,
                                recipient: args.recipient,
                                usdc_refund_token: accounts.usdc_refund_token,
                            },
                            staged_redeem: staged_redeem,
                            output_token: output_token,
                            custody_amount: transfer_amount,
                        },
                    );
                    proof {
                        assert(engine@ =~= spec_stage_outbound(s0, *accounts, args0).0);
                    }
                    Ok(())
                },
                None => Err(SwapLayerError::SenderRequired),
            }
        },
    }
}

} // verus!
