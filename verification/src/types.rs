//! Data model of the settlement engine.
//!
//! Identities (wallets, token accounts, mints, chains' peers) are modeled as
//! opaque 64-bit ids; the id `0` is the null identity, which is never a valid
//! recipient or authority. The decoded swap message, the relay parameters,
//! and the staged escrow records are plain data; the redeem mode and the
//! output token are closed tagged unions that are matched exhaustively.

use vstd::prelude::*;

verus! {

/// The null identity. No recipient, owner, or authority may be `0`.
pub const NULL_ID: u64 = 0;

/// Id of the settlement-asset mint (the 6-decimal stable asset every fill
/// arrives in).
pub const USDC_MINT: u64 = 1;

/// Venue routing parameters pinned at staging time. When `dex_program_id`
/// is set, the route submitted at completion must consist of exactly one
/// hop targeting that venue.
#[derive(Clone, Copy, Debug, PartialEq, Eq)]
pub struct JupiterV6SwapParameters {
    pub dex_program_id: Option<u64>,
}

/// How a quoted swap is to be executed. Unknown or legacy encodings are
/// carried as `Unsupported` and rejected explicitly, never defaulted.
#[derive(Clone, Copy, Debug, PartialEq, Eq)]
pub enum SwapType {
    JupiterV6(JupiterV6SwapParameters),
    Unsupported,
}

/// Swap constraints fixed when the transfer was staged on the source side:
/// the minimum acceptable output and the route constraints.
#[derive(Clone, Copy, Debug, PartialEq, Eq)]
pub struct OutputSwap {
    pub deadline: u32,
    pub limit_amount: u64,
    pub swap_type: SwapType,
}

/// What the recipient is to receive on the destination side. Determines
/// whether a swap is required and in which asset settlement happens.
#[derive(Clone, Copy, Debug, PartialEq, Eq)]
pub enum OutputToken {
    /// Settlement asset as-is; no swap.
    Usdc,
    /// Destination native currency, bought with the fill via a swap.
    Gas(OutputSwap),
    /// An arbitrary mint, bought with the fill via a swap.
    Other { address: u64, swap: OutputSwap },
}

/// The redeem strategy encoded in the swap message.
#[derive(Clone, Debug, PartialEq, Eq)]
pub enum RedeemMode {
    /// No fee; the caller must be the recipient for a same-asset payout.
    Direct,
    /// A third party may front gas and collect a fee. `gas_dropoff` is in
    /// the normalized chain-agnostic unit; `relaying_fee` in settlement
    /// base units.
    Relay { gas_dropoff: u32, relaying_fee: u64 },
    /// Opaque payload for a programmatic recipient; funds are parked.
    Payload { sender: u64, buf: Vec<u8> },
}

/// Decoded view of the redeemer message attached to a fill. Derived and
/// ephemeral: never persisted on its own.
#[derive(Clone, Debug, PartialEq, Eq)]
pub struct SwapMessage {
    pub recipient: u64,
    pub redeem_mode: RedeemMode,
    pub output_token: OutputToken,
}

/// An inbound, bridge-verified credit of tokens awaiting redemption.
/// Consumption is one-time and irreversible: it retires the fill and
/// leaves a permanent consumption marker in its place, so a second attempt
/// can never succeed.
#[derive(Clone, Debug, PartialEq, Eq)]
pub struct PreparedFill {
    pub amount: u64,
    pub source_chain: u16,
    pub message: SwapMessage,
}

/// Per-destination-chain relaying parameters. A `base_fee` of `u64::MAX`
/// disables relaying to that chain.
#[derive(Clone, Copy, Debug, PartialEq, Eq)]
pub struct RelayParams {
    /// Flat fee in settlement base units.
    pub base_fee: u64,
    /// Settlement base units charged per unit of destination gas.
    pub gas_price: u64,
    /// Margin applied to the gas cost, in basis points.
    pub gas_price_margin_bps: u32,
    /// Settlement base units per whole native token.
    pub native_token_price: u64,
    /// Largest gas dropoff this chain serves, in the normalized unit.
    pub max_gas_dropoff: u32,
    /// Admin guard: largest relative gas-price move accepted without a full
    /// parameter update, in basis points.
    pub update_threshold_bps: u32,
}

/// A registered destination peer: the destination chain and the relay
/// parameters quoted for it. The peer is also the authority over outbound
/// escrow funds.
#[derive(Clone, Copy, Debug, PartialEq, Eq)]
pub struct Peer {
    pub chain: u16,
    pub relay_params: RelayParams,
}

/// A token account of the modeled ledger.
#[derive(Clone, Copy, Debug, PartialEq, Eq, Structural)]
pub struct TokenAccount {
    pub mint: u64,
    pub owner: u64,
    pub amount: u64,
}

/// Protocol authority record: who administers the engine and which token
/// account collects relaying fees. A `pending_owner` of `NULL_ID` means no
/// ownership transfer is in flight.
#[derive(Clone, Copy, Debug, PartialEq, Eq, Structural)]
pub struct Custodian {
    pub owner: u64,
    pub owner_assistant: u64,
    pub pending_owner: u64,
    pub fee_recipient_token: u64,
}

/// Redeem configuration a sender may attach when staging an outbound
/// transfer.
#[derive(Clone, Debug, PartialEq, Eq)]
pub enum RedeemOption {
    /// Pay a relayer on the destination side; rejected if the computed fee
    /// exceeds `max_relayer_fee`.
    Relay { gas_dropoff: u32, max_relayer_fee: u64 },
    /// Park the funds for a programmatic recipient with this payload.
    Payload(Vec<u8>),
}

/// Arguments of one stage-outbound request. A one-time delegated transfer
/// authority is bound to the exact contents of this request and may not be
/// spent with any other.
#[derive(Clone, Debug, PartialEq, Eq)]
pub struct StageOutboundArgs {
    pub amount_in: u64,
    /// The chain the transfer is destined for; must match the registered
    /// peer.
    pub target_chain: u16,
    /// The recipient on the destination chain; never the null identity.
    pub recipient: u64,
    pub redeem_option: Option<RedeemOption>,
    /// The output token the recipient is to receive; `None` means the
    /// settlement asset as-is.
    pub output_token: Option<OutputToken>,
}

/// The redeem instructions recorded in a staged outbound transfer, with the
/// relaying fee already fixed.
#[derive(Clone, Debug, PartialEq, Eq)]
pub enum StagedRedeem {
    Direct,
    Relay { gas_dropoff: u32, relaying_fee: u64 },
    Payload(Vec<u8>),
}

/// Immutable description of who staged an outbound transfer and where it is
/// to go.
#[derive(Clone, Copy, Debug, PartialEq, Eq, Structural)]
pub struct StagedOutboundInfo {
    pub prepared_by: u64,
    pub sender: u64,
    pub target_chain: u16,
    pub recipient: u64,
    pub usdc_refund_token: u64,
}

/// Escrow record created on the source side before the bridging leg.
/// Created once, immutable afterwards; `custody_amount` is the balance the
/// record's deterministic authority holds for it.
#[derive(Clone, Debug, PartialEq, Eq)]
pub struct StagedOutbound {
    pub info: StagedOutboundInfo,
    pub staged_redeem: StagedRedeem,
    pub output_token: OutputToken,
    pub custody_amount: u64,
}

/// Escrow record created on the destination side for a Payload-mode fill.
/// Keyed by the fill's own identity; created at most once per fill; drained
/// and destroyed by an explicit, recipient-authenticated release.
#[derive(Clone, Debug, PartialEq, Eq)]
pub struct StagedInbound {
    pub staged_by: u64,
    pub source_chain: u16,
    pub sender: u64,
    pub recipient: u64,
    pub is_native: bool,
    pub recipient_payload: Vec<u8>,
    /// Settlement-asset balance held in the record's custody.
    pub custody_amount: u64,
    /// Native holding deposit paid at staging, returned at release.
    pub deposit: u64,
}

/// Spec-level equality of payload bytes.
pub open spec fn bytes_eq(a: Seq<u8>, b: Seq<u8>) -> bool {
    a == b
}

/// Spec-level structural equality of two output tokens.
pub open spec fn output_token_eq(a: OutputToken, b: OutputToken) -> bool {
    a == b
}

/// Spec-level equality of two optional redeem configurations, comparing
/// payloads by contents.
pub open spec fn redeem_option_eq(a: Option<RedeemOption>, b: Option<RedeemOption>) -> bool {
    match (a, b) {
        (Option::None, Option::None) => true,
        (
            Option::Some(RedeemOption::Relay { gas_dropoff: ga, max_relayer_fee: ma }),
            Option::Some(RedeemOption::Relay { gas_dropoff: gb, max_relayer_fee: mb }),
        ) => ga == gb && ma == mb,
        (
            Option::Some(RedeemOption::Payload(pa)),
            Option::Some(RedeemOption::Payload(pb)),
        ) => pa@ == pb@,
        _ => false,
    }
}

/// Spec-level equality of two stage-outbound requests: every field, with
/// payloads compared by contents. A one-time delegated transfer authority
/// is spent only on a request equal to the one it was bound to.
pub open spec fn stage_outbound_args_eq(a: StageOutboundArgs, b: StageOutboundArgs) -> bool {
    &&& a.amount_in == b.amount_in
    &&& a.target_chain == b.target_chain
    &&& a.recipient == b.recipient
    &&& redeem_option_eq(a.redeem_option, b.redeem_option)
    &&& a.output_token == b.output_token
}

/// Executable equality of payload bytes, proved against the views.
pub fn bytes_equal(a: &Vec<u8>, b: &Vec<u8>) -> (r: bool)
    ensures
        r == bytes_eq(a@, b@),
{
    if a.len() != b.len() {
        proof {
            assert(a@.len() != b@.len());
        }
        return false;
    }
    let n: usize = a.len();
    let mut i: usize = 0;
    while i < n
        invariant
            n == a@.len(),
            n == b@.len(),
            0 <= i <= n,
            forall|j: int| 0 <= j < i ==> a@[j] == b@[j],
        decreases n - i,
    {
        if a[i] != b[i] {
            return false;
        }
        i += 1;
    }
    proof {
        assert(a@ =~= b@);
    }
    true
}

/// Executable structural equality of two output tokens.
pub fn output_tokens_equal(a: &OutputToken, b: &OutputToken) -> (r: bool)
    ensures
        r == output_token_eq(*a, *b),
{
    match (a, b) {
        (OutputToken::Usdc, OutputToken::Usdc) => true,
        (OutputToken::Gas(sa), OutputToken::Gas(sb)) => output_swaps_equal(sa, sb),
        (
            OutputToken::Other { address: aa, swap: sa },
            OutputToken::Other { address: ab, swap: sb },
        ) => *aa == *ab && output_swaps_equal(sa, sb),
        _ => false,
    }
}

/// Executable structural equality of two output-swap descriptions.
pub fn output_swaps_equal(a: &OutputSwap, b: &OutputSwap) -> (r: bool)
    ensures
        r == (*a == *b),
{
    a.deadline == b.deadline && a.limit_amount == b.limit_amount && (match (
        &a.swap_type,
        &b.swap_type,
    ) {
        (SwapType::JupiterV6(pa), SwapType::JupiterV6(pb)) => match (
            &pa.dex_program_id,
            &pb.dex_program_id,
        ) {
            (Some(da), Some(db)) => *da == *db,
            (None, None) => true,
            _ => false,
        },
        (SwapType::Unsupported, SwapType::Unsupported) => true,
        _ => false,
    })
}


/// Executable form of [`stage_outbound_args_eq`].
pub fn stage_outbound_args_equal(a: &StageOutboundArgs, b: &StageOutboundArgs) -> (r: bool)
    ensures
        r == stage_outbound_args_eq(*a, *b),
{
    if a.amount_in != b.amount_in || a.target_chain != b.target_chain || a.recipient
        != b.recipient {
        return false;
    }
    let redeem_matches = match (&a.redeem_option, &b.redeem_option) {
        (Option::None, Option::None) => true,
        (
            Option::Some(RedeemOption::Relay { gas_dropoff: ga, max_relayer_fee: ma }),
            Option::Some(RedeemOption::Relay { gas_dropoff: gb, max_relayer_fee: mb }),
        ) => *ga == *gb && *ma == *mb,
        (
            Option::Some(RedeemOption::Payload(pa)),
            Option::Some(RedeemOption::Payload(pb)),
        ) => bytes_equal(pa, pb),
        _ => false,
    };
    if !redeem_matches {
        return false;
    }
    match (&a.output_token, &b.output_token) {
        (Option::None, Option::None) => true,
        (Option::Some(ta), Option::Some(tb)) => output_tokens_equal(ta, tb),
        _ => false,
    }
}

} // verus!
