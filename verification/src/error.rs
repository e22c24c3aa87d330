//! Error taxonomy of the settlement engine.
//!
//! Every error is fatal for the operation that raises it: a failed operation
//! leaves all balances and records exactly as they were.

use vstd::prelude::*;

verus! {

/// Everything that can go wrong while staging, completing, or releasing a
/// transfer. Input-validation errors are caught before any fund movement;
/// arithmetic errors are never silently clamped; state errors (such as a
/// fill that was already consumed) signal replay and are never treated as
/// success.
#[derive(Clone, Copy, Debug, PartialEq, Eq, Structural)]
pub enum SwapLayerError {
    DummyError,
    AssistantZeroPubkey,
    FeeRecipientZeroPubkey,
    FeeUpdaterZeroPubkey,
    InvalidRedeemMode,
    InvalidOutputToken,
    InvalidRelayerFee,
    InvalidSwapMessage,
    InvalidRecipient,
    InvalidFeeUpdater,
    ChainNotAllowed,
    InvalidPeer,
    InvalidGasDropoff,
    RelayingDisabled,
    InvalidExecutionParams,
    UnsupportedExecutionParams,
    GasConversionOverflow,
    GasDropoffCalculationFailed,
    ExceedsMaxRelayingFee,
    InvalidPreparedOrder,
    InvalidFeeRecipient,
    InvalidBaseFee,
    InvalidGasPrice,
    InvalidGasTokenPrice,
    InvalidUpdateThreshold,
    InvalidNativeTokenPrice,
    InvalidMargin,
    EvmGasCalculationFailed,
    SwapPastDeadline,
    InvalidLimitAmount,
    InvalidSwapType,
    InvalidJupiterV6AuthorityId,
    SameMint,
    InvalidDestinationMint,
    JupiterV6DexProgramMismatch,
    NotJupiterV6DirectRoute,
    NoTransferOwnershipRequest,
    NotPendingOwner,
    InvalidNewOwner,
    AlreadyOwner,
    OwnerOnly,
    OwnerOrAssistantOnly,
    U64Overflow,
    SenderTokenRequired,
    SenderRequired,
    EitherSenderOrProgramTransferAuthority,
    InvalidTargetChain,
    InvalidSwapInAmount,
    InvalidSwapAuthority,
    InvalidSourceSwapToken,
    InvalidDestinationSwapToken,
    InvalidSourceMint,
    PayloadTooLarge,
    FillNotFound,
    FillAlreadyConsumed,
    AccountAlreadyInUse,
    AccountNotFound,
    InvalidMint,
    InvalidTokenOwner,
    InsufficientFunds,
    DelegatedAuthorityMismatch,
}

} // verus!
