//! Settlement engine for a cross-chain swap protocol.
//!
//! A verified "fill" of the settlement asset arrives from a source chain
//! together with encoded redemption instructions. The engine consumes the
//! fill exactly once, branches on the redeem mode (direct, fee-relayed, or
//! payload-parked), optionally runs an on-ledger swap through an adapter
//! with engine-pinned limits, and distributes the proceeds to a recipient,
//! an optional relaying-fee recipient, and a gas-dropoff target. Funds that
//! cannot be delivered immediately are parked in deterministically addressed
//! escrow records with explicit release protocols.
//!
//! The host ledger (token accounts and native balances) is modeled as an
//! explicit keyed store; every operation is atomic: it either completes with
//! the stated effect or fails with the stated error and no effect at all.

pub mod adapter;
pub mod admin;
pub mod engine;
pub mod error;
pub mod fees;
pub mod types;

pub use adapter::swap_jupiter_v6_shared_accounts_route_passthrough;
pub use adapter::SwapJupiterV6SharedAccountsRoutePassthrough;
pub use adapter::SwapJupiterV6SharedAccountsRoutePassthroughArgs;
pub use admin::submit_ownership_transfer_request;
pub use admin::update_fee_recipient;
pub use admin::update_owner_assistant;
pub use admin::SubmitOwnershipTransferRequest;
pub use admin::UpdateFeeRecipient;
pub use admin::UpdateOwnerAssistant;
pub use engine::complete_swap_direct;
pub use engine::complete_swap_relay;
pub use engine::complete_transfer_payload;
pub use engine::complete_transfer_relay;
pub use engine::get_swap_message_payload;
pub use engine::handle_complete_swap_direct_jup_v6;
pub use engine::handle_complete_swap_relay;
pub use engine::handle_complete_transfer_relay;
pub use engine::release_inbound;
pub use engine::stage_outbound;
pub use engine::try_compute_staged_transfer_size;
pub use engine::CompleteSwapDirect;
pub use engine::CompleteSwapRelay;
pub use engine::CompleteTransferPayload;
pub use engine::CompleteTransferRelay;
pub use engine::Engine;
pub use engine::ReleaseInbound;
pub use engine::StageOutbound;
pub use error::SwapLayerError;
pub use fees::calculate_relayer_fee;
pub use fees::denormalize_gas_dropoff;
pub use types::StageOutboundArgs;
