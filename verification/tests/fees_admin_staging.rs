use swap_layer::engine::Engine;
use swap_layer::engine::{get_swap_message_payload, stage_outbound, try_compute_staged_transfer_size};
use swap_layer::engine::{StageOutbound, STAGED_INBOUND_BASE_SIZE};
use swap_layer::admin::{
    submit_ownership_transfer_request, update_fee_recipient, update_owner_assistant,
    SubmitOwnershipTransferRequest, UpdateFeeRecipient, UpdateOwnerAssistant,
};
use swap_layer::fees::{calculate_relayer_fee, denormalize_gas_dropoff};
use swap_layer::types::{
    Custodian, OutputSwap, OutputToken, Peer, RedeemMode, RedeemOption, RelayParams,
    StageOutboundArgs, StagedRedeem, SwapMessage, SwapType, TokenAccount, USDC_MINT,
};
use swap_layer::SwapLayerError;

const OWNER: u64 = 1000;
const ASSISTANT: u64 = 1001;
const FEE_TOKEN: u64 = 20;
const SENDER: u64 = 400;
const SENDER_TOKEN: u64 = 40;
const REFUND_TOKEN: u64 = 41;
const STAGED_ID: u64 = 800;
const CHAIN: u16 = 23;

fn relay_params() -> RelayParams {
    RelayParams {
        base_fee: 100,
        gas_price: 2,
        gas_price_margin_bps: 5_000,
        native_token_price: 500_000,
        max_gas_dropoff: 1_000_000,
        update_threshold_bps: 1_000,
    }
}

fn peer() -> Peer {
    Peer { chain: CHAIN, relay_params: relay_params() }
}

fn custodian() -> Custodian {
    Custodian {
        owner: OWNER,
        owner_assistant: ASSISTANT,
        pending_owner: 0,
        fee_recipient_token: FEE_TOKEN,
    }
}

fn staging_engine() -> Engine {
    let mut engine = Engine::new(custodian());
    engine.tokens.insert(
        SENDER_TOKEN,
        TokenAccount { mint: USDC_MINT, owner: SENDER, amount: 10_000_000 },
    );
    engine.tokens.insert(
        REFUND_TOKEN,
        TokenAccount { mint: USDC_MINT, owner: SENDER, amount: 0 },
    );
    engine
}

fn direct_args(amount_in: u64) -> StageOutboundArgs {
    StageOutboundArgs {
        amount_in,
        target_chain: CHAIN,
        recipient: 100,
        redeem_option: None,
        output_token: None,
    }
}

fn signed_accounts() -> StageOutbound {
    StageOutbound {
        payer: 999,
        sender: Some(SENDER),
        has_program_transfer_authority: false,
        sender_token: Some(SENDER_TOKEN),
        target_peer: peer(),
        staged_outbound: STAGED_ID,
        usdc_refund_token: REFUND_TOKEN,
        src_mint: USDC_MINT,
    }
}

#[test]
fn denormalize_scales_to_native_base_units() {
    assert_eq!(denormalize_gas_dropoff(0), 0);
    assert_eq!(denormalize_gas_dropoff(10_000), 10_000_000);
    assert_eq!(denormalize_gas_dropoff(u32::MAX), 4_294_967_295_000);
}

#[test]
fn relayer_fee_exact_values() {
    let params = relay_params();
    // Settlement-asset delivery: 100,000 gas units at price 2 is 200,000;
    // a 50% margin makes 300,000; a 10,000-unit dropoff is worth 5,000.
    assert_eq!(
        calculate_relayer_fee(&params, 10_000, &OutputToken::Usdc),
        Ok(305_100)
    );
    assert_eq!(calculate_relayer_fee(&params, 0, &OutputToken::Usdc), Ok(300_100));
    // A swap adds 250,000 gas units.
    let gas_token = OutputToken::Gas(OutputSwap {
        deadline: 0,
        limit_amount: 1,
        swap_type: SwapType::Unsupported,
    });
    assert_eq!(calculate_relayer_fee(&params, 10_000, &gas_token), Ok(1_055_100));
}

#[test]
fn relayer_fee_rejects_disabled_and_oversized_requests() {
    let mut params = relay_params();
    params.base_fee = u64::MAX;
    assert_eq!(
        calculate_relayer_fee(&params, 0, &OutputToken::Usdc),
        Err(SwapLayerError::RelayingDisabled)
    );
    let params = relay_params();
    assert_eq!(
        calculate_relayer_fee(&params, 1_000_001, &OutputToken::Usdc),
        Err(SwapLayerError::InvalidGasDropoff)
    );
}

#[test]
fn relayer_fee_rejects_overflowing_scales() {
    let mut params = relay_params();
    params.gas_price = u64::MAX;
    assert_eq!(
        calculate_relayer_fee(&params, 0, &OutputToken::Usdc),
        Err(SwapLayerError::GasConversionOverflow)
    );
    let mut params = relay_params();
    params.base_fee = u64::MAX - 1;
    assert_eq!(
        calculate_relayer_fee(&params, 0, &OutputToken::Usdc),
        Err(SwapLayerError::GasConversionOverflow)
    );
}

#[test]
fn staged_transfer_size_and_payload_access() {
    let msg = SwapMessage {
        recipient: 100,
        redeem_mode: RedeemMode::Payload { sender: 1, buf: vec![7; 10] },
        output_token: OutputToken::Usdc,
    };
    assert_eq!(
        try_compute_staged_transfer_size(&msg),
        Ok(STAGED_INBOUND_BASE_SIZE + 10)
    );
    assert_eq!(get_swap_message_payload(&msg), Ok(&vec![7; 10]));
    let direct = SwapMessage {
        recipient: 100,
        redeem_mode: RedeemMode::Direct,
        output_token: OutputToken::Usdc,
    };
    assert_eq!(
        try_compute_staged_transfer_size(&direct),
        Err(SwapLayerError::InvalidRedeemMode)
    );
    assert_eq!(
        get_swap_message_payload(&direct),
        Err(SwapLayerError::InvalidRedeemMode)
    );
}

#[test]
fn stage_outbound_by_signature_escrows_funds() {
    let mut engine = staging_engine();
    let r = stage_outbound(&mut engine, &signed_accounts(), direct_args(1_000_000));
    assert_eq!(r, Ok(()));
    assert_eq!(engine.tokens.get(&SENDER_TOKEN).unwrap().amount, 9_000_000);
    let record = engine.staged_outbound.get(&STAGED_ID).unwrap();
    assert_eq!(record.custody_amount, 1_000_000);
    assert_eq!(record.staged_redeem, StagedRedeem::Direct);
    assert_eq!(record.output_token, OutputToken::Usdc);
    assert_eq!(record.info.sender, SENDER);
    assert_eq!(record.info.prepared_by, 999);
    assert_eq!(record.info.recipient, 100);
    assert_eq!(record.info.target_chain, CHAIN);
}

#[test]
fn stage_outbound_relay_escrows_fee_on_top() {
    let mut engine = staging_engine();
    let mut args = direct_args(1_000_000);
    args.redeem_option = Some(RedeemOption::Relay { gas_dropoff: 10_000, max_relayer_fee: 400_000 });
    assert_eq!(stage_outbound(&mut engine, &signed_accounts(), args), Ok(()));
    let record = engine.staged_outbound.get(&STAGED_ID).unwrap();
    assert_eq!(record.custody_amount, 1_305_100);
    assert_eq!(
        record.staged_redeem,
        StagedRedeem::Relay { gas_dropoff: 10_000, relaying_fee: 305_100 }
    );
    assert_eq!(engine.tokens.get(&SENDER_TOKEN).unwrap().amount, 10_000_000 - 1_305_100);
}

#[test]
fn stage_outbound_foreign_mint_defers_fee() {
    let mut engine = staging_engine();
    engine.tokens.insert(SENDER_TOKEN, TokenAccount { mint: 5, owner: SENDER, amount: 10_000_000 });
    let mut accounts = signed_accounts();
    accounts.src_mint = 5;
    let mut args = direct_args(1_000_000);
    args.redeem_option = Some(RedeemOption::Relay { gas_dropoff: 0, max_relayer_fee: 400_000 });
    assert_eq!(stage_outbound(&mut engine, &accounts, args), Ok(()));
    let record = engine.staged_outbound.get(&STAGED_ID).unwrap();
    assert_eq!(record.custody_amount, 1_000_000);
    assert_eq!(
        record.staged_redeem,
        StagedRedeem::Relay { gas_dropoff: 0, relaying_fee: 300_100 }
    );
}

#[test]
fn stage_outbound_rejects_fee_above_declared_maximum() {
    let mut engine = staging_engine();
    let mut args = direct_args(1_000_000);
    args.redeem_option = Some(RedeemOption::Relay { gas_dropoff: 0, max_relayer_fee: 1_000 });
    assert_eq!(
        stage_outbound(&mut engine, &signed_accounts(), args),
        Err(SwapLayerError::ExceedsMaxRelayingFee)
    );
    assert_eq!(engine.tokens.get(&SENDER_TOKEN).unwrap().amount, 10_000_000);
    assert!(engine.staged_outbound.is_empty());
}

#[test]
fn stage_outbound_delegation_is_single_use_and_exact() {
    let mut engine = staging_engine();
    let args = direct_args(1_000_000);
    let mut accounts = signed_accounts();
    accounts.sender = None;
    accounts.has_program_transfer_authority = true;
    engine.approve_stage_outbound_delegation(SENDER_TOKEN, direct_args(1_000_000));
    // An altered request may not spend the delegation.
    assert_eq!(
        stage_outbound(&mut engine, &accounts, direct_args(1_000_001)),
        Err(SwapLayerError::DelegatedAuthorityMismatch)
    );
    // The exact request does, once.
    assert_eq!(stage_outbound(&mut engine, &accounts, args), Ok(()));
    assert_eq!(engine.staged_outbound.get(&STAGED_ID).unwrap().info.sender, SENDER);
    let mut again = signed_accounts();
    again.sender = None;
    again.has_program_transfer_authority = true;
    again.staged_outbound = STAGED_ID + 1;
    assert_eq!(
        stage_outbound(&mut engine, &again, direct_args(1_000_000)),
        Err(SwapLayerError::DelegatedAuthorityMismatch)
    );
}

#[test]
fn stage_outbound_native_path_debits_sender() {
    let mut engine = staging_engine();
    engine.native.insert(SENDER, 3_000_000);
    let mut accounts = signed_accounts();
    accounts.sender_token = None;
    assert_eq!(stage_outbound(&mut engine, &accounts, direct_args(2_000_000)), Ok(()));
    assert_eq!(engine.native.get(&SENDER).copied().unwrap(), 1_000_000);
    assert_eq!(engine.staged_outbound.get(&STAGED_ID).unwrap().custody_amount, 2_000_000);
}

#[test]
fn stage_outbound_validation_errors() {
    let mut engine = staging_engine();
    let mut accounts = signed_accounts();
    accounts.sender_token = None;
    accounts.has_program_transfer_authority = true;
    assert_eq!(
        stage_outbound(&mut engine, &accounts, direct_args(1)),
        Err(SwapLayerError::SenderTokenRequired)
    );
    let mut args = direct_args(1);
    args.target_chain = 9;
    assert_eq!(
        stage_outbound(&mut engine, &signed_accounts(), args),
        Err(SwapLayerError::InvalidTargetChain)
    );
    let mut args = direct_args(1);
    args.recipient = 0;
    assert_eq!(
        stage_outbound(&mut engine, &signed_accounts(), args),
        Err(SwapLayerError::InvalidRecipient)
    );
    let mut accounts = signed_accounts();
    accounts.sender = None;
    accounts.sender_token = None;
    assert_eq!(
        stage_outbound(&mut engine, &accounts, direct_args(1)),
        Err(SwapLayerError::SenderRequired)
    );
    let mut accounts = signed_accounts();
    accounts.has_program_transfer_authority = true;
    assert_eq!(
        stage_outbound(&mut engine, &accounts, direct_args(1)),
        Err(SwapLayerError::EitherSenderOrProgramTransferAuthority)
    );
    let mut accounts = signed_accounts();
    accounts.src_mint = 5;
    assert_eq!(
        stage_outbound(&mut engine, &accounts, direct_args(1)),
        Err(SwapLayerError::InvalidMint)
    );
    let mut accounts = signed_accounts();
    accounts.sender = Some(888);
    assert_eq!(
        stage_outbound(&mut engine, &accounts, direct_args(1)),
        Err(SwapLayerError::InvalidTokenOwner)
    );
    assert_eq!(
        stage_outbound(&mut engine, &signed_accounts(), direct_args(10_000_001)),
        Err(SwapLayerError::InsufficientFunds)
    );
    assert_eq!(stage_outbound(&mut engine, &signed_accounts(), direct_args(1)), Ok(()));
    assert_eq!(
        stage_outbound(&mut engine, &signed_accounts(), direct_args(1)),
        Err(SwapLayerError::AccountAlreadyInUse)
    );
}

#[test]
fn ownership_transfer_request_records_pending_owner() {
    let mut engine = Engine::new(custodian());
    let accounts = SubmitOwnershipTransferRequest { admin: OWNER, new_owner: 5 };
    assert_eq!(submit_ownership_transfer_request(&mut engine, &accounts), Ok(()));
    assert_eq!(engine.custodian.pending_owner, 5);
    assert_eq!(engine.custodian.owner, OWNER);
    assert_eq!(
        submit_ownership_transfer_request(
            &mut engine,
            &SubmitOwnershipTransferRequest { admin: 42, new_owner: 5 },
        ),
        Err(SwapLayerError::OwnerOnly)
    );
    assert_eq!(
        submit_ownership_transfer_request(
            &mut engine,
            &SubmitOwnershipTransferRequest { admin: OWNER, new_owner: 0 },
        ),
        Err(SwapLayerError::InvalidNewOwner)
    );
    assert_eq!(
        submit_ownership_transfer_request(
            &mut engine,
            &SubmitOwnershipTransferRequest { admin: OWNER, new_owner: OWNER },
        ),
        Err(SwapLayerError::AlreadyOwner)
    );
}

#[test]
fn owner_assistant_rotation() {
    let mut engine = Engine::new(custodian());
    assert_eq!(
        update_owner_assistant(
            &mut engine,
            &UpdateOwnerAssistant { admin: OWNER, new_owner_assistant: 7 },
        ),
        Ok(())
    );
    assert_eq!(engine.custodian.owner_assistant, 7);
    assert_eq!(
        update_owner_assistant(
            &mut engine,
            &UpdateOwnerAssistant { admin: 7, new_owner_assistant: 8 },
        ),
        Err(SwapLayerError::OwnerOnly)
    );
    assert_eq!(
        update_owner_assistant(
            &mut engine,
            &UpdateOwnerAssistant { admin: OWNER, new_owner_assistant: 0 },
        ),
        Err(SwapLayerError::AssistantZeroPubkey)
    );
}

#[test]
fn fee_recipient_rotation() {
    let mut engine = Engine::new(custodian());
    engine.tokens.insert(50, TokenAccount { mint: USDC_MINT, owner: 6, amount: 0 });
    engine.tokens.insert(51, TokenAccount { mint: 9, owner: 6, amount: 0 });
    engine.tokens.insert(52, TokenAccount { mint: USDC_MINT, owner: 77, amount: 0 });
    let good = UpdateFeeRecipient { admin: ASSISTANT, new_fee_recipient: 6, new_fee_recipient_token: 50 };
    assert_eq!(update_fee_recipient(&mut engine, &good), Ok(()));
    assert_eq!(engine.custodian.fee_recipient_token, 50);
    assert_eq!(
        update_fee_recipient(
            &mut engine,
            &UpdateFeeRecipient { admin: 42, new_fee_recipient: 6, new_fee_recipient_token: 50 },
        ),
        Err(SwapLayerError::OwnerOrAssistantOnly)
    );
    assert_eq!(
        update_fee_recipient(
            &mut engine,
            &UpdateFeeRecipient { admin: OWNER, new_fee_recipient: 0, new_fee_recipient_token: 50 },
        ),
        Err(SwapLayerError::FeeRecipientZeroPubkey)
    );
    assert_eq!(
        update_fee_recipient(
            &mut engine,
            &UpdateFeeRecipient { admin: OWNER, new_fee_recipient: 6, new_fee_recipient_token: 53 },
        ),
        Err(SwapLayerError::AccountNotFound)
    );
    assert_eq!(
        update_fee_recipient(
            &mut engine,
            &UpdateFeeRecipient { admin: OWNER, new_fee_recipient: 6, new_fee_recipient_token: 51 },
        ),
        Err(SwapLayerError::InvalidMint)
    );
    assert_eq!(
        update_fee_recipient(
            &mut engine,
            &UpdateFeeRecipient { admin: OWNER, new_fee_recipient: 6, new_fee_recipient_token: 52 },
        ),
        Err(SwapLayerError::InvalidTokenOwner)
    );
}
