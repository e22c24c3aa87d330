use swap_layer::engine::Engine;
use swap_layer::engine::{CompleteTransferPayload, CompleteTransferRelay, ReleaseInbound};
use swap_layer::engine::{complete_transfer_payload, complete_transfer_relay, release_inbound};
use swap_layer::engine::{MAX_STAGED_ACCOUNT_SIZE, STAGED_INBOUND_BASE_SIZE, STAGED_INBOUND_DEPOSIT};
use swap_layer::types::{
    Custodian, OutputSwap, OutputToken, PreparedFill, RedeemMode, SwapMessage, SwapType,
    TokenAccount, USDC_MINT,
};
use swap_layer::SwapLayerError;

const OWNER: u64 = 1000;
const ASSISTANT: u64 = 1001;
const FEE_TOKEN: u64 = 20;
const FEE_COLLECTOR: u64 = 300;
const RECIPIENT: u64 = 100;
const RECIPIENT_TOKEN: u64 = 10;
const RELAYER: u64 = 200;
const FILL: u64 = 500;

fn custodian() -> Custodian {
    Custodian {
        owner: OWNER,
        owner_assistant: ASSISTANT,
        pending_owner: 0,
        fee_recipient_token: FEE_TOKEN,
    }
}

fn engine_with_accounts() -> Engine {
    let mut engine = Engine::new(custodian());
    engine.tokens.insert(
        RECIPIENT_TOKEN,
        TokenAccount { mint: USDC_MINT, owner: RECIPIENT, amount: 0 },
    );
    engine.tokens.insert(
        FEE_TOKEN,
        TokenAccount { mint: USDC_MINT, owner: FEE_COLLECTOR, amount: 0 },
    );
    engine
}

fn usdc_relay_fill(amount: u64, gas_dropoff: u32, relaying_fee: u64) -> PreparedFill {
    PreparedFill {
        amount,
        source_chain: 2,
        message: SwapMessage {
            recipient: RECIPIENT,
            redeem_mode: RedeemMode::Relay { gas_dropoff, relaying_fee },
            output_token: OutputToken::Usdc,
        },
    }
}

fn relay_accounts(payer: u64) -> CompleteTransferRelay {
    CompleteTransferRelay {
        payer,
        recipient: RECIPIENT,
        recipient_token_account: RECIPIENT_TOKEN,
        fee_recipient_token: FEE_TOKEN,
        prepared_fill: FILL,
    }
}

fn payload_fill(amount: u64, buf: Vec<u8>) -> PreparedFill {
    PreparedFill {
        amount,
        source_chain: 2,
        message: SwapMessage {
            recipient: RECIPIENT,
            redeem_mode: RedeemMode::Payload { sender: 77, buf },
            output_token: OutputToken::Usdc,
        },
    }
}

fn token_amount(engine: &Engine, id: u64) -> u64 {
    engine.tokens.get(&id).map(|a| a.amount).unwrap_or(0)
}

fn native_amount(engine: &Engine, id: u64) -> u64 {
    engine.native.get(&id).copied().unwrap_or(0)
}

#[test]
fn fill_consumption_succeeds_at_most_once() {
    let mut engine = engine_with_accounts();
    engine.fills.insert(FILL, usdc_relay_fill(1_000_000, 0, 0));
    assert_eq!(engine.consume_prepared_fill(FILL), Ok(1_000_000));
    assert_eq!(
        engine.consume_prepared_fill(FILL),
        Err(SwapLayerError::FillAlreadyConsumed)
    );
    assert_eq!(
        engine.consume_prepared_fill(FILL),
        Err(SwapLayerError::FillAlreadyConsumed)
    );
}

#[test]
fn consuming_unknown_fill_fails() {
    let mut engine = engine_with_accounts();
    assert_eq!(engine.consume_prepared_fill(999), Err(SwapLayerError::FillNotFound));
}

#[test]
fn relay_self_redemption_suppresses_fee_and_dropoff() {
    let mut engine = engine_with_accounts();
    engine.fills.insert(FILL, usdc_relay_fill(1_000_000, 10_000, 400_000));
    engine.native.insert(RECIPIENT, 50_000_000);
    let accounts = relay_accounts(RECIPIENT);
    assert_eq!(complete_transfer_relay(&mut engine, &accounts), Ok(()));
    assert_eq!(token_amount(&engine, RECIPIENT_TOKEN), 1_000_000);
    assert_eq!(token_amount(&engine, FEE_TOKEN), 0);
    assert_eq!(native_amount(&engine, RECIPIENT), 50_000_000);
}

#[test]
fn relay_scenario_fee_and_dropoff_paid() {
    // Fill of 1,000,000 with a 0.01-native dropoff (10,000 normalized
    // units) and a 5,000 relaying fee, submitted by a relayer.
    let mut engine = engine_with_accounts();
    engine.fills.insert(FILL, usdc_relay_fill(1_000_000, 10_000, 5_000));
    engine.native.insert(RELAYER, 50_000_000);
    let accounts = relay_accounts(RELAYER);
    assert_eq!(complete_transfer_relay(&mut engine, &accounts), Ok(()));
    assert_eq!(token_amount(&engine, RECIPIENT_TOKEN), 995_000);
    assert_eq!(token_amount(&engine, FEE_TOKEN), 5_000);
    assert_eq!(native_amount(&engine, RECIPIENT), 10_000_000);
    assert_eq!(native_amount(&engine, RELAYER), 40_000_000);
}

#[test]
fn relay_fee_exceeding_fill_fails_without_transfer() {
    let mut engine = engine_with_accounts();
    engine.fills.insert(FILL, usdc_relay_fill(1_000_000, 0, 2_000_000));
    engine.native.insert(RELAYER, 50_000_000);
    let accounts = relay_accounts(RELAYER);
    assert_eq!(
        complete_transfer_relay(&mut engine, &accounts),
        Err(SwapLayerError::InvalidRelayerFee)
    );
    assert_eq!(token_amount(&engine, RECIPIENT_TOKEN), 0);
    assert_eq!(token_amount(&engine, FEE_TOKEN), 0);
    assert_eq!(native_amount(&engine, RELAYER), 50_000_000);
    assert!(engine.fills.contains_key(&FILL));
    assert!(!engine.consumed_fills.contains(&FILL));
    assert_eq!(complete_transfer_relay(&mut engine, &relay_accounts(RECIPIENT)), Ok(()));
    assert_eq!(token_amount(&engine, RECIPIENT_TOKEN), 1_000_000);
}

#[test]
fn relay_without_dropoff_moves_no_native() {
    let mut engine = engine_with_accounts();
    engine.fills.insert(FILL, usdc_relay_fill(700, 0, 200));
    let accounts = relay_accounts(RELAYER);
    assert_eq!(complete_transfer_relay(&mut engine, &accounts), Ok(()));
    assert_eq!(token_amount(&engine, RECIPIENT_TOKEN), 500);
    assert_eq!(token_amount(&engine, FEE_TOKEN), 200);
    assert_eq!(native_amount(&engine, RECIPIENT), 0);
}

#[test]
fn relay_rejects_wrong_recipient() {
    let mut engine = engine_with_accounts();
    engine.fills.insert(FILL, usdc_relay_fill(1_000, 0, 0));
    let mut accounts = relay_accounts(RELAYER);
    accounts.recipient = 999;
    assert_eq!(
        complete_transfer_relay(&mut engine, &accounts),
        Err(SwapLayerError::InvalidRecipient)
    );
}

#[test]
fn relay_rejects_wrong_redeem_mode() {
    let mut engine = engine_with_accounts();
    engine.fills.insert(
        FILL,
        PreparedFill {
            amount: 1_000,
            source_chain: 2,
            message: SwapMessage {
                recipient: RECIPIENT,
                redeem_mode: RedeemMode::Direct,
                output_token: OutputToken::Usdc,
            },
        },
    );
    assert_eq!(
        complete_transfer_relay(&mut engine, &relay_accounts(RELAYER)),
        Err(SwapLayerError::InvalidRedeemMode)
    );
}

#[test]
fn relay_rejects_wrong_output_token() {
    let mut engine = engine_with_accounts();
    engine.fills.insert(
        FILL,
        PreparedFill {
            amount: 1_000,
            source_chain: 2,
            message: SwapMessage {
                recipient: RECIPIENT,
                redeem_mode: RedeemMode::Relay { gas_dropoff: 0, relaying_fee: 0 },
                output_token: OutputToken::Gas(OutputSwap {
                    deadline: 0,
                    limit_amount: 1,
                    swap_type: SwapType::Unsupported,
                }),
            },
        },
    );
    assert_eq!(
        complete_transfer_relay(&mut engine, &relay_accounts(RELAYER)),
        Err(SwapLayerError::InvalidOutputToken)
    );
}

#[test]
fn relay_rejects_missing_fill_and_foreign_fee_account() {
    let mut engine = engine_with_accounts();
    assert_eq!(
        complete_transfer_relay(&mut engine, &relay_accounts(RELAYER)),
        Err(SwapLayerError::FillNotFound)
    );
    engine.fills.insert(FILL, usdc_relay_fill(1_000, 0, 0));
    let mut accounts = relay_accounts(RELAYER);
    accounts.fee_recipient_token = 21;
    assert_eq!(
        complete_transfer_relay(&mut engine, &accounts),
        Err(SwapLayerError::InvalidFeeRecipient)
    );
}

#[test]
fn relay_rejects_foreign_token_accounts() {
    let mut engine = engine_with_accounts();
    engine.fills.insert(FILL, usdc_relay_fill(1_000, 0, 0));
    engine.tokens.insert(11, TokenAccount { mint: 5, owner: RECIPIENT, amount: 0 });
    engine.tokens.insert(12, TokenAccount { mint: USDC_MINT, owner: 888, amount: 0 });
    let mut accounts = relay_accounts(RELAYER);
    accounts.recipient_token_account = 999;
    assert_eq!(
        complete_transfer_relay(&mut engine, &accounts),
        Err(SwapLayerError::AccountNotFound)
    );
    accounts.recipient_token_account = 11;
    assert_eq!(
        complete_transfer_relay(&mut engine, &accounts),
        Err(SwapLayerError::InvalidMint)
    );
    accounts.recipient_token_account = 12;
    assert_eq!(
        complete_transfer_relay(&mut engine, &accounts),
        Err(SwapLayerError::InvalidTokenOwner)
    );
}

#[test]
fn relay_rejects_underfunded_dropoff_payer() {
    let mut engine = engine_with_accounts();
    engine.fills.insert(FILL, usdc_relay_fill(1_000_000, 10_000, 5_000));
    engine.native.insert(RELAYER, 9_999_999);
    assert_eq!(
        complete_transfer_relay(&mut engine, &relay_accounts(RELAYER)),
        Err(SwapLayerError::InsufficientFunds)
    );
    assert_eq!(token_amount(&engine, RECIPIENT_TOKEN), 0);
}

#[test]
fn relay_rejects_recipient_balance_overflow() {
    let mut engine = engine_with_accounts();
    engine.fills.insert(FILL, usdc_relay_fill(2, 0, 0));
    engine.tokens.insert(
        RECIPIENT_TOKEN,
        TokenAccount { mint: USDC_MINT, owner: RECIPIENT, amount: u64::MAX - 1 },
    );
    assert_eq!(
        complete_transfer_relay(&mut engine, &relay_accounts(RECIPIENT)),
        Err(SwapLayerError::U64Overflow)
    );
}

#[test]
fn payload_staging_is_idempotent() {
    // Scenario: Payload mode invoked twice with the identical fill leaves
    // exactly one staged record, identical after both calls.
    let mut engine = engine_with_accounts();
    engine.fills.insert(FILL, payload_fill(1_000_000, vec![1, 2, 3]));
    engine.native.insert(RELAYER, 5_000_000);
    let accounts = CompleteTransferPayload { payer: RELAYER, prepared_fill: FILL };
    assert_eq!(complete_transfer_payload(&mut engine, &accounts), Ok(()));
    assert_eq!(engine.staged_inbound.len(), 1);
    let first = engine.staged_inbound.get(&FILL).cloned().unwrap();
    assert_eq!(first.custody_amount, 1_000_000);
    assert_eq!(first.recipient, RECIPIENT);
    assert_eq!(first.sender, 77);
    assert_eq!(first.staged_by, RELAYER);
    assert_eq!(first.recipient_payload, vec![1, 2, 3]);
    let native_after_first = native_amount(&engine, RELAYER);
    assert_eq!(native_after_first, 5_000_000 - STAGED_INBOUND_DEPOSIT);
    assert_eq!(complete_transfer_payload(&mut engine, &accounts), Ok(()));
    assert_eq!(engine.staged_inbound.len(), 1);
    let second = engine.staged_inbound.get(&FILL).cloned().unwrap();
    assert_eq!(first, second);
    assert_eq!(native_amount(&engine, RELAYER), native_after_first);
}

#[test]
fn payload_rejects_wrong_shapes() {
    let mut engine = engine_with_accounts();
    engine.fills.insert(FILL, usdc_relay_fill(1_000, 0, 0));
    let accounts = CompleteTransferPayload { payer: RELAYER, prepared_fill: FILL };
    assert_eq!(
        complete_transfer_payload(&mut engine, &accounts),
        Err(SwapLayerError::InvalidRedeemMode)
    );
    let mut gas_fill = payload_fill(1_000, vec![]);
    gas_fill.message.output_token = OutputToken::Gas(OutputSwap {
        deadline: 0,
        limit_amount: 1,
        swap_type: SwapType::Unsupported,
    });
    engine.fills.insert(FILL, gas_fill);
    assert_eq!(
        complete_transfer_payload(&mut engine, &accounts),
        Err(SwapLayerError::InvalidOutputToken)
    );
}

#[test]
fn payload_rejects_oversized_payload() {
    let mut engine = engine_with_accounts();
    let too_large = (MAX_STAGED_ACCOUNT_SIZE - STAGED_INBOUND_BASE_SIZE + 1) as usize;
    engine.fills.insert(FILL, payload_fill(1_000, vec![0u8; too_large]));
    engine.native.insert(RELAYER, 5_000_000);
    let accounts = CompleteTransferPayload { payer: RELAYER, prepared_fill: FILL };
    assert_eq!(
        complete_transfer_payload(&mut engine, &accounts),
        Err(SwapLayerError::PayloadTooLarge)
    );
    assert!(engine.staged_inbound.is_empty());
}

#[test]
fn payload_rejects_underfunded_depositor() {
    let mut engine = engine_with_accounts();
    engine.fills.insert(FILL, payload_fill(1_000, vec![9]));
    engine.native.insert(RELAYER, STAGED_INBOUND_DEPOSIT - 1);
    let accounts = CompleteTransferPayload { payer: RELAYER, prepared_fill: FILL };
    assert_eq!(
        complete_transfer_payload(&mut engine, &accounts),
        Err(SwapLayerError::InsufficientFunds)
    );
}

#[test]
fn payload_empty_payload_is_staged() {
    let mut engine = engine_with_accounts();
    engine.fills.insert(FILL, payload_fill(42, vec![]));
    engine.native.insert(RELAYER, STAGED_INBOUND_DEPOSIT);
    let accounts = CompleteTransferPayload { payer: RELAYER, prepared_fill: FILL };
    assert_eq!(complete_transfer_payload(&mut engine, &accounts), Ok(()));
    let record = engine.staged_inbound.get(&FILL).unwrap();
    assert_eq!(record.recipient_payload, Vec::<u8>::new());
    assert_eq!(record.custody_amount, 42);
}

#[test]
fn release_pays_destination_and_beneficiary() {
    let mut engine = engine_with_accounts();
    engine.fills.insert(FILL, payload_fill(1_000_000, vec![4, 5]));
    engine.native.insert(RELAYER, 5_000_000);
    let stage = CompleteTransferPayload { payer: RELAYER, prepared_fill: FILL };
    assert_eq!(complete_transfer_payload(&mut engine, &stage), Ok(()));
    engine.tokens.insert(30, TokenAccount { mint: USDC_MINT, owner: 555, amount: 7 });
    let release = ReleaseInbound {
        recipient: RECIPIENT,
        beneficiary: 900,
        dst_token: 30,
        staged_inbound: FILL,
    };
    assert_eq!(release_inbound(&mut engine, &release), Ok(()));
    assert_eq!(token_amount(&engine, 30), 1_000_007);
    assert_eq!(native_amount(&engine, 900), STAGED_INBOUND_DEPOSIT);
    assert!(engine.staged_inbound.is_empty());
    assert_eq!(
        release_inbound(&mut engine, &release),
        Err(SwapLayerError::AccountNotFound)
    );
}

#[test]
fn release_requires_recorded_recipient() {
    let mut engine = engine_with_accounts();
    engine.fills.insert(FILL, payload_fill(1_000, vec![]));
    engine.native.insert(RELAYER, STAGED_INBOUND_DEPOSIT);
    let stage = CompleteTransferPayload { payer: RELAYER, prepared_fill: FILL };
    assert_eq!(complete_transfer_payload(&mut engine, &stage), Ok(()));
    engine.tokens.insert(30, TokenAccount { mint: USDC_MINT, owner: 555, amount: 0 });
    let release = ReleaseInbound {
        recipient: RELAYER,
        beneficiary: 900,
        dst_token: 30,
        staged_inbound: FILL,
    };
    assert_eq!(
        release_inbound(&mut engine, &release),
        Err(SwapLayerError::InvalidRecipient)
    );
    assert!(engine.staged_inbound.contains_key(&FILL));
}

#[test]
fn release_requires_settlement_asset_destination() {
    let mut engine = engine_with_accounts();
    engine.fills.insert(FILL, payload_fill(1_000, vec![]));
    engine.native.insert(RELAYER, STAGED_INBOUND_DEPOSIT);
    let stage = CompleteTransferPayload { payer: RELAYER, prepared_fill: FILL };
    assert_eq!(complete_transfer_payload(&mut engine, &stage), Ok(()));
    engine.tokens.insert(31, TokenAccount { mint: 9, owner: 555, amount: 0 });
    let release = ReleaseInbound {
        recipient: RECIPIENT,
        beneficiary: 900,
        dst_token: 31,
        staged_inbound: FILL,
    };
    assert_eq!(release_inbound(&mut engine, &release), Err(SwapLayerError::InvalidMint));
}
