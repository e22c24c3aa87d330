//! Fee and gas-dropoff calculator.
//!
//! Pure arithmetic turning a destination chain's relay parameters and a
//! normalized gas-dropoff request into a relaying fee in the settlement
//! asset. All scaling is overflow-checked: a result that does not fit in 64
//! bits is a calculation failure, never a silently wrapped value.

use crate::error::SwapLayerError;
use crate::types::OutputToken;
use crate::types::RelayParams;
use vstd::prelude::*;

verus! {

/// Base units of one whole native token.
pub const NATIVE_UNITS_PER_TOKEN: u64 = 1_000_000_000;

/// The normalized gas-dropoff unit is one millionth of a native token, so
/// one normalized unit is this many native base units.
pub const GAS_DROPOFF_DENORM_FACTOR: u64 = 1_000;

/// Destination gas units charged for a plain settlement-asset delivery.
pub const GAS_UNITS_BASE: u64 = 100_000;

/// Additional destination gas units charged when the delivery includes an
/// on-ledger swap.
pub const GAS_UNITS_SWAP_OVERHEAD: u64 = 250_000;

/// Basis points in one whole.
pub const MAX_BPS: u64 = 10_000;

/// Gas units the relayer will spend delivering the given output token.
pub open spec fn spec_gas_units(output_token: OutputToken) -> u64 {
    match output_token {
        OutputToken::Usdc => GAS_UNITS_BASE,
        OutputToken::Gas(_) => (GAS_UNITS_BASE + GAS_UNITS_SWAP_OVERHEAD) as u64,
        OutputToken::Other { .. } => (GAS_UNITS_BASE + GAS_UNITS_SWAP_OVERHEAD) as u64,
    }
}

/// A normalized gas-dropoff request, as native base units.
pub open spec fn spec_denormalize_gas_dropoff(gas_dropoff: u32) -> int {
    gas_dropoff * GAS_DROPOFF_DENORM_FACTOR
}

/// The relaying fee owed for delivering `output_token` with the given
/// dropoff under the given parameters:
///
///   base_fee + gas cost with margin + settlement value of the dropoff
///
/// where the gas cost is `gas_units * gas_price` raised by
/// `gas_price_margin_bps`, and the dropoff value is priced with
/// `native_token_price`. Relaying may be disabled outright; a dropoff above
/// the chain's maximum is rejected; any scaling beyond the 64-bit range is
/// a calculation failure.
pub open spec fn spec_calculate_relayer_fee(
    params: RelayParams,
    gas_dropoff: u32,
    output_token: OutputToken,
) -> Result<u64, SwapLayerError> {
    if params.base_fee == u64::MAX {
        Err(SwapLayerError::RelayingDisabled)
    } else if gas_dropoff > params.max_gas_dropoff {
        Err(SwapLayerError::InvalidGasDropoff)
    } else {
        let gas_cost = spec_gas_units(output_token) * params.gas_price;
        if gas_cost > u64::MAX {
            Err(SwapLayerError::GasConversionOverflow)
        } else {
            let margined_gas_cost = gas_cost + (gas_cost * params.gas_price_margin_bps) / (
            MAX_BPS as int);
            let dropoff_cost = (spec_denormalize_gas_dropoff(gas_dropoff)
                * params.native_token_price) / (NATIVE_UNITS_PER_TOKEN as int);
            let total = params.base_fee + margined_gas_cost + dropoff_cost;
            if total > u64::MAX {
                Err(SwapLayerError::GasConversionOverflow)
            } else {
                Ok(total as u64)
            }
        }
    }
}

/// Product bound used by the overflow-checked scaling below.
proof fn lemma_mul_le(a: int, b: int, bound_a: int, bound_b: int)
    requires
        0 <= a <= bound_a,
        0 <= b <= bound_b,
    ensures
        a * b <= bound_a * bound_b,
{
    assert(a * b <= bound_a * bound_b) by (nonlinear_arith)
        requires
            0 <= a <= bound_a,
            0 <= b <= bound_b,
    ;
}

/// Turns a normalized gas-dropoff request into native base units.
pub fn denormalize_gas_dropoff(gas_dropoff: u32) -> (r: u64)
    ensures
        r == spec_denormalize_gas_dropoff(gas_dropoff),
{
    (gas_dropoff as u64) * GAS_DROPOFF_DENORM_FACTOR
}

/// Destination gas units the relayer is quoted for the given output token.
pub fn gas_units(output_token: &OutputToken) -> (r: u64)
    ensures
        r == spec_gas_units(*output_token),
{
    match output_token {
        OutputToken::Usdc => GAS_UNITS_BASE,
        OutputToken::Gas(_) => GAS_UNITS_BASE + GAS_UNITS_SWAP_OVERHEAD,
        OutputToken::Other { .. } => GAS_UNITS_BASE + GAS_UNITS_SWAP_OVERHEAD,
    }
}

/// Computes the relaying fee for one delivery; see
/// [`spec_calculate_relayer_fee`] for the exact statement.
pub fn calculate_relayer_fee(
    params: &RelayParams,
    gas_dropoff: u32,
    output_token: &OutputToken,
) -> (r: Result<u64, SwapLayerError>)
    ensures
        r == spec_calculate_relayer_fee(*params, gas_dropoff, *output_token),
{
    if params.base_fee == u64::MAX {
        return Err(SwapLayerError::RelayingDisabled);
    }
    if gas_dropoff > params.max_gas_dropoff {
        return Err(SwapLayerError::InvalidGasDropoff);
    }
    let units: u64 = gas_units(output_token);
    proof {
        lemma_mul_le(units as int, params.gas_price as int, 350_000, u64::MAX as int);
    }
    let gas_cost_wide: u128 = (units as u128) * (params.gas_price as u128);
    if gas_cost_wide > u64::MAX as u128 {
        return Err(SwapLayerError::GasConversionOverflow);
    }
    let gas_cost: u64 = gas_cost_wide as u64;
    proof {
        lemma_mul_le(
            gas_cost as int,
            params.gas_price_margin_bps as int,
            u64::MAX as int,
            u32::MAX as int,
        );
    }
    let margined_gas_cost: u128 = (gas_cost as u128) + ((gas_cost as u128) * (
    params.gas_price_margin_bps as u128)) / (MAX_BPS as u128);
    proof {
        lemma_mul_le(
            spec_denormalize_gas_dropoff(gas_dropoff),
            params.native_token_price as int,
            u64::MAX as int,
            u64::MAX as int,
        );
    }
    let dropoff_cost: u128 = ((denormalize_gas_dropoff(gas_dropoff) as u128) * (
    params.native_token_price as u128)) / (NATIVE_UNITS_PER_TOKEN as u128);
    let total: u128 = (params.base_fee as u128) + margined_gas_cost + dropoff_cost;
    if total > u64::MAX as u128 {
        return Err(SwapLayerError::GasConversionOverflow);
    }
    Ok(total as u64)
}

} // verus!
