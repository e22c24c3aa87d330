//! Swap execution adapter.
//!
//! The external venue is consumed as a capability: quote in, tokens out,
//! subject to a limit and route constraints. This module holds the verified
//! half of that boundary: given the route accounts and instruction
//! arguments a caller declared, it checks every binding the engine expects
//! (transfer authority, custody accounts, assets) and produces the
//! arguments that are actually executed. In every asset-converting case the
//! engine overrides the caller's amounts: input is the consumed fill
//! amount, the minimum output is the limit fixed at staging time, and
//! slippage is zero. Any mismatch fails closed, before any asset movement.

use crate::error::SwapLayerError;
use crate::types::JupiterV6SwapParameters;
use crate::types::USDC_MINT;
use vstd::prelude::*;

verus! {

/// One hop of a venue route, reduced to what the engine checks: the
/// downstream venue program the hop targets.
#[derive(Clone, Copy, Debug, PartialEq, Eq, Structural)]
pub struct RoutePlanStep {
    pub dex_program_id: u64,
}

/// Caller-supplied swap instruction arguments.
#[derive(Clone, Debug, PartialEq, Eq)]
pub struct SwapArgs {
    pub route_plan: Vec<RoutePlanStep>,
    pub in_amount: u64,
    pub quoted_out_amount: u64,
    pub slippage_bps: u16,
    pub platform_fee_bps: u8,
}

/// The route accounts a caller declared for one swap: who signs the
/// transfer, which custody accounts the venue draws from and fills, and
/// which assets those custody accounts hold.
#[derive(Clone, Copy, Debug, PartialEq, Eq, Structural)]
pub struct JupiterV6SharedAccountsRoute {
    pub transfer_authority: u64,
    pub src_custody_token: u64,
    pub dst_custody_token: u64,
    pub src_mint: u64,
    pub dst_mint: u64,
}

/// Validates a declared route against the engine's expectations and
/// produces the arguments to execute.
///
/// With `limit_and_params` present (any asset-converting case) the
/// caller's arguments select only the route: the executed input amount is
/// `in_amount`, the executed minimum output is the staged limit, and the
/// executed slippage is zero; when the staged parameters pin a venue, the
/// route must be a single hop targeting it. Without `limit_and_params`
/// (the plain same-asset case) the caller's arguments are executed as
/// declared, but their input amount must equal `in_amount`.
pub open spec fn spec_prepare_swap_args(
    route: JupiterV6SharedAccountsRoute,
    args: SwapArgs,
    expected: JupiterV6SharedAccountsRoute,
    in_amount: u64,
    limit_and_params: Option<(u64, JupiterV6SwapParameters)>,
) -> Result<SwapArgs, SwapLayerError> {
    if route.transfer_authority != expected.transfer_authority {
        Err(SwapLayerError::InvalidSwapAuthority)
    } else if route.src_custody_token != expected.src_custody_token {
        Err(SwapLayerError::InvalidSourceSwapToken)
    } else if route.dst_custody_token != expected.dst_custody_token {
        Err(SwapLayerError::InvalidDestinationSwapToken)
    } else if route.src_mint != USDC_MINT {
        Err(SwapLayerError::InvalidSourceMint)
    } else if route.dst_mint != expected.dst_mint {
        Err(SwapLayerError::InvalidDestinationMint)
    } else {
        match limit_and_params {
            Some((limit_amount, swap_params)) => {
                let executed = SwapArgs {
                    route_plan: args.route_plan,
                    in_amount: in_amount,
                    quoted_out_amount: limit_amount,
                    slippage_bps: 0,
                    platform_fee_bps: args.platform_fee_bps,
                };
                match swap_params.dex_program_id {
                    Some(dex_program_id) => {
                        if args.route_plan@.len() != 1 {
                            Err(SwapLayerError::NotJupiterV6DirectRoute)
                        } else if args.route_plan@[0].dex_program_id != dex_program_id {
                            Err(SwapLayerError::JupiterV6DexProgramMismatch)
                        } else {
                            Ok(executed)
                        }
                    },
                    None => Ok(executed),
                }
            },
            None => {
                if args.in_amount != in_amount {
                    Err(SwapLayerError::InvalidSwapInAmount)
                } else {
                    Ok(args)
                }
            },
        }
    }
}

/// Executable form of [`spec_prepare_swap_args`].
pub fn prepare_swap_args(
    route: &JupiterV6SharedAccountsRoute,
    args: SwapArgs,
    expected: &JupiterV6SharedAccountsRoute,
    in_amount: u64,
    limit_and_params: Option<(u64, JupiterV6SwapParameters)>,
) -> (r: Result<SwapArgs, SwapLayerError>)
    ensures
        r == spec_prepare_swap_args(*route, args, *expected, in_amount, limit_and_params),
{
    if route.transfer_authority != expected.transfer_authority {
        return Err(SwapLayerError::InvalidSwapAuthority);
    }
    if route.src_custody_token != expected.src_custody_token {
        return Err(SwapLayerError::InvalidSourceSwapToken);
    }
    if route.dst_custody_token != expected.dst_custody_token {
        return Err(SwapLayerError::InvalidDestinationSwapToken);
    }
    if route.src_mint != USDC_MINT {
        return Err(SwapLayerError::InvalidSourceMint);
    }
    if route.dst_mint != expected.dst_mint {
        return Err(SwapLayerError::InvalidDestinationMint);
    }
    match limit_and_params {
        Some((limit_amount, swap_params)) => {
            let mut executed = args;
            executed.in_amount = in_amount;
            executed.quoted_out_amount = limit_amount;
            executed.slippage_bps = 0;
            match swap_params.dex_program_id {
                Some(dex_program_id) => {
                    if executed.route_plan.len() != 1 {
                        return Err(SwapLayerError::NotJupiterV6DirectRoute);
                    }
                    if executed.route_plan[0].dex_program_id != dex_program_id {
                        return Err(SwapLayerError::JupiterV6DexProgramMismatch);
                    }
                    Ok(executed)
                },
                None => Ok(executed),
            }
        },
        None => {
            if args.in_amount != in_amount {
                return Err(SwapLayerError::InvalidSwapInAmount);
            }
            Ok(args)
        },
    }
}

/// Whenever the engine overrides the caller's arguments, the executed swap
/// draws exactly the engine's input amount, quotes exactly the staged
/// limit, and allows no slippage — never a caller-declared value.
pub proof fn lemma_override_pins_swap(
    route: JupiterV6SharedAccountsRoute,
    args: SwapArgs,
    expected: JupiterV6SharedAccountsRoute,
    in_amount: u64,
    limit_amount: u64,
    swap_params: JupiterV6SwapParameters,
)
    requires
        spec_prepare_swap_args(route, args, expected, in_amount, Some((limit_amount, swap_params)))
            is Ok,
    ensures
        ({
            let executed = spec_prepare_swap_args(
                route,
                args,
                expected,
                in_amount,
                Some((limit_amount, swap_params)),
            )->Ok_0;
            &&& executed.in_amount == in_amount
            &&& executed.quoted_out_amount == limit_amount
            &&& executed.slippage_bps == 0
        }),
{
}

/// Context of the venue passthrough instruction: the venue program the
/// declared instruction data is forwarded to.
#[derive(Clone, Copy, Debug, PartialEq, Eq, Structural)]
pub struct SwapJupiterV6SharedAccountsRoutePassthrough {
    pub jupiter_v6_program: u64,
}

/// Instruction data forwarded by the passthrough, as the venue declares it.
#[derive(Clone, Debug, PartialEq, Eq)]
pub struct SwapJupiterV6SharedAccountsRoutePassthroughArgs {
    pub id: u8,
    pub route_plan: Vec<RoutePlanStep>,
    pub in_amount: u64,
    pub quoted_out_amount: u64,
    pub slippage_bps: u16,
    pub platform_fee_bps: u8,
}

/// Inspection target for forwarded venue instructions. It validates
/// nothing and moves nothing: it exists so a declared route can be read
/// back, and always succeeds.
pub fn swap_jupiter_v6_shared_accounts_route_passthrough(
    accounts: &SwapJupiterV6SharedAccountsRoutePassthrough,
    selector: [u8; 8],
    args: &SwapJupiterV6SharedAccountsRoutePassthroughArgs,
) -> (r: Result<(), SwapLayerError>)
    ensures
        r is Ok,
{
    let _ = accounts;
    let _ = selector;
    let _ = args;
    Ok(())
}

} // verus!
