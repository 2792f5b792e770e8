//! Trusted boundary to the venue's rate computation.
//!
//! Refreshing the cached rates means handing four raw account buffers —
//! controller state, the venue's spot-market state, the venue-side user
//! account, and the receipt mint — to the exchange library, which decodes
//! them and returns how many output units a reference-sized input buys.
//! That computation is a black box to the adapter: its results are only
//! named here, and everything the adapter does with them is verified.

use vstd::prelude::*;

verus! {

use crate::types::AdapterError;

/// How many receipt-asset units the venue's rate computation returns for
/// `amount` base-asset units, given the four raw account buffers; nothing
/// when the computation fails. The result depends on the five arguments
/// alone.
pub uninterp spec fn base_to_receipt_rate(
    controller: Seq<u8>,
    spot_market: Seq<u8>,
    user_account: Seq<u8>,
    mint: Seq<u8>,
    amount: u64,
) -> Option<u64>;

/// How many base-asset units the venue's rate computation returns for
/// `amount` receipt-asset units, given the four raw account buffers;
/// nothing when the computation fails. The result depends on the five
/// arguments alone.
pub uninterp spec fn receipt_to_base_rate(
    controller: Seq<u8>,
    spot_market: Seq<u8>,
    user_account: Seq<u8>,
    mint: Seq<u8>,
    amount: u64,
) -> Option<u64>;

/// The one controller buffer the exchange library cannot take: long enough
/// to be decoded, with the stored net-user-flow field holding the single
/// 64-bit value whose negation is unrepresentable (little-endian bytes
/// `00 .. 00 80` at offsets 1034..1042). Settling such a flow would
/// overflow inside the library instead of returning its error.
pub open spec fn net_flow_negation_overflows(controller: Seq<u8>) -> bool {
    &&& controller.len() >= 1066
    &&& controller[1034] == 0u8
    &&& controller[1035] == 0u8
    &&& controller[1036] == 0u8
    &&& controller[1037] == 0u8
    &&& controller[1038] == 0u8
    &&& controller[1039] == 0u8
    &&& controller[1040] == 0u8
    &&& controller[1041] == 0x80u8
}

/// Relies on usdc_plus_exchange::exchange_rate_usdc_input: a deterministic
/// function of the four buffers and the amount; it indexes the spot-market
/// buffer past its 8-byte discriminator and the user buffer up to offset
/// 432, and reports every other malformed input through its error.
#[verifier::external_body]
pub(crate) fn venue_rate_base_input(
    controller: &[u8],
    spot_market: &[u8],
    user_account: &[u8],
    mint: &[u8],
    amount: u64,
) -> (r: Result<u64, AdapterError>)
    requires
        spot_market@.len() >= 8,
        user_account@.len() >= 432,
        !net_flow_negation_overflows(controller@),
    ensures
        match r {
            Ok(v) => base_to_receipt_rate(controller@, spot_market@, user_account@, mint@, amount)
                == Some(v),
            Err(e) => base_to_receipt_rate(controller@, spot_market@, user_account@, mint@, amount)
                is None && e == AdapterError::RateUnavailable,
        },
{
    match usdc_plus_exchange::exchange_rate_usdc_input(
        controller,
        spot_market,
        user_account,
        mint,
        amount,
    ) {
        Ok(v) => Ok(v),
        Err(_) => Err(AdapterError::RateUnavailable),
    }
}

/// Relies on usdc_plus_exchange::exchange_rate_receipt_input: a
/// deterministic function of the four buffers and the amount, with the same
/// indexing bounds as the base-input direction.
#[verifier::external_body]
pub(crate) fn venue_rate_receipt_input(
    controller: &[u8],
    spot_market: &[u8],
    user_account: &[u8],
    mint: &[u8],
    amount: u64,
) -> (r: Result<u64, AdapterError>)
    requires
        spot_market@.len() >= 8,
        user_account@.len() >= 432,
        !net_flow_negation_overflows(controller@),
    ensures
        match r {
            Ok(v) => receipt_to_base_rate(controller@, spot_market@, user_account@, mint@, amount)
                == Some(v),
            Err(e) => receipt_to_base_rate(controller@, spot_market@, user_account@, mint@, amount)
                is None && e == AdapterError::RateUnavailable,
        },
{
    match usdc_plus_exchange::exchange_rate_receipt_input(
        controller,
        spot_market,
        user_account,
        mint,
        amount,
    ) {
        Ok(v) => Ok(v),
        Err(_) => Err(AdapterError::RateUnavailable),
    }
}

} // verus!
