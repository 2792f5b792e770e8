//! Quoting-and-instruction-building adapter for a base asset and a
//! yield-bearing receipt asset backed by a single external venue.
//!
//! The adapter caches a pair of conversion rates, turns them into quoted
//! amounts for either direction and either exact-in or exact-out mode, and
//! assembles the fixed, ordered account-metadata list that the on-chain
//! program expects.

use vstd::prelude::*;

pub mod math;
pub mod types;
pub mod venue;

verus! {

use crate::math::{REFERENCE_AMOUNT, calculate_exact_in, calculate_exact_out, exact_in_output, exact_out_input};
use crate::types::{
    AccountMeta, AdapterError, Address, QuoteResult, ReflectSwap, Swap, SwapAndAccountMetas,
    SwapMode, SwapParams, TradeRequest,
};
use crate::venue::{
    base_to_receipt_rate, net_flow_negation_overflows, receipt_to_base_rate,
    venue_rate_base_input, venue_rate_receipt_input,
};

/// The fixed addresses the adapter is built from: the protocol's own
/// accounts, the venue-side accounts, the two supported mints, and the
/// system accounts that close the instruction's account list. Supplied once
/// at construction and immutable afterwards.
#[derive(Clone, Debug)]
pub struct AdapterConfig {
    pub label: String,
    pub program_id: Address,
    // Core accounts
    pub main: Address,
    pub usdc_plus_controller: Address,
    pub admin_permissions: Address,
    pub usdc_plus_mint: Address,
    pub controller_usdc_ata: Address,
    // Drift accounts
    pub drift_program: Address,
    pub drift_state: Address,
    pub drift_user_stats: Address,
    pub usdc_plus_drift_user_acc: Address,
    pub drift_spot_market_vault: Address,
    pub drift_vault: Address,
    pub referrer_user_stats: Address,
    pub referrer_user: Address,
    // Remaining accounts
    pub drift_usdc_spot_market: Address,
    pub usdc_oracle: Address,
    // Supported mints and system accounts
    pub usdc_mint: Address,
    pub token_program: Address,
    pub system_program: Address,
    pub clock_sysvar: Address,
}

/// The adapter: the fixed address table plus the two cached rates. The rates
/// are the only mutable state; everything else is set at construction.
#[derive(Clone, Debug)]
pub struct ReflectAmm {
    pub label: String,
    pub program_id: Address,
    // Core accounts
    pub main: Address,
    pub usdc_plus_controller: Address,
    pub admin_permissions: Address,
    pub usdc_plus_mint: Address,
    pub controller_usdc_ata: Address,
    // Drift accounts
    pub drift_program: Address,
    pub drift_state: Address,
    pub drift_user_stats: Address,
    pub usdc_plus_drift_user_acc: Address,
    pub drift_spot_market_vault: Address,
    pub drift_vault: Address,
    pub referrer_user_stats: Address,
    pub referrer_user: Address,
    // Added in remaining
    pub drift_usdc_spot_market: Address,
    pub usdc_oracle: Address,
    // Supported mints and system accounts
    pub usdc_mint: Address,
    pub token_program: Address,
    pub system_program: Address,
    pub clock_sysvar: Address,
    // Rates: output units returned per REFERENCE_AMOUNT input units
    pub rate_100_usdc: u64,
    pub rate_100_usdc_plus: u64,
}

impl ReflectAmm {
    /// The adapter holds exactly the addresses of `config`.
    pub open spec fn spec_configured(self, config: AdapterConfig) -> bool {
        &&& self.label == config.label
        &&& self.program_id == config.program_id
        &&& self.main == config.main
        &&& self.usdc_plus_controller == config.usdc_plus_controller
        &&& self.admin_permissions == config.admin_permissions
        &&& self.usdc_plus_mint == config.usdc_plus_mint
        &&& self.controller_usdc_ata == config.controller_usdc_ata
        &&& self.drift_program == config.drift_program
        &&& self.drift_state == config.drift_state
        &&& self.drift_user_stats == config.drift_user_stats
        &&& self.usdc_plus_drift_user_acc == config.usdc_plus_drift_user_acc
        &&& self.drift_spot_market_vault == config.drift_spot_market_vault
        &&& self.drift_vault == config.drift_vault
        &&& self.referrer_user_stats == config.referrer_user_stats
        &&& self.referrer_user == config.referrer_user
        &&& self.drift_usdc_spot_market == config.drift_usdc_spot_market
        &&& self.usdc_oracle == config.usdc_oracle
        &&& self.usdc_mint == config.usdc_mint
        &&& self.token_program == config.token_program
        &&& self.system_program == config.system_program
        &&& self.clock_sysvar == config.clock_sysvar
    }

    /// Both adapters hold the same address table; only the rates may differ.
    pub open spec fn spec_same_config(self, other: ReflectAmm) -> bool {
        &&& self.label == other.label
        &&& self.program_id == other.program_id
        &&& self.main == other.main
        &&& self.usdc_plus_controller == other.usdc_plus_controller
        &&& self.admin_permissions == other.admin_permissions
        &&& self.usdc_plus_mint == other.usdc_plus_mint
        &&& self.controller_usdc_ata == other.controller_usdc_ata
        &&& self.drift_program == other.drift_program
        &&& self.drift_state == other.drift_state
        &&& self.drift_user_stats == other.drift_user_stats
        &&& self.usdc_plus_drift_user_acc == other.usdc_plus_drift_user_acc
        &&& self.drift_spot_market_vault == other.drift_spot_market_vault
        &&& self.drift_vault == other.drift_vault
        &&& self.referrer_user_stats == other.referrer_user_stats
        &&& self.referrer_user == other.referrer_user
        &&& self.drift_usdc_spot_market == other.drift_usdc_spot_market
        &&& self.usdc_oracle == other.usdc_oracle
        &&& self.usdc_mint == other.usdc_mint
        &&& self.token_program == other.token_program
        &&& self.system_program == other.system_program
        &&& self.clock_sysvar == other.clock_sysvar
    }

    /// Construct an adapter over the given address table. Both rates start
    /// at zero, which means quoting fails with `RateUnavailable` until the
    /// first `refresh`.
    pub fn new(config: AdapterConfig) -> (amm: ReflectAmm)
        ensures
            amm.spec_configured(config),
            amm.rate_100_usdc == 0,
            amm.rate_100_usdc_plus == 0,
    {
        ReflectAmm {
            label: config.label,
            program_id: config.program_id,
            main: config.main,
            usdc_plus_controller: config.usdc_plus_controller,
            admin_permissions: config.admin_permissions,
            usdc_plus_mint: config.usdc_plus_mint,
            controller_usdc_ata: config.controller_usdc_ata,
            drift_program: config.drift_program,
            drift_state: config.drift_state,
            drift_user_stats: config.drift_user_stats,
            usdc_plus_drift_user_acc: config.usdc_plus_drift_user_acc,
            drift_spot_market_vault: config.drift_spot_market_vault,
            drift_vault: config.drift_vault,
            referrer_user_stats: config.referrer_user_stats,
            referrer_user: config.referrer_user,
            drift_usdc_spot_market: config.drift_usdc_spot_market,
            usdc_oracle: config.usdc_oracle,
            usdc_mint: config.usdc_mint,
            token_program: config.token_program,
            system_program: config.system_program,
            clock_sysvar: config.clock_sysvar,
            rate_100_usdc: 0,
            rate_100_usdc_plus: 0,
        }
    }

    /// Replace both cached rates wholesale; nothing else changes. Subsequent
    /// quotes reflect the new pair immediately, and because the receiver is
    /// exclusive, no reader can observe one old and one new rate.
    pub fn refresh(&mut self, rate_100_usdc: u64, rate_100_usdc_plus: u64)
        ensures
            final(self).rate_100_usdc == rate_100_usdc,
            final(self).rate_100_usdc_plus == rate_100_usdc_plus,
            final(self).spec_same_config(*old(self)),
    {
        self.rate_100_usdc = rate_100_usdc;
        self.rate_100_usdc_plus = rate_100_usdc_plus;
    }

    /// Recompute both cached rates from the four raw account buffers that
    /// `get_accounts_to_update` names, by asking the venue's rate
    /// computation what a reference-sized amount converts to in each
    /// direction. On the first failure the error is returned at once, so a
    /// failure in the second direction leaves the first rate already
    /// replaced, as the sequence of assignments has it.
    pub fn update(
        &mut self,
        usdc_plus_controller_data: &[u8],
        drift_usdc_spot_market_data: &[u8],
        usdc_plus_drift_user_acc_data: &[u8],
        usdc_plus_mint_data: &[u8],
    ) -> (r: Result<(), AdapterError>)
        requires
            drift_usdc_spot_market_data@.len() >= 8,
            usdc_plus_drift_user_acc_data@.len() >= 432,
            !net_flow_negation_overflows(usdc_plus_controller_data@),
        ensures
            final(self).spec_same_config(*old(self)),
            ({
                let r1 = base_to_receipt_rate(
                    usdc_plus_controller_data@,
                    drift_usdc_spot_market_data@,
                    usdc_plus_drift_user_acc_data@,
                    usdc_plus_mint_data@,
                    REFERENCE_AMOUNT,
                );
                let r2 = receipt_to_base_rate(
                    usdc_plus_controller_data@,
                    drift_usdc_spot_market_data@,
                    usdc_plus_drift_user_acc_data@,
                    usdc_plus_mint_data@,
                    REFERENCE_AMOUNT,
                );
                &&& (r is Ok <==> (r1 is Some && r2 is Some))
                &&& (r matches Err(e) ==> e == AdapterError::RateUnavailable)
                &&& (r1 matches Some(v1) ==> final(self).rate_100_usdc == v1)
                &&& (r1 is None ==> final(self).rate_100_usdc == old(self).rate_100_usdc)
                &&& (r2 matches Some(v2) ==> (r1 is Some ==> final(self).rate_100_usdc_plus == v2))
                &&& ((r1 is None || r2 is None) ==> final(self).rate_100_usdc_plus == old(
                    self,
                ).rate_100_usdc_plus)
            }),
    {
        let rate_in = match venue_rate_base_input(
            usdc_plus_controller_data,
            drift_usdc_spot_market_data,
            usdc_plus_drift_user_acc_data,
            usdc_plus_mint_data,
            REFERENCE_AMOUNT,
        ) {
            Ok(v) => v,
            Err(e) => {
                return Err(e);
            },
        };
        self.rate_100_usdc = rate_in;
        let rate_out = match venue_rate_receipt_input(
            usdc_plus_controller_data,
            drift_usdc_spot_market_data,
            usdc_plus_drift_user_acc_data,
            usdc_plus_mint_data,
            REFERENCE_AMOUNT,
        ) {
            Ok(v) => v,
            Err(e) => {
                return Err(e);
            },
        };
        self.rate_100_usdc_plus = rate_out;
        Ok(())
    }

    /// The cached rate that applies when `mint` is the trade's input asset,
    /// or nothing when `mint` is neither supported asset.
    pub open spec fn spec_rate_for(self, mint: Address) -> Option<u64> {
        if mint == self.usdc_mint {
            Some(self.rate_100_usdc)
        } else if mint == self.usdc_plus_mint {
            Some(self.rate_100_usdc_plus)
        } else {
            None
        }
    }

    /// Select the cached rate for the given input asset.
    pub fn get_rate_for_input_mint(&self, input_mint: &Address) -> (r: Result<u64, AdapterError>)
        ensures
            (match self.spec_rate_for(*input_mint) {
                Some(rate) => r == Ok::<u64, AdapterError>(rate),
                None => r == Err::<u64, AdapterError>(AdapterError::UnsupportedAsset),
            }),
    {
        if *input_mint == self.usdc_mint {
            Ok(self.rate_100_usdc)
        } else if *input_mint == self.usdc_plus_mint {
            Ok(self.rate_100_usdc_plus)
        } else {
            Err(AdapterError::UnsupportedAsset)
        }
    }

    /// What `quote` returns, stated over unbounded integers: the rate is
    /// selected by the input asset; a zero rate is not ready; exact-in
    /// rounds the output down, exact-out rounds the input up; the fee is
    /// zero and denominated in the input asset; a result beyond 64 bits is
    /// an overflow error.
    pub open spec fn spec_quote(self, request: TradeRequest) -> Result<QuoteResult, AdapterError> {
        match self.spec_rate_for(request.input_mint) {
            None => Err(AdapterError::UnsupportedAsset),
            Some(rate) => if rate == 0 {
                Err(AdapterError::RateUnavailable)
            } else {
                match request.swap_mode {
                    SwapMode::ExactIn => {
                        let out = exact_in_output(request.amount as int, rate as int);
                        if out <= u64::MAX {
                            Ok(QuoteResult {
                                in_amount: request.amount,
                                out_amount: out as u64,
                                fee_amount: 0,
                                fee_mint: request.input_mint,
                            })
                        } else {
                            Err(AdapterError::ArithmeticOverflow)
                        }
                    },
                    SwapMode::ExactOut => {
                        let inp = exact_out_input(request.amount as int, rate as int);
                        if inp <= u64::MAX {
                            Ok(QuoteResult {
                                in_amount: inp as u64,
                                out_amount: request.amount,
                                fee_amount: 0,
                                fee_mint: request.input_mint,
                            })
                        } else {
                            Err(AdapterError::ArithmeticOverflow)
                        }
                    },
                }
            },
        }
    }

    /// Convert the requested amount with the cached rate for the requested
    /// direction.
    pub fn quote(&self, request: &TradeRequest) -> (r: Result<QuoteResult, AdapterError>)
        ensures
            r == self.spec_quote(*request),
    {
        let rate = match self.get_rate_for_input_mint(&request.input_mint) {
            Ok(rate) => rate,
            Err(e) => {
                return Err(e);
            },
        };
        if rate == 0 {
            return Err(AdapterError::RateUnavailable);
        }
        let (in_amount, out_amount) = match request.swap_mode {
            SwapMode::ExactIn => {
                let out = match calculate_exact_in(request.amount, rate) {
                    Ok(out) => out,
                    Err(e) => {
                        return Err(e);
                    },
                };
                (request.amount, out)
            },
            SwapMode::ExactOut => {
                let inp = match calculate_exact_out(request.amount, rate) {
                    Ok(inp) => inp,
                    Err(e) => {
                        return Err(e);
                    },
                };
                (inp, request.amount)
            },
        };
        Ok(QuoteResult {
            in_amount,
            out_amount,
            fee_amount: 0,
            fee_mint: request.input_mint,
        })
    }

    /// Exactly one of the pair is the base asset and the other the receipt
    /// asset. Same asset twice, or any asset outside the supported set,
    /// makes the pair invalid.
    pub open spec fn spec_valid_pair(self, source_mint: Address, destination_mint: Address) -> bool {
        ||| (source_mint == self.usdc_mint && destination_mint == self.usdc_plus_mint)
        ||| (source_mint == self.usdc_plus_mint && destination_mint == self.usdc_mint)
    }

    /// The full account set of the planned instruction: the caller's token
    /// accounts resolved to their base/receipt roles by the trade direction,
    /// and the fixed accounts taken from the adapter. Meaningful when the
    /// pair is valid.
    pub open spec fn spec_swap_accounts(self, params: SwapParams) -> ReflectSwap {
        let is_deposit = params.source_mint == self.usdc_mint;
        ReflectSwap {
            user: params.token_transfer_authority,
            user_receipt_ata: if is_deposit {
                params.destination_token_account
            } else {
                params.source_token_account
            },
            user_usdc_ata: if is_deposit {
                params.source_token_account
            } else {
                params.destination_token_account
            },
            main: self.main,
            usdc_controller: self.usdc_plus_controller,
            admin_permissions: self.admin_permissions,
            controller_usdc_ata: self.controller_usdc_ata,
            receipt_mint: self.usdc_plus_mint,
            drift_program: self.drift_program,
            drift_state: self.drift_state,
            drift_user_stats: self.drift_user_stats,
            referrer_user_stats: self.referrer_user_stats,
            referrer_user: self.referrer_user,
            drift_user_account: self.usdc_plus_drift_user_acc,
            drift_spot_market_vault: self.drift_spot_market_vault,
            drift_vault: self.drift_vault,
            token_program: self.token_program,
            system_program: self.system_program,
            clock_sysvar: self.clock_sysvar,
            usdc_oracle: self.usdc_oracle,
            drift_usdc_spot_market: self.drift_usdc_spot_market,
        }
    }

    /// Validate the pair, fix the trade direction, and emit the ordered
    /// account list with its instruction tag. A pure transform: the only
    /// failure is the pair validation.
    pub fn get_swap_and_account_metas(&self, params: &SwapParams) -> (r: Result<
        SwapAndAccountMetas,
        AdapterError,
    >)
        ensures
            self.spec_valid_pair(params.source_mint, params.destination_mint) ==> (r matches Ok(
                plan,
            ) && plan.swap == Swap::TokenSwap && plan.account_metas@ == self.spec_swap_accounts(
                *params,
            ).metas_seq()),
            !self.spec_valid_pair(params.source_mint, params.destination_mint) ==> r
                == Err::<SwapAndAccountMetas, AdapterError>(AdapterError::InvalidAssetPair),
    {
        let valid_pair = (params.source_mint == self.usdc_mint && params.destination_mint
            == self.usdc_plus_mint) || (params.source_mint == self.usdc_plus_mint
            && params.destination_mint == self.usdc_mint);
        if !valid_pair {
            return Err(AdapterError::InvalidAssetPair);
        }
        let is_deposit = params.source_mint == self.usdc_mint;
        let (user_usdc_ata, user_receipt_ata) = if is_deposit {
            (params.source_token_account, params.destination_token_account)
        } else {
            (params.destination_token_account, params.source_token_account)
        };
        let accounts = ReflectSwap {
            user: params.token_transfer_authority,
            user_receipt_ata,
            user_usdc_ata,
            main: self.main,
            usdc_controller: self.usdc_plus_controller,
            admin_permissions: self.admin_permissions,
            controller_usdc_ata: self.controller_usdc_ata,
            receipt_mint: self.usdc_plus_mint,
            drift_program: self.drift_program,
            drift_state: self.drift_state,
            drift_user_stats: self.drift_user_stats,
            referrer_user_stats: self.referrer_user_stats,
            referrer_user: self.referrer_user,
            drift_user_account: self.usdc_plus_drift_user_acc,
            drift_spot_market_vault: self.drift_spot_market_vault,
            drift_vault: self.drift_vault,
            token_program: self.token_program,
            system_program: self.system_program,
            clock_sysvar: self.clock_sysvar,
            usdc_oracle: self.usdc_oracle,
            drift_usdc_spot_market: self.drift_usdc_spot_market,
        };
        Ok(SwapAndAccountMetas { swap: Swap::TokenSwap, account_metas: accounts.account_metas() })
    }

    /// The adapter's display label.
    pub fn label(&self) -> (r: String)
        ensures
            r@ == self.label@,
    {
        self.label.clone()
    }

    /// The on-chain program this adapter builds instructions for.
    pub fn program_id(&self) -> (r: Address)
        ensures
            r == self.program_id,
    {
        self.program_id
    }

    /// The adapter's identifying account: the controller that signs to the
    /// venue and custodies tokens.
    pub fn key(&self) -> (r: Address)
        ensures
            r == self.usdc_plus_controller,
    {
        self.usdc_plus_controller
    }

    /// The two mints between which this adapter exchanges.
    pub fn get_reserve_mints(&self) -> (v: Vec<Address>)
        ensures
            v@ == seq![self.usdc_mint, self.usdc_plus_mint],
    {
        let mut v: Vec<Address> = Vec::new();
        v.push(self.usdc_mint);
        v.push(self.usdc_plus_mint);
        assert(v@ =~= seq![self.usdc_mint, self.usdc_plus_mint]);
        v
    }

    /// The accounts whose contents a refresh needs.
    pub fn get_accounts_to_update(&self) -> (v: Vec<Address>)
        ensures
            v@ == seq![
                self.usdc_plus_controller,
                self.usdc_plus_drift_user_acc,
                self.usdc_plus_mint,
                self.drift_usdc_spot_market,
            ],
    {
        let mut v: Vec<Address> = Vec::new();
        v.push(self.usdc_plus_controller);
        v.push(self.usdc_plus_drift_user_acc);
        v.push(self.usdc_plus_mint);
        v.push(self.drift_usdc_spot_market);
        assert(v@ =~= seq![
            self.usdc_plus_controller,
            self.usdc_plus_drift_user_acc,
            self.usdc_plus_mint,
            self.drift_usdc_spot_market,
        ]);
        v
    }

    /// Exact-out quoting is supported.
    pub fn supports_exact_out(&self) -> (r: bool)
        ensures
            r,
    {
        true
    }
}

/// Law: a quote for an input asset outside the supported pair fails with
/// `UnsupportedAsset`, whatever the amount and whatever the mode.
pub proof fn lemma_quote_unsupported_asset(amm: ReflectAmm, request: TradeRequest)
    requires
        request.input_mint != amm.usdc_mint,
        request.input_mint != amm.usdc_plus_mint,
    ensures
        amm.spec_quote(request) == Err::<QuoteResult, AdapterError>(AdapterError::UnsupportedAsset),
{
}

/// Law: a quote whose requested direction has a zero cached rate fails with
/// `RateUnavailable`, whatever the amount and whatever the mode — it never
/// divides by zero.
pub proof fn lemma_quote_rate_unavailable(amm: ReflectAmm, request: TradeRequest)
    requires
        amm.spec_rate_for(request.input_mint) == Some(0u64),
    ensures
        amm.spec_quote(request) == Err::<QuoteResult, AdapterError>(AdapterError::RateUnavailable),
{
}

/// Law: both orders of the supported pair are accepted, and either way the
/// planned account list has the same fixed 21 entries with the trader's
/// authority first, writable and the only signer.
pub proof fn lemma_plan_direction_symmetry(
    amm: ReflectAmm,
    deposit: SwapParams,
    withdraw: SwapParams,
)
    requires
        deposit.source_mint == amm.usdc_mint,
        deposit.destination_mint == amm.usdc_plus_mint,
        withdraw.source_mint == amm.usdc_plus_mint,
        withdraw.destination_mint == amm.usdc_mint,
    ensures
        amm.spec_valid_pair(deposit.source_mint, deposit.destination_mint),
        amm.spec_valid_pair(withdraw.source_mint, withdraw.destination_mint),
        amm.spec_swap_accounts(deposit).metas_seq().len() == 21,
        amm.spec_swap_accounts(withdraw).metas_seq().len() == 21,
        amm.spec_swap_accounts(deposit).metas_seq()[0] == (AccountMeta {
            pubkey: deposit.token_transfer_authority,
            is_signer: true,
            is_writable: true,
        }),
        amm.spec_swap_accounts(withdraw).metas_seq()[0] == (AccountMeta {
            pubkey: withdraw.token_transfer_authority,
            is_signer: true,
            is_writable: true,
        }),
        forall|i: int|
            1 <= i < 21 ==> !amm.spec_swap_accounts(deposit).metas_seq()[i].is_signer,
        forall|i: int|
            1 <= i < 21 ==> !amm.spec_swap_accounts(withdraw).metas_seq()[i].is_signer,
{
}

/// Law: the degenerate same-asset pair, and any pair naming an asset
/// outside the supported set, are rejected. The adapter's two mints are
/// assumed distinct, as they are in any meaningful configuration.
pub proof fn lemma_plan_rejects_invalid_pairs(amm: ReflectAmm, other: Address)
    requires
        amm.usdc_mint != amm.usdc_plus_mint,
        other != amm.usdc_mint,
        other != amm.usdc_plus_mint,
    ensures
        !amm.spec_valid_pair(amm.usdc_mint, amm.usdc_mint),
        !amm.spec_valid_pair(other, amm.usdc_plus_mint),
{
}

} // verus!
