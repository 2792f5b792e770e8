//! Data model shared by the quoting and planning operations.

use vstd::prelude::*;

verus! {

/// A 32-byte account address, held as four 64-bit words.
///
/// The adapter only ever compares addresses for equality and copies them
/// into the account-metadata list, so the words carry no further structure.
#[derive(Clone, Copy, Debug, PartialEq, Eq, Structural)]
pub struct Address {
    pub w0: u64,
    pub w1: u64,
    pub w2: u64,
    pub w3: u64,
}

/// Which side of the trade the requested amount fixes.
#[derive(Clone, Copy, Debug, PartialEq, Eq, Structural)]
pub enum SwapMode {
    ExactIn,
    ExactOut,
}

/// The error kinds the adapter reports. Every failure is returned
/// synchronously to the caller; nothing is retried and nothing panics.
#[derive(Clone, Copy, Debug, PartialEq, Eq, Structural)]
pub enum AdapterError {
    /// A quote was requested for an asset outside the two configured.
    UnsupportedAsset,
    /// The cached rate for the requested direction is zero or not yet set.
    RateUnavailable,
    /// A product or the ceiling-rounding addition exceeds the representable range.
    ArithmeticOverflow,
    /// A plan was requested for a pair that is not exactly {base, receipt}.
    InvalidAssetPair,
}

/// One pricing request: the amount on the side fixed by `swap_mode`, and the
/// asset pair it trades between.
#[derive(Clone, Copy, Debug)]
pub struct TradeRequest {
    pub amount: u64,
    pub input_mint: Address,
    pub output_mint: Address,
    pub swap_mode: SwapMode,
}

/// A resolved quote: both amounts, and the (always zero) fee in units of the
/// input asset.
#[derive(Clone, Copy, Debug, PartialEq, Eq, Structural)]
pub struct QuoteResult {
    pub in_amount: u64,
    pub out_amount: u64,
    pub fee_amount: u64,
    pub fee_mint: Address,
}

/// One entry of the account-metadata list: an address plus the two role
/// flags the on-chain program checks.
#[derive(Clone, Copy, Debug, PartialEq, Eq, Structural)]
pub struct AccountMeta {
    pub pubkey: Address,
    pub is_signer: bool,
    pub is_writable: bool,
}

impl AccountMeta {
    /// A writable entry.
    pub fn new(pubkey: Address, is_signer: bool) -> (m: AccountMeta)
        ensures
            m == (AccountMeta { pubkey, is_signer, is_writable: true }),
    {
        AccountMeta { pubkey, is_signer, is_writable: true }
    }

    /// A read-only entry.
    pub fn new_readonly(pubkey: Address, is_signer: bool) -> (m: AccountMeta)
        ensures
            m == (AccountMeta { pubkey, is_signer, is_writable: false }),
    {
        AccountMeta { pubkey, is_signer, is_writable: false }
    }
}

/// The tag selecting which on-chain instruction encoding applies to the
/// emitted account list.
#[derive(Clone, Copy, Debug, PartialEq, Eq, Structural)]
pub enum Swap {
    TokenSwap,
}

/// One execution request: the asset pair being traded and the caller's
/// per-trade accounts.
#[derive(Clone, Copy, Debug)]
pub struct SwapParams {
    pub source_mint: Address,
    pub destination_mint: Address,
    pub source_token_account: Address,
    pub destination_token_account: Address,
    pub token_transfer_authority: Address,
}

/// The produced plan: the instruction tag and the ordered account list.
#[derive(Clone, Debug)]
pub struct SwapAndAccountMetas {
    pub swap: Swap,
    pub account_metas: Vec<AccountMeta>,
}

/// The full set of accounts referenced by one swap instruction: the three
/// caller-supplied accounts resolved to their roles, plus the fixed protocol,
/// venue and system accounts.
#[derive(Clone, Copy, Debug)]
pub struct ReflectSwap {
    // User accounts (dynamic)
    pub user: Address,
    pub user_receipt_ata: Address,
    pub user_usdc_ata: Address,
    // Protocol accounts (static)
    pub main: Address,
    pub usdc_controller: Address,
    pub admin_permissions: Address,
    pub controller_usdc_ata: Address,
    pub receipt_mint: Address,
    // Venue accounts (static)
    pub drift_program: Address,
    pub drift_state: Address,
    pub drift_user_stats: Address,
    pub referrer_user_stats: Address,
    pub referrer_user: Address,
    pub drift_user_account: Address,
    pub drift_spot_market_vault: Address,
    pub drift_vault: Address,
    // System accounts (static)
    pub token_program: Address,
    pub system_program: Address,
    pub clock_sysvar: Address,
    // Remaining accounts (static)
    pub usdc_oracle: Address,
    pub drift_usdc_spot_market: Address,
}

impl ReflectSwap {
    /// The account-metadata list as the on-chain program expects it: the
    /// exact order and the exact mutability/signer flag of each of the 21
    /// entries. This table is a protocol encoding; every deviation makes the
    /// venue reject the instruction.
    pub open spec fn metas_seq(self) -> Seq<AccountMeta> {
        seq![
            // #1 - user (the only signer)
            AccountMeta { pubkey: self.user, is_signer: true, is_writable: true },
            // #2 - main
            AccountMeta { pubkey: self.main, is_signer: false, is_writable: true },
            // #3 - usdc_controller
            AccountMeta { pubkey: self.usdc_controller, is_signer: false, is_writable: true },
            // #4 - admin_permissions
            AccountMeta { pubkey: self.admin_permissions, is_signer: false, is_writable: false },
            // #5 - user_receipt_ata
            AccountMeta { pubkey: self.user_receipt_ata, is_signer: false, is_writable: true },
            // #6 - user_usdc_ata
            AccountMeta { pubkey: self.user_usdc_ata, is_signer: false, is_writable: true },
            // #7 - controller_usdc_ata
            AccountMeta { pubkey: self.controller_usdc_ata, is_signer: false, is_writable: true },
            // #8 - receipt_mint
            AccountMeta { pubkey: self.receipt_mint, is_signer: false, is_writable: true },
            // #9 - drift program
            AccountMeta { pubkey: self.drift_program, is_signer: false, is_writable: false },
            // #10 - drift state
            AccountMeta { pubkey: self.drift_state, is_signer: false, is_writable: true },
            // #11 - user_stats
            AccountMeta { pubkey: self.drift_user_stats, is_signer: false, is_writable: true },
            // #12 - referrer_user_stats
            AccountMeta { pubkey: self.referrer_user_stats, is_signer: false, is_writable: true },
            // #13 - referrer_user
            AccountMeta { pubkey: self.referrer_user, is_signer: false, is_writable: true },
            // #14 - user_account (the venue position tied to the controller)
            AccountMeta { pubkey: self.drift_user_account, is_signer: false, is_writable: true },
            // #15 - spot_market_vault
            AccountMeta { pubkey: self.drift_spot_market_vault, is_signer: false, is_writable: true },
            // #16 - drift_vault
            AccountMeta { pubkey: self.drift_vault, is_signer: false, is_writable: true },
            // #17 - token_program
            AccountMeta { pubkey: self.token_program, is_signer: false, is_writable: false },
            // #18 - system_program
            AccountMeta { pubkey: self.system_program, is_signer: false, is_writable: false },
            // #19 - clock
            AccountMeta { pubkey: self.clock_sysvar, is_signer: false, is_writable: false },
            // #20 - usdc_oracle (remaining)
            AccountMeta { pubkey: self.usdc_oracle, is_signer: false, is_writable: true },
            // #21 - drift_usdc_spot_market (remaining)
            AccountMeta { pubkey: self.drift_usdc_spot_market, is_signer: false, is_writable: true },
        ]
    }

    /// Build the executable account list; it matches `metas_seq` entry for
    /// entry.
    pub fn account_metas(&self) -> (v: Vec<AccountMeta>)
        ensures
            v@ == self.metas_seq(),
    {
        let mut v: Vec<AccountMeta> = Vec::new();
        v.push(AccountMeta::new(self.user, true));
        v.push(AccountMeta::new(self.main, false));
        v.push(AccountMeta::new(self.usdc_controller, false));
        v.push(AccountMeta::new_readonly(self.admin_permissions, false));
        v.push(AccountMeta::new(self.user_receipt_ata, false));
        v.push(AccountMeta::new(self.user_usdc_ata, false));
        v.push(AccountMeta::new(self.controller_usdc_ata, false));
        v.push(AccountMeta::new(self.receipt_mint, false));
        v.push(AccountMeta::new_readonly(self.drift_program, false));
        v.push(AccountMeta::new(self.drift_state, false));
        v.push(AccountMeta::new(self.drift_user_stats, false));
        v.push(AccountMeta::new(self.referrer_user_stats, false));
        v.push(AccountMeta::new(self.referrer_user, false));
        v.push(AccountMeta::new(self.drift_user_account, false));
        v.push(AccountMeta::new(self.drift_spot_market_vault, false));
        v.push(AccountMeta::new(self.drift_vault, false));
        v.push(AccountMeta::new_readonly(self.token_program, false));
        v.push(AccountMeta::new_readonly(self.system_program, false));
        v.push(AccountMeta::new_readonly(self.clock_sysvar, false));
        v.push(AccountMeta::new(self.usdc_oracle, false));
        v.push(AccountMeta::new(self.drift_usdc_spot_market, false));
        assert(v@ =~= self.metas_seq());
        v
    }
}

} // verus!
