use amm_reflect::math::{calculate_exact_in, calculate_exact_out, REFERENCE_AMOUNT};
use amm_reflect::types::{AdapterError, Address, SwapMode, SwapParams, TradeRequest};
use amm_reflect::{AdapterConfig, ReflectAmm};

fn addr(n: u64) -> Address {
    Address { w0: n, w1: 0, w2: 0, w3: 0 }
}

fn test_config() -> AdapterConfig {
    AdapterConfig {
        label: String::from("ReflectAmm"),
        program_id: addr(1),
        main: addr(2),
        usdc_plus_controller: addr(3),
        admin_permissions: addr(4),
        usdc_plus_mint: addr(5),
        controller_usdc_ata: addr(6),
        drift_program: addr(7),
        drift_state: addr(8),
        drift_user_stats: addr(9),
        usdc_plus_drift_user_acc: addr(10),
        drift_spot_market_vault: addr(11),
        drift_vault: addr(12),
        referrer_user_stats: addr(13),
        referrer_user: addr(14),
        drift_usdc_spot_market: addr(15),
        usdc_oracle: addr(16),
        usdc_mint: addr(17),
        token_program: addr(18),
        system_program: addr(19),
        clock_sysvar: addr(20),
    }
}

fn usdc_mint() -> Address {
    addr(17)
}

fn usdc_plus_mint() -> Address {
    addr(5)
}

#[test]
fn test_reflect_amm_accounts_to_update() {
    let amm = ReflectAmm::new(test_config());
    let accounts = amm.get_accounts_to_update();

    assert_eq!(accounts.len(), 4);
    assert!(accounts.contains(&amm.usdc_plus_controller));
    assert!(accounts.contains(&amm.usdc_plus_drift_user_acc));
    assert!(accounts.contains(&amm.usdc_plus_mint));
    assert!(accounts.contains(&amm.drift_usdc_spot_market));
}

#[test]
fn test_reflect_amm_quote_usdc_to_usdc_plus() {
    let mut amm = ReflectAmm::new(test_config());
    amm.refresh(99_500_000, 100_502_512);

    // Quote for 100 USDC (6 decimals)
    let in_amount: u64 = 100_000_000;
    let quote = amm
        .quote(&TradeRequest {
            amount: in_amount,
            input_mint: usdc_mint(),
            output_mint: usdc_plus_mint(),
            swap_mode: SwapMode::ExactIn,
        })
        .unwrap();

    assert!(quote.out_amount > 0, "Output amount should be > 0");
    assert_eq!(quote.in_amount, in_amount);
    assert_eq!(quote.fee_amount, 0);
}

#[test]
fn test_reflect_amm_quote_usdc_plus_to_usdc() {
    let mut amm = ReflectAmm::new(test_config());
    amm.refresh(99_500_000, 100_502_512);

    // Quote for 100 USDC+ (6 decimals).
    let in_amount: u64 = 100_000_000;
    let quote = amm
        .quote(&TradeRequest {
            amount: in_amount,
            input_mint: usdc_plus_mint(),
            output_mint: usdc_mint(),
            swap_mode: SwapMode::ExactIn,
        })
        .unwrap();

    assert!(quote.out_amount > 0, "Output amount should be > 0");
    assert_eq!(quote.in_amount, in_amount);
    assert_eq!(quote.fee_amount, 0);
}

#[test]
fn test_reflect_amm_quote_roundtrip() {
    let mut amm = ReflectAmm::new(test_config());
    amm.refresh(99_500_000, 100_502_512);

    // Start with 1000 USDC.
    let initial_usdc: u64 = 1_000_000_000;

    // USDC -> USDC+.
    let quote1 = amm
        .quote(&TradeRequest {
            amount: initial_usdc,
            input_mint: usdc_mint(),
            output_mint: usdc_plus_mint(),
            swap_mode: SwapMode::ExactIn,
        })
        .unwrap();

    // USDC+ -> USDC.
    let quote2 = amm
        .quote(&TradeRequest {
            amount: quote1.out_amount,
            input_mint: usdc_plus_mint(),
            output_mint: usdc_mint(),
            swap_mode: SwapMode::ExactIn,
        })
        .unwrap();

    // Should get back approximately the same amount (within some tolerance due to rounding).
    let diff = (initial_usdc as i64 - quote2.out_amount as i64).abs();
    let tolerance = initial_usdc / 10000; // 0.01% tolerance
    assert!(
        diff <= tolerance as i64,
        "Roundtrip should be approximately equal: {} vs {} (diff: {})",
        initial_usdc,
        quote2.out_amount,
        diff
    );
}

#[test]
fn test_reflect_amm_quote_invalid_mint() {
    let amm = ReflectAmm::new(test_config());

    let invalid_mint = addr(999);
    let result = amm.quote(&TradeRequest {
        amount: 100_000_000,
        input_mint: invalid_mint,
        output_mint: usdc_plus_mint(),
        swap_mode: SwapMode::ExactIn,
    });

    assert!(result.is_err(), "Should fail with invalid input mint");
}

#[test]
fn test_reflect_amm_swap_and_account_metas_deposit() {
    let amm = ReflectAmm::new(test_config());

    let user = addr(100);
    let user_usdc_ata = addr(101);
    let user_usdc_plus_ata = addr(102);

    let swap_params = SwapParams {
        source_mint: usdc_mint(),
        destination_mint: usdc_plus_mint(),
        source_token_account: user_usdc_ata,
        destination_token_account: user_usdc_plus_ata,
        token_transfer_authority: user,
    };

    let result = amm.get_swap_and_account_metas(&swap_params).unwrap();

    assert!(!result.account_metas.is_empty());
    // First account should be the user (signer)
    assert_eq!(result.account_metas[0].pubkey, user);
    assert!(result.account_metas[0].is_signer);
}

#[test]
fn test_reflect_amm_swap_and_account_metas_withdraw() {
    let amm = ReflectAmm::new(test_config());

    let user = addr(100);
    let user_usdc_ata = addr(101);
    let user_usdc_plus_ata = addr(102);

    let swap_params = SwapParams {
        source_mint: usdc_plus_mint(),
        destination_mint: usdc_mint(),
        source_token_account: user_usdc_plus_ata,
        destination_token_account: user_usdc_ata,
        token_transfer_authority: user,
    };

    let result = amm.get_swap_and_account_metas(&swap_params).unwrap();

    assert!(!result.account_metas.is_empty());
    assert_eq!(result.account_metas[0].pubkey, user);
    assert!(result.account_metas[0].is_signer);
}

#[test]
fn test_reflect_amm_swap_invalid_mint_pair() {
    let amm = ReflectAmm::new(test_config());

    let user = addr(100);
    let invalid_mint = addr(999);

    let swap_params = SwapParams {
        source_mint: invalid_mint,
        destination_mint: usdc_plus_mint(),
        source_token_account: addr(101),
        destination_token_account: addr(102),
        token_transfer_authority: user,
    };

    let result = amm.get_swap_and_account_metas(&swap_params);
    assert!(result.is_err(), "Should fail with invalid mint pair");
}

#[test]
fn test_reflect_amm_swap_same_mint() {
    let amm = ReflectAmm::new(test_config());

    let user = addr(100);

    let swap_params = SwapParams {
        source_mint: usdc_mint(),
        destination_mint: usdc_mint(), // Same mint!
        source_token_account: addr(101),
        destination_token_account: addr(102),
        token_transfer_authority: user,
    };

    let result = amm.get_swap_and_account_metas(&swap_params);
    assert!(
        result.is_err(),
        "Should fail when source and destination mint are the same"
    );
}

#[test]
fn test_reflect_amm_clone() {
    let amm = ReflectAmm::new(test_config());
    let cloned = amm.clone();

    assert_eq!(cloned.label(), amm.label());
    assert_eq!(cloned.program_id(), amm.program_id());
    assert_eq!(cloned.key(), amm.key());
}

#[test]
fn test_quote_concrete_scenario() {
    // 100 base -> 99.5 receipt at 6-decimal denomination.
    let mut amm = ReflectAmm::new(test_config());
    amm.refresh(99_500_000, 0);

    let exact_in = amm
        .quote(&TradeRequest {
            amount: 100_000_000,
            input_mint: usdc_mint(),
            output_mint: usdc_plus_mint(),
            swap_mode: SwapMode::ExactIn,
        })
        .unwrap();
    assert_eq!(exact_in.out_amount, 99_500_000);
    assert_eq!(exact_in.in_amount, 100_000_000);
    assert_eq!(exact_in.fee_amount, 0);
    assert_eq!(exact_in.fee_mint, usdc_mint());

    let exact_out = amm
        .quote(&TradeRequest {
            amount: 50_000_000,
            input_mint: usdc_mint(),
            output_mint: usdc_plus_mint(),
            swap_mode: SwapMode::ExactOut,
        })
        .unwrap();
    // ceil(50_000_000 * 100_000_000 / 99_500_000) = 50_251_257
    assert_eq!(exact_out.in_amount, 50_251_257);
    assert_eq!(exact_out.out_amount, 50_000_000);
    assert_eq!(exact_out.fee_amount, 0);
}

#[test]
fn test_calculate_exact_in_values() {
    assert_eq!(calculate_exact_in(100_000_000, 99_500_000), Ok(99_500_000));
    assert_eq!(calculate_exact_in(0, 99_500_000), Ok(0));
    // floor rounding: 1 unit in at a sub-par rate.
    assert_eq!(calculate_exact_in(1, 99_500_000), Ok(0));
    assert_eq!(calculate_exact_in(3, REFERENCE_AMOUNT / 2), Ok(1));
    // rate 0 yields 0 output for any amount; the error path belongs to quote.
    assert_eq!(calculate_exact_in(123_456, 0), Ok(0));
    assert_eq!(
        calculate_exact_in(u64::MAX, u64::MAX),
        Err(AdapterError::ArithmeticOverflow)
    );
}

#[test]
fn test_calculate_exact_out_values() {
    assert_eq!(calculate_exact_out(50_000_000, 99_500_000), Ok(50_251_257));
    // exact division: no rounding up needed.
    assert_eq!(
        calculate_exact_out(99_500_000, REFERENCE_AMOUNT),
        Ok(99_500_000)
    );
    assert_eq!(calculate_exact_out(0, 99_500_000), Ok(0));
    assert_eq!(
        calculate_exact_out(1_000_000, 0),
        Err(AdapterError::RateUnavailable)
    );
    assert_eq!(
        calculate_exact_out(u64::MAX, 1),
        Err(AdapterError::ArithmeticOverflow)
    );
}

#[test]
fn test_exact_out_input_covers_requested_output() {
    // Feeding the rounded-up exact-out input back through exact-in returns
    // at least the requested amount.
    let rate: u64 = 99_500_000;
    for amount in [1u64, 7, 999, 50_000_000, 123_456_789] {
        let needed_in = calculate_exact_out(amount, rate).unwrap();
        let produced_out = calculate_exact_in(needed_in, rate).unwrap();
        assert!(
            produced_out >= amount,
            "exact-out input {} produced only {} of requested {}",
            needed_in,
            produced_out,
            amount
        );
    }
}

#[test]
fn test_quote_unsupported_asset_both_modes() {
    let mut amm = ReflectAmm::new(test_config());
    amm.refresh(99_500_000, 100_502_512);
    for mode in [SwapMode::ExactIn, SwapMode::ExactOut] {
        let result = amm.quote(&TradeRequest {
            amount: 100_000_000,
            input_mint: addr(888),
            output_mint: usdc_plus_mint(),
            swap_mode: mode,
        });
        assert_eq!(result, Err(AdapterError::UnsupportedAsset));
    }
}

#[test]
fn test_quote_rate_unavailable_both_modes() {
    // Freshly constructed: both rates are zero.
    let amm = ReflectAmm::new(test_config());
    for (input, output) in [
        (usdc_mint(), usdc_plus_mint()),
        (usdc_plus_mint(), usdc_mint()),
    ] {
        for mode in [SwapMode::ExactIn, SwapMode::ExactOut] {
            let result = amm.quote(&TradeRequest {
                amount: 100_000_000,
                input_mint: input,
                output_mint: output,
                swap_mode: mode,
            });
            assert_eq!(result, Err(AdapterError::RateUnavailable));
        }
    }
}

#[test]
fn test_quote_overflow_error() {
    let mut amm = ReflectAmm::new(test_config());
    amm.refresh(u64::MAX, 1);
    let result = amm.quote(&TradeRequest {
        amount: u64::MAX,
        input_mint: usdc_mint(),
        output_mint: usdc_plus_mint(),
        swap_mode: SwapMode::ExactIn,
    });
    assert_eq!(result, Err(AdapterError::ArithmeticOverflow));

    let result = amm.quote(&TradeRequest {
        amount: u64::MAX,
        input_mint: usdc_plus_mint(),
        output_mint: usdc_mint(),
        swap_mode: SwapMode::ExactOut,
    });
    assert_eq!(result, Err(AdapterError::ArithmeticOverflow));
}

#[test]
fn test_swap_plan_full_account_table() {
    let amm = ReflectAmm::new(test_config());

    let user = addr(100);
    let user_usdc_ata = addr(101);
    let user_usdc_plus_ata = addr(102);

    let deposit = amm
        .get_swap_and_account_metas(&SwapParams {
            source_mint: usdc_mint(),
            destination_mint: usdc_plus_mint(),
            source_token_account: user_usdc_ata,
            destination_token_account: user_usdc_plus_ata,
            token_transfer_authority: user,
        })
        .unwrap();

    // (address, writable, signer) in the exact on-chain order.
    let expected = [
        (user, true, true),
        (amm.main, true, false),
        (amm.usdc_plus_controller, true, false),
        (amm.admin_permissions, false, false),
        (user_usdc_plus_ata, true, false),
        (user_usdc_ata, true, false),
        (amm.controller_usdc_ata, true, false),
        (amm.usdc_plus_mint, true, false),
        (amm.drift_program, false, false),
        (amm.drift_state, true, false),
        (amm.drift_user_stats, true, false),
        (amm.referrer_user_stats, true, false),
        (amm.referrer_user, true, false),
        (amm.usdc_plus_drift_user_acc, true, false),
        (amm.drift_spot_market_vault, true, false),
        (amm.drift_vault, true, false),
        (amm.token_program, false, false),
        (amm.system_program, false, false),
        (amm.clock_sysvar, false, false),
        (amm.usdc_oracle, true, false),
        (amm.drift_usdc_spot_market, true, false),
    ];

    assert_eq!(deposit.account_metas.len(), 21);
    for (i, (pubkey, writable, signer)) in expected.iter().enumerate() {
        assert_eq!(deposit.account_metas[i].pubkey, *pubkey, "entry {}", i + 1);
        assert_eq!(
            deposit.account_metas[i].is_writable,
            *writable,
            "entry {} writable flag",
            i + 1
        );
        assert_eq!(
            deposit.account_metas[i].is_signer,
            *signer,
            "entry {} signer flag",
            i + 1
        );
    }

    // The withdraw direction swaps only the two user token-account roles.
    let withdraw = amm
        .get_swap_and_account_metas(&SwapParams {
            source_mint: usdc_plus_mint(),
            destination_mint: usdc_mint(),
            source_token_account: user_usdc_plus_ata,
            destination_token_account: user_usdc_ata,
            token_transfer_authority: user,
        })
        .unwrap();
    assert_eq!(withdraw.account_metas.len(), 21);
    assert_eq!(withdraw.account_metas[4].pubkey, user_usdc_plus_ata);
    assert_eq!(withdraw.account_metas[5].pubkey, user_usdc_ata);
    for i in 0..21 {
        assert_eq!(withdraw.account_metas[i], deposit.account_metas[i], "entry {}", i + 1);
    }
}

#[test]
fn test_refresh_replaces_both_rates() {
    let mut amm = ReflectAmm::new(test_config());
    assert_eq!(amm.rate_100_usdc, 0);
    assert_eq!(amm.rate_100_usdc_plus, 0);
    amm.refresh(11, 22);
    assert_eq!(amm.rate_100_usdc, 11);
    assert_eq!(amm.rate_100_usdc_plus, 22);
    amm.refresh(33, 44);
    assert_eq!(amm.rate_100_usdc, 33);
    assert_eq!(amm.rate_100_usdc_plus, 44);
}

#[test]
fn test_get_reserve_mints() {
    let amm = ReflectAmm::new(test_config());
    let mints = amm.get_reserve_mints();
    assert_eq!(mints, vec![usdc_mint(), usdc_plus_mint()]);
    assert!(amm.supports_exact_out());
}
