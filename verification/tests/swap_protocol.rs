use amm_interface::AccountMeta;
use amm_interface::AccountsType;
use amm_interface::AmmError;
use amm_interface::CandidateSwap;
use amm_interface::Pubkey;
use amm_interface::RemainingAccountsInfo;
use amm_interface::RemainingAccountsSlice;
use amm_interface::Side;
use amm_interface::Swap;
use amm_interface::SwapMode;
use amm_interface::SwapParams;

fn key(tag: u8) -> Pubkey {
    let mut bytes = [0u8; 32];
    bytes[7] = tag;
    Pubkey::new(bytes)
}

#[test]
fn narrowing_succeeds_on_the_candidate_subset() {
    assert_eq!(CandidateSwap::try_from(Swap::Saber), Ok(CandidateSwap::Saber));
    assert_eq!(
        CandidateSwap::try_from(Swap::Whirlpool { a_to_b: true }),
        Ok(CandidateSwap::Whirlpool { a_to_b: true })
    );
    assert_eq!(
        CandidateSwap::try_from(Swap::Whirlpool { a_to_b: false }),
        Ok(CandidateSwap::Whirlpool { a_to_b: false })
    );
    assert_eq!(
        CandidateSwap::try_from(Swap::Phoenix { side: Side::Ask }),
        Ok(CandidateSwap::Phoenix { side: Side::Ask })
    );
    assert_eq!(
        CandidateSwap::try_from(Swap::SolFi { is_quote_to_base: true }),
        Ok(CandidateSwap::SolFi { is_quote_to_base: true })
    );
}

#[test]
fn narrowing_fails_outside_the_candidate_subset() {
    assert_eq!(
        CandidateSwap::try_from(Swap::Mercurial),
        Err(AmmError::InvalidCandidate { swap: Swap::Mercurial })
    );
    assert_eq!(
        CandidateSwap::try_from(Swap::Aldrin { side: Side::Bid }),
        Err(AmmError::InvalidCandidate { swap: Swap::Aldrin { side: Side::Bid } })
    );
    let nested = Swap::MeteoraDlmmSwapV2 {
        remaining_accounts_info: RemainingAccountsInfo { slices: vec![] },
    };
    assert_eq!(
        CandidateSwap::try_from(nested.clone()),
        Err(AmmError::InvalidCandidate { swap: nested })
    );
}

#[test]
fn widening_returns_the_narrowed_swap() {
    let candidates = vec![
        CandidateSwap::Saber,
        CandidateSwap::Raydium,
        CandidateSwap::Whirlpool { a_to_b: true },
        CandidateSwap::Invariant { x_to_y: false },
        CandidateSwap::Phoenix { side: Side::Bid },
        CandidateSwap::Obric { x_to_y: true },
    ];
    for candidate in candidates {
        let widened = candidate.widen();
        assert_eq!(CandidateSwap::try_from(widened), Ok(candidate));
    }
}

#[test]
fn total_length_sums_the_declared_slices() {
    let info = RemainingAccountsInfo {
        slices: vec![
            RemainingAccountsSlice { accounts_type: AccountsType::TransferHookA, length: 2 },
            RemainingAccountsSlice { accounts_type: AccountsType::TransferHookB, length: 3 },
        ],
    };
    assert_eq!(info.total_length(), 5);
    let empty = RemainingAccountsInfo { slices: vec![] };
    assert_eq!(empty.total_length(), 0);
}

#[test]
fn split_trailing_partitions_in_declared_order() {
    let info = RemainingAccountsInfo {
        slices: vec![
            RemainingAccountsSlice { accounts_type: AccountsType::TransferHookA, length: 2 },
            RemainingAccountsSlice { accounts_type: AccountsType::TransferHookB, length: 1 },
        ],
    };
    let trailing = vec![
        AccountMeta::new(key(1), false),
        AccountMeta::new_readonly(key(2), false),
        AccountMeta::new_readonly(key(3), true),
    ];
    let parts = info.split_trailing(&trailing).expect("lengths match");
    assert_eq!(parts.len(), 2);
    assert_eq!(parts[0].0, AccountsType::TransferHookA);
    assert_eq!(parts[0].1, vec![trailing[0], trailing[1]]);
    assert_eq!(parts[1].0, AccountsType::TransferHookB);
    assert_eq!(parts[1].1, vec![trailing[2]]);
}

#[test]
fn split_trailing_rejects_a_mismatch() {
    let info = RemainingAccountsInfo {
        slices: vec![
            RemainingAccountsSlice { accounts_type: AccountsType::TransferHookA, length: 2 },
        ],
    };
    let too_short = vec![AccountMeta::new(key(1), false)];
    assert!(info.split_trailing(&too_short).is_none());
    let too_long = vec![
        AccountMeta::new(key(1), false),
        AccountMeta::new(key(2), false),
        AccountMeta::new(key(3), false),
    ];
    assert!(info.split_trailing(&too_long).is_none());
}

#[test]
fn placeholder_account_meta_uses_the_aggregator_program() {
    let program = key(11);
    let params = SwapParams {
        swap_mode: SwapMode::ExactIn,
        in_amount: 100,
        out_amount: 99,
        source_mint: key(1),
        destination_mint: key(2),
        source_token_account: key(3),
        destination_token_account: key(4),
        token_transfer_authority: key(5),
        open_order_address: None,
        quote_mint_to_referrer: None,
        jupiter_program_id: &program,
        missing_dynamic_accounts_as_default: false,
    };
    let placeholder = params.placeholder_account_meta();
    assert_eq!(placeholder.pubkey, program);
    assert!(!placeholder.is_signer);
    assert!(!placeholder.is_writable);
}

#[test]
fn account_meta_constructors_set_the_flags() {
    let writable = AccountMeta::new(key(1), true);
    assert!(writable.is_writable && writable.is_signer);
    let readonly = AccountMeta::new_readonly(key(1), false);
    assert!(!readonly.is_writable && !readonly.is_signer);
}
