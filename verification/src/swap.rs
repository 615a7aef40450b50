//! The closed set of swap instruction shapes, one variant per supported
//! on-chain program, plus the remaining-accounts slicing sub-protocol.

use vstd::prelude::*;

use crate::pubkey::Pubkey;

verus! {

/// One entry of the ordered account-metadata list an instruction expects:
/// an address plus its signer and writability flags.
#[derive(Clone, Copy, Debug, Eq, PartialEq)]
pub struct AccountMeta {
    pub pubkey: Pubkey,
    pub is_signer: bool,
    pub is_writable: bool,
}

impl AccountMeta {
    /// A writable account entry.
    pub fn new(pubkey: Pubkey, is_signer: bool) -> (r: AccountMeta)
        ensures
            r == (AccountMeta { pubkey, is_signer, is_writable: true }),
    {
        AccountMeta { pubkey, is_signer, is_writable: true }
    }

    /// A readonly account entry.
    pub fn new_readonly(pubkey: Pubkey, is_signer: bool) -> (r: AccountMeta)
        ensures
            r == (AccountMeta { pubkey, is_signer, is_writable: false }),
    {
        AccountMeta { pubkey, is_signer, is_writable: false }
    }
}

/// The side of an order-book trade.
#[derive(Copy, Clone, Debug, PartialEq)]
pub enum Side {
    Bid,
    Ask,
}

/// One variant per supported on-chain program instruction shape.
///
/// Each variant carries only the minimal extra data the instruction needs
/// beyond the generic account list, so that instruction building stays a
/// total, exhaustive match.
#[derive(Clone, Debug, PartialEq)]
pub enum Swap {
    Saber,
    SaberAddDecimalsDeposit,
    SaberAddDecimalsWithdraw,
    TokenSwap,
    Raydium,
    Crema { a_to_b: bool },
    Mercurial,
    Aldrin { side: Side },
    AldrinV2 { side: Side },
    Whirlpool { a_to_b: bool },
    Invariant { x_to_y: bool },
    Meteora,
    MarcoPolo { x_to_y: bool },
    LifinityV2,
    RaydiumClmm,
    Phoenix { side: Side },
    TokenSwapV2,
    HeliumTreasuryManagementRedeemV0,
    StakeDexStakeWrappedSol,
    MeteoraDlmm,
    OpenBookV2 { side: Side },
    RaydiumClmmV2,
    StakeDexPrefundWithdrawStakeAndDepositStake { bridge_stake_seed: u32 },
    SanctumS {
        src_lst_value_calc_accs: u8,
        dst_lst_value_calc_accs: u8,
        src_lst_index: u32,
        dst_lst_index: u32,
    },
    SanctumSAddLiquidity { lst_value_calc_accs: u8, lst_index: u32 },
    SanctumSRemoveLiquidity { lst_value_calc_accs: u8, lst_index: u32 },
    RaydiumCP,
    WhirlpoolSwapV2 {
        a_to_b: bool,
        remaining_accounts_info: Option<RemainingAccountsInfo>,
    },
    OneIntro,
    PumpWrappedBuy,
    PumpWrappedSell,
    PerpsV2,
    PerpsV2AddLiquidity,
    PerpsV2RemoveLiquidity,
    MoonshotWrappedBuy,
    MoonshotWrappedSell,
    StabbleStableSwap,
    StabbleWeightedSwap,
    Obric { x_to_y: bool },
    SolFi { is_quote_to_base: bool },
    SolayerDelegateNoInit,
    SolayerUndelegateNoInit,
    ZeroFi,
    StakeDexWithdrawWrappedSol,
    VirtualsBuy,
    VirtualsSell,
    Perena { in_index: u8, out_index: u8 },
    PumpSwapBuy,
    PumpSwapSell,
    Gamma,
    MeteoraDlmmSwapV2 { remaining_accounts_info: RemainingAccountsInfo },
    Woofi,
    MeteoraDammV2,
    StabbleStableSwapV2,
    StabbleWeightedSwapV2,
    RaydiumLaunchlabBuy { share_fee_rate: u64 },
    RaydiumLaunchlabSell { share_fee_rate: u64 },
    BoopdotfunWrappedBuy,
    BoopdotfunWrappedSell,
    Plasma { side: Side },
    GoonFi { is_bid: bool, blacklist_bump: u8 },
    HumidiFi { swap_id: u64, is_base_to_quote: bool },
    MeteoraDynamicBondingCurveSwapWithRemainingAccounts,
    TesseraV { side: Side },
    Hylo { in_token: HyloToken, out_token: HyloToken },
}

/// The tokens of the Hylo program that a swap can move between.
#[derive(Clone, Copy, Debug, PartialEq, Eq)]
pub enum HyloToken {
    HYUSD,
    XSOL,
    SHYUSD,
    JITOSOL,
}

/// The purpose of one typed group of trailing accounts.
#[derive(Clone, Copy, Debug, PartialEq, Eq)]
pub enum AccountsType {
    TransferHookA,
    TransferHookB,
}

/// Declares that the next `length` trailing accounts belong to
/// `accounts_type`.
#[derive(Clone, Copy, Debug, PartialEq)]
pub struct RemainingAccountsSlice {
    pub accounts_type: AccountsType,
    pub length: u8,
}

/// An ordered partition of a trailing, variable-length region of an account
/// list into typed sub-slices. Order is significant: it must match the
/// on-chain program's expected layout exactly.
#[derive(Clone, Debug, PartialEq)]
pub struct RemainingAccountsInfo {
    pub slices: Vec<RemainingAccountsSlice>,
}

/// The number of trailing accounts a slice declaration claims in total.
pub open spec fn spec_total_length(slices: Seq<RemainingAccountsSlice>) -> int
    decreases slices.len(),
{
    if slices.len() == 0 {
        0
    } else {
        spec_total_length(slices.drop_last()) + slices.last().length
    }
}

/// The declared total never goes down when slices are dropped from the end.
proof fn lemma_total_length_take_le(slices: Seq<RemainingAccountsSlice>, i: int)
    requires
        0 <= i <= slices.len(),
    ensures
        0 <= spec_total_length(slices.take(i)) <= spec_total_length(slices),
    decreases slices.len() - i,
{
    if i == slices.len() {
        assert(slices.take(i) =~= slices);
        lemma_total_length_nonneg(slices);
    } else {
        assert(slices.drop_last().take(i) =~= slices.take(i));
        lemma_total_length_take_le(slices.drop_last(), i);
        assert(slices.last().length >= 0);
    }
}

/// The declared total is never negative.
proof fn lemma_total_length_nonneg(slices: Seq<RemainingAccountsSlice>)
    ensures
        spec_total_length(slices) >= 0,
    decreases slices.len(),
{
    if slices.len() > 0 {
        lemma_total_length_nonneg(slices.drop_last());
    }
}

/// The concatenation of the account groups of a partition, in order.
pub open spec fn flattened_groups(parts: Seq<(AccountsType, Vec<AccountMeta>)>) -> Seq<
    AccountMeta,
>
    decreases parts.len(),
{
    if parts.len() == 0 {
        Seq::empty()
    } else {
        flattened_groups(parts.drop_last()) + parts.last().1@
    }
}

impl RemainingAccountsInfo {
    /// Sums the declared slice lengths.
    pub fn total_length(&self) -> (n: u64)
        requires
            spec_total_length(self.slices@) <= u64::MAX,
        ensures
            n == spec_total_length(self.slices@),
    {
        let m = self.slices.len();
        let mut n: u64 = 0;
        let mut i: usize = 0;
        proof {
            assert(self.slices@.take(0) =~= Seq::<RemainingAccountsSlice>::empty());
        }
        while i < m
            invariant
                i <= m == self.slices@.len(),
                n == spec_total_length(self.slices@.take(i as int)),
                spec_total_length(self.slices@) <= u64::MAX,
            decreases m - i,
        {
            proof {
                assert(self.slices@.take(i + 1).drop_last() =~= self.slices@.take(i as int));
                assert(self.slices@.take(i + 1).last() == self.slices@[i as int]);
                lemma_total_length_take_le(self.slices@, i + 1);
            }
            n = n + self.slices[i].length as u64;
            i = i + 1;
        }
        proof {
            assert(self.slices@.take(m as int) =~= self.slices@);
        }
        n
    }

    /// Partitions a trailing account list according to the declaration:
    /// one typed group per slice, in order, whose concatenation is exactly
    /// the trailing list. A mismatch between the declared lengths and the
    /// trailing list yields nothing; it is a caller error.
    pub fn split_trailing(&self, trailing: &Vec<AccountMeta>) -> (r: Option<
        Vec<(AccountsType, Vec<AccountMeta>)>,
    >)
        ensures
            match r {
                Some(parts) => {
                    &&& spec_total_length(self.slices@) == trailing@.len()
                    &&& parts@.len() == self.slices@.len()
                    &&& forall|i: int|
                        0 <= i < parts@.len() ==> #[trigger] parts@[i].0 == self.slices@[
                            i
                        ].accounts_type && parts@[i].1@.len() == self.slices@[i].length
                    &&& flattened_groups(parts@) == trailing@
                },
                None => spec_total_length(self.slices@) != trailing@.len(),
            },
    {
        let m = self.slices.len();
        let total = trailing.len();
        let mut parts: Vec<(AccountsType, Vec<AccountMeta>)> = Vec::new();
        let mut offset: usize = 0;
        let mut i: usize = 0;
        proof {
            assert(self.slices@.take(0) =~= Seq::<RemainingAccountsSlice>::empty());
            assert(flattened_groups(parts@) =~= trailing@.take(0));
        }
        while i < m
            invariant
                i <= m == self.slices@.len(),
                offset <= total == trailing@.len(),
                offset == spec_total_length(self.slices@.take(i as int)),
                parts@.len() == i,
                forall|j: int|
                    0 <= j < i ==> #[trigger] parts@[j].0 == self.slices@[j].accounts_type
                        && parts@[j].1@.len() == self.slices@[j].length,
                flattened_groups(parts@) == trailing@.take(offset as int),
            decreases m - i,
        {
            let declared = self.slices[i].length as usize;
            proof {
                assert(self.slices@.take(i + 1).drop_last() =~= self.slices@.take(i as int));
                assert(self.slices@.take(i + 1).last() == self.slices@[i as int]);
            }
            if declared > total - offset {
                proof {
                    lemma_total_length_take_le(self.slices@, i + 1);
                }
                return None;
            }
            let mut group: Vec<AccountMeta> = Vec::new();
            let mut k: usize = 0;
            while k < declared
                invariant
                    k <= declared,
                    offset + declared <= total,
                    total == trailing@.len(),
                    group@.len() == k,
                    group@ =~= trailing@.subrange(offset as int, offset + k),
                decreases declared - k,
            {
                group.push(trailing[offset + k]);
                proof {
                    assert(group@ =~= trailing@.subrange(offset as int, offset + k + 1));
                }
                k = k + 1;
            }
            let ghost old_parts = parts@;
            let ghost old_offset = offset as int;
            parts.push((self.slices[i].accounts_type, group));
            offset = offset + declared;
            i = i + 1;
            proof {
                assert(parts@.drop_last() =~= old_parts);
                assert(trailing@.take(offset as int) =~= trailing@.take(old_offset)
                    + trailing@.subrange(old_offset, offset as int));
            }
        }
        proof {
            assert(self.slices@.take(m as int) =~= self.slices@);
        }
        if offset != total {
            return None;
        }
        proof {
            assert(trailing@.take(total as int) =~= trailing@);
        }
        Some(parts)
    }
}

} // verus!
