use vstd::prelude::*;
use anchor_lang::prelude::Pubkey;
use crate::states::{PlatformConfig, PresaleConfig, UserAllocation};

verus! {

/// What setting up the platform works on.
#[derive(Clone, Copy, Debug)]
pub struct Initialize {
    pub platform_config: PlatformConfig,
    /// Currency in which the platform charges its fee.
    pub fee_mint: Pubkey,
    /// Who sets the platform up and collects the fees.
    pub platform_wallet: Pubkey,
}

/// What opening a presale works on.
#[derive(Clone, Copy, Debug)]
pub struct InitializePresale {
    pub platform_config: PlatformConfig,
    /// The record the presale is set up in.
    pub presale_config: PresaleConfig,
    pub creator: Pubkey,
    pub base_mint: Pubkey,
    pub new_mint: Pubkey,
}

/// What a purchase or a sale works on: the presale and the caller's own
/// holdings in it.
#[derive(Clone, Copy, Debug)]
pub struct BuySellPretoken {
    pub presale_config: PresaleConfig,
    pub user_allocation: UserAllocation,
}

/// What finalization works on.
#[derive(Clone, Copy, Debug)]
pub struct FinalizePresale {
    pub presale_config: PresaleConfig,
}

/// What settlement works on: the presale and the caller's own holdings in it.
#[derive(Clone, Copy, Debug)]
pub struct ClaimOrRefund {
    pub presale_config: PresaleConfig,
    pub user_allocation: UserAllocation,
}

/// The presale's own signing authority: the seeds of the address derived
/// for the presale record. No person holds a key to it. Whatever leaves the
/// vault, and whatever is minted, is signed for with it.
#[derive(Clone, Copy, Debug)]
pub struct PresaleAuthority {
    pub creator: Pubkey,
    pub bump: u8,
}

/// An amount for the ledger to move to the caller, on the presale's own
/// authority.
#[derive(Clone, Copy, Debug)]
pub struct AuthorizedAmount {
    pub amount: u64,
    pub authority: PresaleAuthority,
}

} // verus!
