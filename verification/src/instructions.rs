//! The operations, one module each.

pub mod claim_staking;
pub mod init_staking;
pub mod migrate_escrow;
pub mod migrate_staking;
pub mod set_fees_exempt;
pub mod set_staking;
pub mod stake_meta;
pub mod stake_nft;
pub mod stake_ocp;
pub mod unstake_meta;
pub mod unstake_mpl;
pub mod unstake_mpl_custodial;
pub mod unstake_nft;
pub mod unstake_ocp;
pub mod withdraw_rewards;
