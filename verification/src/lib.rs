//! The rules of the Miracle prize pool: what each paid game action costs, how a
//! payment is split between a vault and the protocol fee recipient, who may
//! administer the pool, and how lamports leave its vaults.

pub mod accounts;
pub mod address;
pub mod admission_laws;
pub mod error;
pub mod fees;
pub mod instructions;
pub mod laws;
pub mod ledger;
pub mod operation_laws;
pub mod pubkey;
pub mod rent;
pub mod state;
pub mod transfer;

pub use accounts::{
    Account, AccountInfo, AuthoritySend, DepositFlat, DepositPvpSessionAddon, Initialize,
    PvpAddonAuthorityWithdraw, PvpAddonClose, PvpAddonSkimFeeToMain, SetAuthority,
};
pub use error::{AccountError, Error, ErrorCode};
pub use fees::{main_pool_action_lamports, split_deposit_lamports};
pub use instructions::{
    authority_send, deposit_action, deposit_pvp_session_addon, initialize,
    pvp_addon_authority_withdraw, pvp_addon_close, pvp_addon_skim_fee_to_main, set_action_fee,
    set_authority, set_dev_fee_recipient,
};
pub use ledger::{Holding, Ledger, LedgerAccount};
pub use pubkey::Pubkey;
pub use rent::Rent;
pub use state::{PoolState, SubVaultMarker};
pub use transfer::Transfer;
