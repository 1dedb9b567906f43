//! The accounts that each instruction takes, and what is asked of them.
//!
//! An instruction runs only on accounts that meet every constraint declared for it here.
//! The lamports of the accounts stand in a `Ledger`, under their addresses.

use vstd::prelude::*;

use crate::address::{
    address_view, created_program_address, derived_with_bump, find_pvp_addon_address,
    find_state_address, find_vault_address, found_program_address, found_view, pvp_addon_seeds,
    state_address, state_seeds, vault_address, vault_seeds, ID,
};
use crate::error::AccountError;
use crate::pubkey::Pubkey;
use crate::state::{PoolState, SubVaultMarker};

verus! {

/// How a transaction names an account.
#[derive(Clone, Copy, Debug)]
pub struct AccountInfo {
    pub key: Pubkey,
    /// The account signed the transaction.
    pub is_signer: bool,
    /// The transaction may change the account.
    pub is_writable: bool,
}

/// An account of the program together with what it stores.
#[derive(Debug)]
pub struct Account<T> {
    pub info: AccountInfo,
    pub data: T,
}

/// `one`, or `other` where `one` finds nothing.
pub open spec fn first(one: Option<AccountError>, other: Option<AccountError>) -> Option<
    AccountError,
> {
    if one is Some {
        one
    } else {
        other
    }
}

/// Finds an account that did not sign.
pub open spec fn signer_error(info: AccountInfo) -> Option<AccountError> {
    if info.is_signer {
        None
    } else {
        Some(AccountError::AccountNotSigner)
    }
}

/// Finds an account that is not writable.
pub open spec fn writable_error(info: AccountInfo) -> Option<AccountError> {
    if info.is_writable {
        None
    } else {
        Some(AccountError::ConstraintMut)
    }
}

/// Finds an account that is not the one recorded.
pub open spec fn address_error(info: AccountInfo, recorded: Pubkey) -> Option<AccountError> {
    if info.key@ == recorded@ {
        None
    } else {
        Some(AccountError::ConstraintAddress)
    }
}

/// Finds an account that is not at the derived address.
pub open spec fn seeds_error(info: AccountInfo, derived: Option<Seq<u8>>) -> Option<AccountError> {
    if derived == Some(info.key@) {
        None
    } else {
        Some(AccountError::ConstraintSeeds)
    }
}

/// Finds an account that is not at the address found.
pub open spec fn found_error(info: AccountInfo, found: Option<(Seq<u8>, u8)>) -> Option<
    AccountError,
> {
    match found {
        Some((key, bump)) => if info.key@ == key {
            None
        } else {
            Some(AccountError::ConstraintSeeds)
        },
        None => Some(AccountError::NoViableBump),
    }
}

/// The state account's address under the bump seed that it records.
pub open spec fn recorded_state_address(state: PoolState) -> Option<Seq<u8>> {
    created_program_address(state_seeds().push(seq![state.bump_state]), ID@)
}

/// The main vault's address under the bump seed that the state records.
pub open spec fn recorded_vault_address(state: PoolState) -> Option<Seq<u8>> {
    created_program_address(vault_seeds().push(seq![state.bump_vault]), ID@)
}

/// The address and bump seed found for the vault of a PvP session.
pub open spec fn session_address(session_key: Seq<u8>) -> Option<(Seq<u8>, u8)> {
    found_program_address(pvp_addon_seeds(session_key), ID@)
}

impl AccountInfo {
    fn check_signer(&self) -> (found: Option<AccountError>)
        ensures
            found == signer_error(*self),
    {
        if self.is_signer {
            None
        } else {
            Some(AccountError::AccountNotSigner)
        }
    }

    fn check_writable(&self) -> (found: Option<AccountError>)
        ensures
            found == writable_error(*self),
    {
        if self.is_writable {
            None
        } else {
            Some(AccountError::ConstraintMut)
        }
    }

    fn check_address(&self, recorded: &Pubkey) -> (found: Option<AccountError>)
        ensures
            found == address_error(*self, *recorded),
    {
        if self.key == *recorded {
            None
        } else {
            Some(AccountError::ConstraintAddress)
        }
    }

    fn check_seeds(&self, derived: Option<Pubkey>) -> (found: Option<AccountError>)
        ensures
            found == seeds_error(*self, address_view(derived)),
    {
        match derived {
            Some(key) if self.key == key => None,
            _ => Some(AccountError::ConstraintSeeds),
        }
    }

    fn check_found(&self, address: Option<(Pubkey, u8)>) -> (found: Option<AccountError>)
        ensures
            found == found_error(*self, found_view(address)),
    {
        match address {
            Some((key, _)) => if self.key == key {
                None
            } else {
                Some(AccountError::ConstraintSeeds)
            },
            None => Some(AccountError::NoViableBump),
        }
    }
}

/// Accounts of `initialize`. The state account and the main vault are created for it, at
/// the payer's cost.
#[derive(Debug)]
pub struct Initialize {
    /// Pays for the new accounts and becomes the pool's authority.
    pub authority: AccountInfo,
    pub pool_state: Account<PoolState>,
    pub pool_vault: Account<SubVaultMarker>,
}

impl Initialize {
    /// The first constraint that the accounts break, if any, given the addresses found for
    /// the state account and the main vault.
    pub open spec fn violation_at(
        &self,
        state: Option<(Seq<u8>, u8)>,
        vault: Option<(Seq<u8>, u8)>,
    ) -> Option<AccountError> {
        first(
            signer_error(self.authority),
            first(
                found_error(self.pool_state.info, state),
                first(
                    writable_error(self.pool_state.info),
                    first(
                        found_error(self.pool_vault.info, vault),
                        first(
                            writable_error(self.pool_vault.info),
                            writable_error(self.authority),
                        ),
                    ),
                ),
            ),
        )
    }

    /// The first constraint that the accounts break, if any.
    pub open spec fn violation(&self) -> Option<AccountError> {
        self.violation_at(
            found_program_address(state_seeds(), ID@),
            found_program_address(vault_seeds(), ID@),
        )
    }

    /// Checks the accounts against the addresses found for them.
    pub fn check_at(&self, state: Option<(Pubkey, u8)>, vault: Option<(Pubkey, u8)>) -> (found:
        Option<AccountError>)
        ensures
            found == self.violation_at(found_view(state), found_view(vault)),
    {
        if let Some(error) = self.authority.check_signer() {
            return Some(error);
        }
        if let Some(error) = self.pool_state.info.check_found(state) {
            return Some(error);
        }
        if let Some(error) = self.pool_state.info.check_writable() {
            return Some(error);
        }
        if let Some(error) = self.pool_vault.info.check_found(vault) {
            return Some(error);
        }
        if let Some(error) = self.pool_vault.info.check_writable() {
            return Some(error);
        }
        self.authority.check_writable()
    }

    /// Checks the accounts and returns the bump seeds of the state account and the vault.
    pub fn check(&self) -> (bumps: Result<(u8, u8), AccountError>)
        ensures
            match bumps {
                Ok((bump_state, bump_vault)) => {
                    &&& self.violation() is None
                    &&& found_program_address(state_seeds(), ID@) == Some(
                        (self.pool_state.info.key@, bump_state),
                    )
                    &&& found_program_address(vault_seeds(), ID@) == Some(
                        (self.pool_vault.info.key@, bump_vault),
                    )
                    &&& derived_with_bump(self.pool_state.info.key@, state_seeds(), bump_state)
                    &&& derived_with_bump(self.pool_vault.info.key@, vault_seeds(), bump_vault)
                },
                Err(error) => self.violation() == Some(error),
            },
    {
        let state = find_state_address();
        let vault = find_vault_address();
        if let Some(error) = self.check_at(state, vault) {
            return Err(error);
        }
        match (state, vault) {
            (Some((_, bump_state)), Some((_, bump_vault))) => Ok((bump_state, bump_vault)),
            _ => Err(AccountError::NoViableBump),
        }
    }
}

/// Accounts of the instructions that change the pool's configuration.
#[derive(Debug)]
pub struct SetAuthority {
    pub pool_state: Account<PoolState>,
    pub authority: AccountInfo,
}

impl SetAuthority {
    /// The first constraint that the accounts break, if any, given the addresses derived
    /// for them.
    pub open spec fn violation_at(&self, state_at: Option<Seq<u8>>) -> Option<AccountError> {
        let state = self.pool_state.data;
        first(
            signer_error(self.authority),
            first(
                seeds_error(self.pool_state.info, state_at),
                first(
                    writable_error(self.pool_state.info),
                    first(
                        writable_error(self.authority),
                        address_error(self.authority, state.authority),
                    ),
                ),
            ),
        )
    }

    /// The first constraint that the accounts break, if any.
    pub open spec fn violation(&self) -> Option<AccountError> {
        self.violation_at(recorded_state_address(self.pool_state.data))
    }

    /// Checks the accounts against the addresses derived for them.
    pub fn check_at(&self, state_at: Option<Pubkey>) -> (found: Option<AccountError>)
        ensures
            found == self.violation_at(address_view(state_at)),
    {
        if let Some(error) = self.authority.check_signer() {
            return Some(error);
        }
        if let Some(error) = self.pool_state.info.check_seeds(state_at) {
            return Some(error);
        }
        if let Some(error) = self.pool_state.info.check_writable() {
            return Some(error);
        }
        if let Some(error) = self.authority.check_writable() {
            return Some(error);
        }
        self.authority.check_address(&self.pool_state.data.authority)
    }

    /// Checks the accounts.
    pub fn check(&self) -> (found: Option<AccountError>)
        ensures
            found == self.violation(),
    {
        self.check_at(state_address(self.pool_state.data.bump_state))
    }
}

/// Accounts of `deposit_action`.
#[derive(Debug)]
pub struct DepositFlat {
    pub user: AccountInfo,
    pub pool_state: Account<PoolState>,
    pub pool_vault: Account<SubVaultMarker>,
    /// The recipient recorded in the pool state.
    pub dev_fee_recipient: AccountInfo,
}

impl DepositFlat {
    /// The first constraint that the accounts break, if any, given the addresses derived
    /// for them.
    pub open spec fn violation_at(
        &self,
        state_at: Option<Seq<u8>>,
        vault_at: Option<Seq<u8>>,
    ) -> Option<AccountError> {
        let state = self.pool_state.data;
        first(
            signer_error(self.user),
            first(
                writable_error(self.user),
                first(
                    seeds_error(self.pool_state.info, state_at),
                    first(
                        seeds_error(self.pool_vault.info, vault_at),
                        first(
                            writable_error(self.pool_vault.info),
                            first(
                                writable_error(self.dev_fee_recipient),
                                address_error(self.dev_fee_recipient, state.dev_fee_recipient),
                            ),
                        ),
                    ),
                ),
            ),
        )
    }

    /// The first constraint that the accounts break, if any.
    pub open spec fn violation(&self) -> Option<AccountError> {
        self.violation_at(
            recorded_state_address(self.pool_state.data),
            recorded_vault_address(self.pool_state.data),
        )
    }

    /// Checks the accounts against the addresses derived for them.
    pub fn check_at(
        &self,
        state_at: Option<Pubkey>,
        vault_at: Option<Pubkey>,
    ) -> (found: Option<AccountError>)
        ensures
            found == self.violation_at(address_view(state_at), address_view(vault_at)),
    {
        if let Some(error) = self.user.check_signer() {
            return Some(error);
        }
        if let Some(error) = self.user.check_writable() {
            return Some(error);
        }
        if let Some(error) = self.pool_state.info.check_seeds(state_at) {
            return Some(error);
        }
        if let Some(error) = self.pool_vault.info.check_seeds(vault_at) {
            return Some(error);
        }
        if let Some(error) = self.pool_vault.info.check_writable() {
            return Some(error);
        }
        if let Some(error) = self.dev_fee_recipient.check_writable() {
            return Some(error);
        }
        self.dev_fee_recipient.check_address(&self.pool_state.data.dev_fee_recipient)
    }

    /// Checks the accounts.
    pub fn check(&self) -> (found: Option<AccountError>)
        ensures
            found == self.violation(),
    {
        self.check_at(
            state_address(self.pool_state.data.bump_state),
            vault_address(self.pool_state.data.bump_vault),
        )
    }
}

/// Accounts of `authority_send`.
#[derive(Debug)]
pub struct AuthoritySend {
    pub pool_state: Account<PoolState>,
    pub authority: AccountInfo,
    pub pool_vault: Account<SubVaultMarker>,
    /// Any recipient.
    pub destination: AccountInfo,
}

impl AuthoritySend {
    /// The first constraint that the accounts break, if any, given the addresses derived
    /// for them.
    pub open spec fn violation_at(
        &self,
        state_at: Option<Seq<u8>>,
        vault_at: Option<Seq<u8>>,
    ) -> Option<AccountError> {
        let state = self.pool_state.data;
        first(
            signer_error(self.authority),
            first(
                seeds_error(self.pool_state.info, state_at),
                first(
                    writable_error(self.authority),
                    first(
                        address_error(self.authority, state.authority),
                        first(
                            seeds_error(self.pool_vault.info, vault_at),
                            first(
                                writable_error(self.pool_vault.info),
                                writable_error(self.destination),
                            ),
                        ),
                    ),
                ),
            ),
        )
    }

    /// The first constraint that the accounts break, if any.
    pub open spec fn violation(&self) -> Option<AccountError> {
        self.violation_at(
            recorded_state_address(self.pool_state.data),
            recorded_vault_address(self.pool_state.data),
        )
    }

    /// Checks the accounts against the addresses derived for them.
    pub fn check_at(
        &self,
        state_at: Option<Pubkey>,
        vault_at: Option<Pubkey>,
    ) -> (found: Option<AccountError>)
        ensures
            found == self.violation_at(address_view(state_at), address_view(vault_at)),
    {
        if let Some(error) = self.authority.check_signer() {
            return Some(error);
        }
        if let Some(error) = self.pool_state.info.check_seeds(state_at) {
            return Some(error);
        }
        if let Some(error) = self.authority.check_writable() {
            return Some(error);
        }
        if let Some(error) = self.authority.check_address(&self.pool_state.data.authority) {
            return Some(error);
        }
        if let Some(error) = self.pool_vault.info.check_seeds(vault_at) {
            return Some(error);
        }
        if let Some(error) = self.pool_vault.info.check_writable() {
            return Some(error);
        }
        self.destination.check_writable()
    }

    /// Checks the accounts.
    pub fn check(&self) -> (found: Option<AccountError>)
        ensures
            found == self.violation(),
    {
        self.check_at(
            state_address(self.pool_state.data.bump_state),
            vault_address(self.pool_state.data.bump_vault),
        )
    }
}

/// Accounts of `deposit_pvp_session_addon`. The session's vault is created on its first
/// deposit, at the player's cost.
#[derive(Debug)]
pub struct DepositPvpSessionAddon {
    pub user: AccountInfo,
    pub pool_state: Account<PoolState>,
    pub pvp_addon_vault: Account<SubVaultMarker>,
    /// The recipient recorded in the pool state.
    pub dev_fee_recipient: AccountInfo,
}

impl DepositPvpSessionAddon {
    /// The first constraint that the accounts break, if any, given the addresses derived
    /// for them.
    pub open spec fn violation_at(
        &self,
        state_at: Option<Seq<u8>>,
        session_at: Option<(Seq<u8>, u8)>,
    ) -> Option<AccountError> {
        let state = self.pool_state.data;
        first(
            signer_error(self.user),
            first(
                found_error(self.pvp_addon_vault.info, session_at),
                first(
                    writable_error(self.pvp_addon_vault.info),
                    first(
                        writable_error(self.user),
                        first(
                            seeds_error(self.pool_state.info, state_at),
                            first(
                                writable_error(self.dev_fee_recipient),
                                address_error(self.dev_fee_recipient, state.dev_fee_recipient),
                            ),
                        ),
                    ),
                ),
            ),
        )
    }

    /// The first constraint that the accounts break, if any.
    pub open spec fn violation(&self, session_key: Seq<u8>) -> Option<AccountError> {
        self.violation_at(
            recorded_state_address(self.pool_state.data),
            session_address(session_key),
        )
    }

    /// Checks the accounts against the addresses derived for them.
    pub fn check_at(
        &self,
        state_at: Option<Pubkey>,
        session_at: Option<(Pubkey, u8)>,
    ) -> (found: Option<AccountError>)
        ensures
            found == self.violation_at(address_view(state_at), found_view(session_at)),
    {
        if let Some(error) = self.user.check_signer() {
            return Some(error);
        }
        if let Some(error) = self.pvp_addon_vault.info.check_found(session_at) {
            return Some(error);
        }
        if let Some(error) = self.pvp_addon_vault.info.check_writable() {
            return Some(error);
        }
        if let Some(error) = self.user.check_writable() {
            return Some(error);
        }
        if let Some(error) = self.pool_state.info.check_seeds(state_at) {
            return Some(error);
        }
        if let Some(error) = self.dev_fee_recipient.check_writable() {
            return Some(error);
        }
        self.dev_fee_recipient.check_address(&self.pool_state.data.dev_fee_recipient)
    }

    /// Checks the accounts.
    pub fn check(&self, session_key: &[u8; 32]) -> (found: Option<AccountError>)
        ensures
            found == self.violation(session_key@),
    {
        self.check_at(
            state_address(self.pool_state.data.bump_state),
            find_pvp_addon_address(session_key),
        )
    }
}

/// Accounts of `pvp_addon_skim_fee_to_main`.
#[derive(Debug)]
pub struct PvpAddonSkimFeeToMain {
    pub pool_state: Account<PoolState>,
    pub authority: AccountInfo,
    pub pool_vault: Account<SubVaultMarker>,
    pub pvp_addon_vault: Account<SubVaultMarker>,
}

impl PvpAddonSkimFeeToMain {
    /// The first constraint that the accounts break, if any, given the addresses derived
    /// for them.
    pub open spec fn violation_at(
        &self,
        state_at: Option<Seq<u8>>,
        vault_at: Option<Seq<u8>>,
        session_at: Option<(Seq<u8>, u8)>,
    ) -> Option<AccountError> {
        let state = self.pool_state.data;
        first(
            signer_error(self.authority),
            first(
                seeds_error(self.pool_state.info, state_at),
                first(
                    writable_error(self.authority),
                    first(
                        address_error(self.authority, state.authority),
                        first(
                            seeds_error(self.pool_vault.info, vault_at),
                            first(
                                writable_error(self.pool_vault.info),
                                first(
                                    found_error(self.pvp_addon_vault.info, session_at),
                                    writable_error(self.pvp_addon_vault.info),
                                ),
                            ),
                        ),
                    ),
                ),
            ),
        )
    }

    /// The first constraint that the accounts break, if any.
    pub open spec fn violation(&self, session_key: Seq<u8>) -> Option<AccountError> {
        self.violation_at(
            recorded_state_address(self.pool_state.data),
            recorded_vault_address(self.pool_state.data),
            session_address(session_key),
        )
    }

    /// Checks the accounts against the addresses derived for them.
    pub fn check_at(
        &self,
        state_at: Option<Pubkey>,
        vault_at: Option<Pubkey>,
        session_at: Option<(Pubkey, u8)>,
    ) -> (found: Option<AccountError>)
        ensures
            found == self.violation_at(
                address_view(state_at),
                address_view(vault_at),
                found_view(session_at),
            ),
    {
        if let Some(error) = self.authority.check_signer() {
            return Some(error);
        }
        if let Some(error) = self.pool_state.info.check_seeds(state_at) {
            return Some(error);
        }
        if let Some(error) = self.authority.check_writable() {
            return Some(error);
        }
        if let Some(error) = self.authority.check_address(&self.pool_state.data.authority) {
            return Some(error);
        }
        if let Some(error) = self.pool_vault.info.check_seeds(vault_at) {
            return Some(error);
        }
        if let Some(error) = self.pool_vault.info.check_writable() {
            return Some(error);
        }
        if let Some(error) = self.pvp_addon_vault.info.check_found(session_at) {
            return Some(error);
        }
        self.pvp_addon_vault.info.check_writable()
    }

    /// Checks the accounts.
    pub fn check(&self, session_key: &[u8; 32]) -> (found: Option<AccountError>)
        ensures
            found == self.violation(session_key@),
    {
        self.check_at(
            state_address(self.pool_state.data.bump_state),
            vault_address(self.pool_state.data.bump_vault),
            find_pvp_addon_address(session_key),
        )
    }
}

/// Accounts of `pvp_addon_authority_withdraw`.
#[derive(Debug)]
pub struct PvpAddonAuthorityWithdraw {
    pub pool_state: Account<PoolState>,
    pub authority: AccountInfo,
    pub pvp_addon_vault: Account<SubVaultMarker>,
    /// Any recipient.
    pub destination: AccountInfo,
}

impl PvpAddonAuthorityWithdraw {
    /// The first constraint that the accounts break, if any, given the addresses derived
    /// for them.
    pub open spec fn violation_at(
        &self,
        state_at: Option<Seq<u8>>,
        session_at: Option<(Seq<u8>, u8)>,
    ) -> Option<AccountError> {
        let state = self.pool_state.data;
        first(
            signer_error(self.authority),
            first(
                seeds_error(self.pool_state.info, state_at),
                first(
                    writable_error(self.authority),
                    first(
                        address_error(self.authority, state.authority),
                        first(
                            found_error(self.pvp_addon_vault.info, session_at),
                            first(
                                writable_error(self.pvp_addon_vault.info),
                                writable_error(self.destination),
                            ),
                        ),
                    ),
                ),
            ),
        )
    }

    /// The first constraint that the accounts break, if any.
    pub open spec fn violation(&self, session_key: Seq<u8>) -> Option<AccountError> {
        self.violation_at(
            recorded_state_address(self.pool_state.data),
            session_address(session_key),
        )
    }

    /// Checks the accounts against the addresses derived for them.
    pub fn check_at(
        &self,
        state_at: Option<Pubkey>,
        session_at: Option<(Pubkey, u8)>,
    ) -> (found: Option<AccountError>)
        ensures
            found == self.violation_at(address_view(state_at), found_view(session_at)),
    {
        if let Some(error) = self.authority.check_signer() {
            return Some(error);
        }
        if let Some(error) = self.pool_state.info.check_seeds(state_at) {
            return Some(error);
        }
        if let Some(error) = self.authority.check_writable() {
            return Some(error);
        }
        if let Some(error) = self.authority.check_address(&self.pool_state.data.authority) {
            return Some(error);
        }
        if let Some(error) = self.pvp_addon_vault.info.check_found(session_at) {
            return Some(error);
        }
        if let Some(error) = self.pvp_addon_vault.info.check_writable() {
            return Some(error);
        }
        self.destination.check_writable()
    }

    /// Checks the accounts.
    pub fn check(&self, session_key: &[u8; 32]) -> (found: Option<AccountError>)
        ensures
            found == self.violation(session_key@),
    {
        self.check_at(
            state_address(self.pool_state.data.bump_state),
            find_pvp_addon_address(session_key),
        )
    }
}

/// Accounts of `pvp_addon_close`. The session's vault is closed and its lamports go to
/// the authority.
#[derive(Debug)]
pub struct PvpAddonClose {
    pub pool_state: Account<PoolState>,
    pub authority: AccountInfo,
    pub pvp_addon_vault: Account<SubVaultMarker>,
}

impl PvpAddonClose {
    /// The first constraint that the accounts break, if any, given the addresses derived
    /// for them.
    pub open spec fn violation_at(
        &self,
        state_at: Option<Seq<u8>>,
        session_at: Option<(Seq<u8>, u8)>,
    ) -> Option<AccountError> {
        let state = self.pool_state.data;
        first(
            signer_error(self.authority),
            first(
                seeds_error(self.pool_state.info, state_at),
                first(
                    writable_error(self.authority),
                    first(
                        address_error(self.authority, state.authority),
                        first(
                            found_error(self.pvp_addon_vault.info, session_at),
                            first(
                                writable_error(self.pvp_addon_vault.info),
                                if self.pvp_addon_vault.info.key@ == self.authority.key@ {
                                    Some(AccountError::ConstraintClose)
                                } else {
                                    None
                                },
                            ),
                        ),
                    ),
                ),
            ),
        )
    }

    /// The first constraint that the accounts break, if any.
    pub open spec fn violation(&self, session_key: Seq<u8>) -> Option<AccountError> {
        self.violation_at(
            recorded_state_address(self.pool_state.data),
            session_address(session_key),
        )
    }

    /// Checks the accounts against the addresses derived for them.
    pub fn check_at(
        &self,
        state_at: Option<Pubkey>,
        session_at: Option<(Pubkey, u8)>,
    ) -> (found: Option<AccountError>)
        ensures
            found == self.violation_at(address_view(state_at), found_view(session_at)),
    {
        if let Some(error) = self.authority.check_signer() {
            return Some(error);
        }
        if let Some(error) = self.pool_state.info.check_seeds(state_at) {
            return Some(error);
        }
        if let Some(error) = self.authority.check_writable() {
            return Some(error);
        }
        if let Some(error) = self.authority.check_address(&self.pool_state.data.authority) {
            return Some(error);
        }
        if let Some(error) = self.pvp_addon_vault.info.check_found(session_at) {
            return Some(error);
        }
        if let Some(error) = self.pvp_addon_vault.info.check_writable() {
            return Some(error);
        }
        if self.pvp_addon_vault.info.key == self.authority.key {
            Some(AccountError::ConstraintClose)
        } else {
            None
        }
    }

    /// Checks the accounts.
    pub fn check(&self, session_key: &[u8; 32]) -> (found: Option<AccountError>)
        ensures
            found == self.violation(session_key@),
    {
        self.check_at(
            state_address(self.pool_state.data.bump_state),
            find_pvp_addon_address(session_key),
        )
    }
}

} // verus!
