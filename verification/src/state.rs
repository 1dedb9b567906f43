//! What the program keeps in its accounts.

use vstd::prelude::*;

use crate::error::ErrorCode;
use crate::pubkey::{default_key, Pubkey};

verus! {

/// The pool's configuration, held in its state account.
#[derive(Clone, Copy, Debug)]
pub struct PoolState {
    /// The only account that may administer the pool and pay out of its vaults.
    pub authority: Pubkey,
    /// The price of one game action.
    pub action_fee_lamports: u64,
    pub reserved_season_bps: u16,
    pub reserved_daily_bps: u16,
    /// Bump seed of the state account's own address.
    pub bump_state: u8,
    /// Bump seed of the main vault's address.
    pub bump_vault: u8,
    /// Receives the protocol fee of every deposit.
    pub dev_fee_recipient: Pubkey,
}

impl PoolState {
    /// Bytes the state account takes: an eight-byte discriminator, then the fields in order.
    pub const SPACE: usize = 8 + 32 + 8 + 2 + 2 + 1 + 1 + 32;

    /// The protocol fee has somewhere to go.
    pub open spec fn valid(&self) -> bool {
        self.dev_fee_recipient@ != default_key()
    }

    /// Makes the state that a pool starts with. Its fee may be zero; its fee recipient may
    /// not be the default address.
    pub fn create(
        authority: Pubkey,
        action_fee_lamports: u64,
        reserved_season_bps: u16,
        reserved_daily_bps: u16,
        bump_state: u8,
        bump_vault: u8,
        dev_fee_recipient: Pubkey,
    ) -> (created: Result<PoolState, ErrorCode>)
        ensures
            created == (if dev_fee_recipient@ == default_key() {
                Err(ErrorCode::BadDevRecipient)
            } else {
                Ok(
                    PoolState {
                        authority,
                        action_fee_lamports,
                        reserved_season_bps,
                        reserved_daily_bps,
                        bump_state,
                        bump_vault,
                        dev_fee_recipient,
                    },
                )
            }),
            created matches Ok(state) ==> state.valid(),
    {
        if dev_fee_recipient == Pubkey::default() {
            return Err(ErrorCode::BadDevRecipient);
        }
        Ok(
            PoolState {
                authority,
                action_fee_lamports,
                reserved_season_bps,
                reserved_daily_bps,
                bump_state,
                bump_vault,
                dev_fee_recipient,
            },
        )
    }

    /// Hands the pool to another authority, never to the default address.
    pub fn rotate_authority(&mut self, new_authority: Pubkey) -> (result: Result<(), ErrorCode>)
        ensures
            result == (if new_authority@ == default_key() {
                Err(ErrorCode::BadAuthority)
            } else {
                Ok(())
            }),
            *final(self) == (if result is Ok {
                PoolState { authority: new_authority, ..*old(self) }
            } else {
                *old(self)
            }),
            old(self).valid() ==> final(self).valid(),
    {
        if new_authority == Pubkey::default() {
            return Err(ErrorCode::BadAuthority);
        }
        self.authority = new_authority;
        Ok(())
    }

    /// Changes the action fee, never to zero.
    pub fn change_action_fee(&mut self, new_action_fee_lamports: u64) -> (result: Result<
        (),
        ErrorCode,
    >)
        ensures
            result == (if new_action_fee_lamports == 0 {
                Err(ErrorCode::ZeroAmount)
            } else {
                Ok(())
            }),
            *final(self) == (if result is Ok {
                PoolState { action_fee_lamports: new_action_fee_lamports, ..*old(self) }
            } else {
                *old(self)
            }),
            old(self).valid() ==> final(self).valid(),
    {
        if new_action_fee_lamports == 0 {
            return Err(ErrorCode::ZeroAmount);
        }
        self.action_fee_lamports = new_action_fee_lamports;
        Ok(())
    }

    /// Changes who receives the protocol fee, never to the default address.
    pub fn rotate_dev_fee_recipient(&mut self, new_dev_fee_recipient: Pubkey) -> (result: Result<
        (),
        ErrorCode,
    >)
        ensures
            result == (if new_dev_fee_recipient@ == default_key() {
                Err(ErrorCode::BadDevRecipient)
            } else {
                Ok(())
            }),
            *final(self) == (if result is Ok {
                PoolState { dev_fee_recipient: new_dev_fee_recipient, ..*old(self) }
            } else {
                *old(self)
            }),
            old(self).valid() ==> final(self).valid(),
    {
        if new_dev_fee_recipient == Pubkey::default() {
            return Err(ErrorCode::BadDevRecipient);
        }
        self.dev_fee_recipient = new_dev_fee_recipient;
        Ok(())
    }
}

/// Marks an account as a vault: it holds lamports and no data of its own.
#[derive(Clone, Copy, Debug)]
pub struct SubVaultMarker {}

impl SubVaultMarker {
    /// Bytes a vault takes: the eight-byte discriminator alone.
    pub const SPACE: usize = 8;
}

} // verus!
