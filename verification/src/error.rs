//! What an instruction can be refused with.

use vstd::prelude::*;

verus! {

/// The pool's own refusals.
#[derive(Clone, Copy, Debug, PartialEq, Eq, Structural)]
pub enum ErrorCode {
    BadAttempts,
    BadGachaRolls,
    MathOverflow,
    ZeroAmount,
    BadDevRecipient,
    BadAuthority,
    PvpVaultNotEmpty,
    PvpVaultInsufficientForFeeSkim,
    InsufficientVaultFunds,
    BadAction,
}

/// A set of accounts that does not meet the constraints its instruction declares.
#[derive(Clone, Copy, Debug, PartialEq, Eq, Structural)]
pub enum AccountError {
    /// The account had to sign the transaction.
    AccountNotSigner,
    /// The account had to be writable.
    ConstraintMut,
    /// The account's address is not the one derived from the declared seeds.
    ConstraintSeeds,
    /// The account to be closed is also the one that receives its lamports.
    ConstraintClose,
    /// The account is not the one recorded in the pool state.
    ConstraintAddress,
    /// No bump seed gives the declared seeds an address. `Pubkey::find_program_address`
    /// aborts there.
    NoViableBump,
}

/// Why an instruction failed.
#[derive(Clone, Copy, Debug, PartialEq, Eq, Structural)]
pub enum Error {
    /// The accounts were rejected before the instruction ran.
    Account(AccountError),
    /// The cluster's rent parameters could not be read.
    RentUnavailable,
    /// The instruction itself refused.
    Program(ErrorCode),
}

impl ErrorCode {
    /// The text shown to the user for each refusal.
    pub open spec fn text(self) -> Seq<char> {
        match self {
            ErrorCode::BadAttempts => "attempts must be 1..15"@,
            ErrorCode::BadGachaRolls => "gacha rolls must be 1..2000"@,
            ErrorCode::MathOverflow => "math overflow"@,
            ErrorCode::ZeroAmount => "zero amount"@,
            ErrorCode::BadDevRecipient => "dev fee recipient cannot be default pubkey"@,
            ErrorCode::BadAuthority => "authority cannot be default pubkey"@,
            ErrorCode::PvpVaultNotEmpty => "pvp: vault must be empty (only rent) before close"@,
            ErrorCode::PvpVaultInsufficientForFeeSkim =>
                "pvp: PvP vault balance too low for fee skim"@,
            ErrorCode::InsufficientVaultFunds => "vault balance is too low"@,
            ErrorCode::BadAction => "unknown main-pool deposit action"@,
        }
    }

    /// Returns the text shown to the user.
    pub fn msg(self) -> (text: &'static str)
        ensures
            text@ == self.text(),
    {
        match self {
            ErrorCode::BadAttempts => "attempts must be 1..15",
            ErrorCode::BadGachaRolls => "gacha rolls must be 1..2000",
            ErrorCode::MathOverflow => "math overflow",
            ErrorCode::ZeroAmount => "zero amount",
            ErrorCode::BadDevRecipient => "dev fee recipient cannot be default pubkey",
            ErrorCode::BadAuthority => "authority cannot be default pubkey",
            ErrorCode::PvpVaultNotEmpty => "pvp: vault must be empty (only rent) before close",
            ErrorCode::PvpVaultInsufficientForFeeSkim =>
                "pvp: PvP vault balance too low for fee skim",
            ErrorCode::InsufficientVaultFunds => "vault balance is too low",
            ErrorCode::BadAction => "unknown main-pool deposit action",
        }
    }
}

} // verus!
