//! Rent parameters of the cluster.

use vstd::prelude::*;

use anchor_lang::prelude::SolanaSysvar;

verus! {

/// The cluster's rent parameters.
#[derive(Clone, Copy, Debug)]
pub struct Rent {
    /// Rental rate in lamports per byte-year.
    pub lamports_per_byte_year: u64,
    /// Years of rent that make an account exempt: a double in little-endian bytes.
    pub exemption_threshold: [u8; 8],
    /// Percentage of collected rent that is burned.
    pub burn_percent: u8,
}

/// Bytes that every account is charged for beyond its data.
pub const ACCOUNT_STORAGE_OVERHEAD: u64 = 128;

/// What `Rent::minimum_balance` returns for an account of `data_len` bytes under the given
/// rate, threshold and burn percentage.
pub uninterp spec fn rent_minimum_balance(
    lamports_per_byte_year: u64,
    exemption_threshold: Seq<u8>,
    burn_percent: u8,
    data_len: usize,
) -> u64;

/// Calls `Rent::minimum_balance` of the rent sysvar type that `anchor_lang` exports, on the
/// value whose stored form is the given rate, threshold and burn percentage: seventeen
/// bytes, which `Sysvar::from_account_info` always decodes. The result goes through floating
/// point and is only named. The yearly rent has to fit 64 bits: the outside function
/// multiplies without a check.
#[verifier::external_body]
fn sysvar_minimum_balance(
    lamports_per_byte_year: u64,
    exemption_threshold: &[u8; 8],
    burn_percent: u8,
    data_len: usize,
) -> (minimum: u64)
    requires
        ACCOUNT_STORAGE_OVERHEAD + data_len <= u64::MAX,
        (ACCOUNT_STORAGE_OVERHEAD + data_len) * lamports_per_byte_year <= u64::MAX,
    ensures
        minimum == rent_minimum_balance(
            lamports_per_byte_year,
            exemption_threshold@,
            burn_percent,
            data_len,
        ),
{
    let rate: [u8; 8] = lamports_per_byte_year.to_le_bytes();
    let mut stored: Vec<u8> = [&rate[..], &exemption_threshold[..], &[burn_percent][..]].concat();
    let mut lamports: u64 = 0;
    let id = anchor_lang::solana_program::sysvar::rent::ID;
    let account = anchor_lang::prelude::AccountInfo::new(
        &id, false, false, &mut lamports, &mut stored, &id, false, 0,
    );
    let rent = anchor_lang::prelude::Rent::from_account_info(&account).unwrap();
    rent.minimum_balance(data_len)
}

impl Rent {
    /// The yearly rent of an account of `data_len` bytes fits 64 bits.
    pub open spec fn covers(&self, data_len: usize) -> bool {
        &&& ACCOUNT_STORAGE_OVERHEAD + data_len <= u64::MAX
        &&& (ACCOUNT_STORAGE_OVERHEAD + data_len) * self.lamports_per_byte_year <= u64::MAX
    }

    /// Lamports an account of `data_len` bytes must keep to be exempt from rent.
    pub open spec fn minimum(&self, data_len: usize) -> u64 {
        rent_minimum_balance(
            self.lamports_per_byte_year,
            self.exemption_threshold@,
            self.burn_percent,
            data_len,
        )
    }

    /// Returns the lamports an account of `data_len` bytes must keep to be exempt from rent.
    pub fn minimum_balance(&self, data_len: usize) -> (minimum: u64)
        requires
            self.covers(data_len),
        ensures
            minimum == self.minimum(data_len),
    {
        sysvar_minimum_balance(
            self.lamports_per_byte_year,
            &self.exemption_threshold,
            self.burn_percent,
            data_len,
        )
    }
}

} // verus!
