//! Rent-exempt minimum balance that honours the cluster's exemption threshold.
//!
//! The Rent sysvar is 17 bytes: `lamports_per_byte_year: u64`,
//! `exemption_threshold: f64` and `burn_percent: u8`, all little-endian. The
//! runtime demands `((128 + len) * lamports_per_byte_year) as f64 * threshold`
//! lamports, truncated, from an account of `len` data bytes. Where the
//! threshold is exactly 1.0 (Solana mainnet) the demand is the integer product
//! itself; elsewhere (Fogo runs a threshold of 2.0) the floating-point scaling
//! remains, and this module hands back the integer base and the threshold's
//! bit pattern for it.

use vstd::prelude::*;

use crate::bytes::{le_u64, read_u64_le};
use crate::error::{ProgramError, SubscriptionsError};

verus! {

/// Bytes an account costs before its data, as the runtime counts them.
pub const ACCOUNT_STORAGE_OVERHEAD: u64 = 128;

/// Length of the Rent sysvar.
pub const RENT_SYSVAR_LEN: usize = 17;

/// Largest account the runtime allows (10 MiB).
pub const MAX_PERMITTED_DATA_LENGTH: u64 = 10 * 1024 * 1024;

/// Bit pattern of the IEEE-754 binary64 value 1.0, the only encoding of 1.0.
pub const F64_ONE_BITS: u64 = 0x3ff0_0000_0000_0000;

/// Bit pattern of positive infinity: every encoding at or above it with the
/// sign bit clear is infinite or NaN.
pub const F64_INFINITY_BITS: u64 = 0x7ff0_0000_0000_0000;

/// What the runtime demands of an account, short of the floating-point step.
#[derive(Debug, Clone, Copy, PartialEq, Eq, Structural)]
pub enum RentRequirement {
    /// The threshold is exactly 1.0: the demand is this many lamports.
    Exact(u64),
    /// The demand is `base as f64 * f64::from_bits(threshold_bits)`,
    /// truncated to an integer; the threshold is finite and positive.
    Scaled { base: u64, threshold_bits: u64 },
}

/// The binary64 value with bit pattern `bits` equals 1.0.
pub open spec fn f64_bits_is_one(bits: int) -> bool {
    bits == F64_ONE_BITS
}

/// The binary64 value with bit pattern `bits` is finite and greater than
/// zero: the sign bit is clear, the exponent is not all ones, and the pattern
/// is not that of +0.0.
pub open spec fn f64_bits_is_finite_positive(bits: int) -> bool {
    0 < bits < F64_INFINITY_BITS
}

/// The lamports per byte-year that the Rent sysvar `raw` records.
pub open spec fn sysvar_lamports_per_byte(raw: Seq<u8>) -> int {
    le_u64(raw, 0)
}

/// The bit pattern of the exemption threshold that the Rent sysvar `raw`
/// records.
pub open spec fn sysvar_threshold_bits(raw: Seq<u8>) -> int {
    le_u64(raw, 8)
}

/// The rent rule: what an account of `data_len` bytes must hold, or the error
/// with which the computation stops, checked in this order: the data length,
/// the integer product, the threshold.
pub open spec fn spec_rent_requirement(raw: Seq<u8>, data_len: int) -> Result<RentRequirement, ProgramError> {
    let per_byte = sysvar_lamports_per_byte(raw);
    let bits = sysvar_threshold_bits(raw);
    let base = (ACCOUNT_STORAGE_OVERHEAD + data_len) * per_byte;
    if data_len > MAX_PERMITTED_DATA_LENGTH {
        Err(ProgramError::InvalidArgument)
    } else if base > u64::MAX {
        Err(ProgramError::Custom(SubscriptionsError::ArithmeticOverflow))
    } else if f64_bits_is_one(bits) {
        Ok(RentRequirement::Exact(base as u64))
    } else if !f64_bits_is_finite_positive(bits) {
        Err(ProgramError::InvalidArgument)
    } else {
        Ok(RentRequirement::Scaled { base: base as u64, threshold_bits: bits as u64 })
    }
}

/// The rent-exemption requirement of an account of `data_len` bytes, over the
/// raw bytes of the Rent sysvar.
pub fn rent_requirement(raw: &[u8; RENT_SYSVAR_LEN], data_len: usize) -> (res: Result<RentRequirement, ProgramError>)
    ensures
        res == spec_rent_requirement(raw@, data_len as int),
        data_len > 10_485_760 ==> res == Err::<RentRequirement, ProgramError>(ProgramError::InvalidArgument),
        data_len <= 10_485_760 && (128 + data_len) * le_u64(raw@, 0) > 0xffff_ffff_ffff_ffff
            ==> res == Err::<RentRequirement, ProgramError>(ProgramError::Custom(SubscriptionsError::ArithmeticOverflow)),
        data_len <= 10_485_760 && (128 + data_len) * le_u64(raw@, 0) <= 0xffff_ffff_ffff_ffff
            && le_u64(raw@, 8) == 0x3ff0_0000_0000_0000
            ==> res == Ok::<RentRequirement, ProgramError>(
                RentRequirement::Exact(((128 + data_len) * le_u64(raw@, 0)) as u64)),
        data_len <= 10_485_760 && (128 + data_len) * le_u64(raw@, 0) <= 0xffff_ffff_ffff_ffff
            && le_u64(raw@, 8) != 0x3ff0_0000_0000_0000
            && (le_u64(raw@, 8) == 0 || le_u64(raw@, 8) >= 0x7ff0_0000_0000_0000)
            ==> res == Err::<RentRequirement, ProgramError>(ProgramError::InvalidArgument),
        data_len <= 10_485_760 && (128 + data_len) * le_u64(raw@, 0) <= 0xffff_ffff_ffff_ffff
            && le_u64(raw@, 8) != 0x3ff0_0000_0000_0000
            && 0 < le_u64(raw@, 8) < 0x7ff0_0000_0000_0000
            ==> res == Ok::<RentRequirement, ProgramError>(RentRequirement::Scaled {
                base: ((128 + data_len) * le_u64(raw@, 0)) as u64,
                threshold_bits: le_u64(raw@, 8) as u64,
            }),
{
    if data_len as u64 > MAX_PERMITTED_DATA_LENGTH {
        return Err(ProgramError::InvalidArgument);
    }
    let per_byte = read_u64_le(raw, 0);
    let bits = read_u64_le(raw, 8);
    let base = match (ACCOUNT_STORAGE_OVERHEAD + data_len as u64).checked_mul(per_byte) {
        Some(b) => b,
        None => return Err(ProgramError::Custom(SubscriptionsError::ArithmeticOverflow)),
    };
    if bits == F64_ONE_BITS {
        return Ok(RentRequirement::Exact(base));
    }
    if !(0 < bits && bits < F64_INFINITY_BITS) {
        return Err(ProgramError::InvalidArgument);
    }
    Ok(RentRequirement::Scaled { base, threshold_bits: bits })
}

/// The outcomes of the rent rule, written out over the sysvar's fields: an
/// account longer than 10 MiB is refused as an invalid argument; otherwise the
/// base `(128 + len) * lamports_per_byte` is an overflow error exactly when it
/// exceeds `u64::MAX`; a base that fits is the requirement itself under the
/// threshold 1.0 (bits `0x3ff0_0000_0000_0000`), is scaled under any other
/// finite positive threshold (bits strictly between 0 and those of +inf), and
/// any other threshold (zero, negative, infinite, NaN) is an invalid argument.
pub proof fn lemma_rent_requirement_outcomes(raw: Seq<u8>, data_len: int)
    requires
        raw.len() == 17,
        data_len >= 0,
    ensures
        ({
            let per_byte = le_u64(raw, 0);
            let bits = le_u64(raw, 8);
            let base = (128 + data_len) * per_byte;
            let res = spec_rent_requirement(raw, data_len);
            &&& data_len > 10_485_760 ==> res == Err::<RentRequirement, ProgramError>(ProgramError::InvalidArgument)
            &&& data_len <= 10_485_760 && base > 0xffff_ffff_ffff_ffff ==> res
                == Err::<RentRequirement, ProgramError>(ProgramError::Custom(SubscriptionsError::ArithmeticOverflow))
            &&& data_len <= 10_485_760 && base <= 0xffff_ffff_ffff_ffff && bits == 0x3ff0_0000_0000_0000
                ==> res == Ok::<RentRequirement, ProgramError>(RentRequirement::Exact(base as u64))
            &&& data_len <= 10_485_760 && base <= 0xffff_ffff_ffff_ffff && bits != 0x3ff0_0000_0000_0000
                && (bits == 0 || bits >= 0x7ff0_0000_0000_0000)
                ==> res == Err::<RentRequirement, ProgramError>(ProgramError::InvalidArgument)
            &&& data_len <= 10_485_760 && base <= 0xffff_ffff_ffff_ffff && bits != 0x3ff0_0000_0000_0000
                && 0 < bits < 0x7ff0_0000_0000_0000
                ==> res == Ok::<RentRequirement, ProgramError>(
                    RentRequirement::Scaled { base: base as u64, threshold_bits: bits as u64 })
        }),
{
}

/// The requirement depends on the first 16 bytes of the sysvar only: the burn
/// percent does not change it.
pub proof fn lemma_rent_ignores_burn_percent(raw1: Seq<u8>, raw2: Seq<u8>, data_len: int)
    requires
        raw1.len() == RENT_SYSVAR_LEN,
        raw2.len() == RENT_SYSVAR_LEN,
        raw1.subrange(0, 16) == raw2.subrange(0, 16),
    ensures
        spec_rent_requirement(raw1, data_len) == spec_rent_requirement(raw2, data_len),
{
    assert forall|i: int| 0 <= i < 16 implies raw1[i] == raw2[i] by {
        assert(raw1.subrange(0, 16)[i] == raw1[i]);
        assert(raw2.subrange(0, 16)[i] == raw2[i]);
    }
    assert(le_u64(raw1, 0) == le_u64(raw2, 0));
    assert(le_u64(raw1, 8) == le_u64(raw2, 8));
}

/// Where the threshold is exactly 1.0, a larger account never needs fewer
/// lamports than a smaller one.
pub proof fn lemma_exact_rent_monotone(raw: Seq<u8>, len1: int, len2: int)
    requires
        raw.len() == RENT_SYSVAR_LEN,
        0 <= len1 <= len2,
        spec_rent_requirement(raw, len1) is Ok,
        spec_rent_requirement(raw, len2) is Ok,
        f64_bits_is_one(sysvar_threshold_bits(raw)),
    ensures
        spec_rent_requirement(raw, len1)->Ok_0->Exact_0 <= spec_rent_requirement(raw, len2)->Ok_0->Exact_0,
{
    let per_byte = sysvar_lamports_per_byte(raw);
    assert(0 <= per_byte);
    assert((ACCOUNT_STORAGE_OVERHEAD + len1) * per_byte <= (ACCOUNT_STORAGE_OVERHEAD + len2) * per_byte)
        by (nonlinear_arith)
        requires
            0 <= len1 <= len2,
            0 <= per_byte,
    ;
}

} // verus!
