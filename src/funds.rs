//! Moving native currency between two balance holders, all or nothing.

use vstd::prelude::*;
use crate::error::SquaresError;

verus! {

/// Why moving `amount` from a holder of `from` to a holder of `to` fails, if it does.
pub open spec fn transfer_error(from: u64, to: u64, amount: u64) -> Option<SquaresError> {
    if from < amount {
        Some(SquaresError::InsufficientFunds)
    } else if to + amount > u64::MAX {
        Some(SquaresError::ArithmeticOverflow)
    } else {
        None
    }
}

/// Debits `amount` from `from` and credits it to `to`; on failure neither
/// balance changes.
pub fn transfer_lamports(from: &mut u64, to: &mut u64, amount: u64) -> (r: Result<(), SquaresError>)
    ensures
        match transfer_error(*old(from), *old(to), amount) {
            Some(e) => r == Err::<(), SquaresError>(e) && *final(from) == *old(from) && *final(to)
                == *old(to),
            None => r is Ok && *final(from) == *old(from) - amount && *final(to) == *old(to)
                + amount,
        },
{
    if *from < amount {
        return Err(SquaresError::InsufficientFunds);
    }
    if *to > u64::MAX - amount {
        return Err(SquaresError::ArithmeticOverflow);
    }
    *from = *from - amount;
    *to = *to + amount;
    Ok(())
}

} // verus!
