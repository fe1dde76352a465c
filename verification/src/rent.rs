//! The funding collaborator's rent schedule.
//!
//! New ledger accounts must be funded with a rent-exempt balance that the
//! host environment derives linearly from the account size. The schedule's
//! coefficients come from the environment; the required balance for a given
//! size is computed here.

use vstd::prelude::*;

verus! {

/// A rent schedule: the rent-exempt minimum balance for an account of
/// `space` bytes is `base_lamports + lamports_per_byte * space`.
#[derive(Clone, Copy, Debug)]
pub struct RentSchedule {
    /// The size-independent part of the minimum balance.
    pub base_lamports: u64,
    /// The additional balance owed per allocated byte.
    pub lamports_per_byte: u64,
}

/// The rent-exempt minimum balance the schedule asks for an account of
/// `space` bytes, as an unbounded integer.
pub open spec fn spec_minimum_balance(rent: RentSchedule, space: u64) -> int {
    rent.base_lamports + rent.lamports_per_byte * space
}

impl RentSchedule {
    /// The rent-exempt minimum balance for an account of `space` bytes, or
    /// `None` when it does not fit the balance type.
    pub fn minimum_balance(&self, space: u64) -> (r: Option<u64>)
        ensures
            r is Some <==> spec_minimum_balance(*self, space) <= u64::MAX,
            r matches Some(v) ==> v == spec_minimum_balance(*self, space),
    {
        match self.lamports_per_byte.checked_mul(space) {
            Some(variable) => self.base_lamports.checked_add(variable),
            None => {
                proof {
                    assert(self.lamports_per_byte * space > u64::MAX ==> spec_minimum_balance(
                        *self,
                        space,
                    ) > u64::MAX) by (nonlinear_arith);
                }
                None
            },
        }
    }
}

} // verus!
