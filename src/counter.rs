use vstd::prelude::*;

use crate::record::PartyId;

verus! {

/// Why a counter operation is refused.
#[derive(Clone, Copy, Debug, PartialEq, Eq, Structural)]
pub enum ErrorDefine {
    /// The total would fall below the floor.
    SubError,
    /// The total would rise above the ceiling.
    AddError,
    /// The caller is not the counter's authority.
    Unauthorized,
}

/// The largest total the counter may hold.
pub const COUNTER_MAX: i8 = 10;

/// The smallest total the counter may hold.
pub const COUNTER_MIN: i8 = -5;

/// A bounded counter that only its authority may change.
#[derive(Clone, Copy, Debug, PartialEq, Eq, Structural)]
pub struct ComputeAccount {
    pub total: i8,
    pub authority: PartyId,
}

impl ComputeAccount {
    /// The total lies between the floor and the ceiling.
    pub open spec fn wf(self) -> bool {
        COUNTER_MIN <= self.total <= COUNTER_MAX
    }

    /// A counter at zero, governed by `authority`.
    pub fn init(authority: PartyId) -> (r: ComputeAccount)
        ensures
            r.total == 0,
            r.authority == authority,
            r.wf(),
    {
        ComputeAccount { total: 0, authority }
    }

    /// Hands the counter to a new authority.
    pub fn change_authority(&mut self, caller: PartyId, new_auth: PartyId) -> (r: Result<(), ErrorDefine>)
        ensures
            caller != old(self).authority ==> r == Err::<(), ErrorDefine>(ErrorDefine::Unauthorized)
                && *final(self) == *old(self),
            caller == old(self).authority ==> r is Ok && final(self).authority == new_auth
                && final(self).total == old(self).total,
            final(self).wf() == old(self).wf(),
    {
        if caller != self.authority {
            return Err(ErrorDefine::Unauthorized);
        }
        self.authority = new_auth;
        Ok(())
    }

    /// Adds `value`, refused unless the sum stays within the floor and the
    /// ceiling.
    pub fn add(&mut self, caller: PartyId, value: i8) -> (r: Result<(), ErrorDefine>)
        ensures
            caller != old(self).authority ==> r == Err::<(), ErrorDefine>(ErrorDefine::Unauthorized),
            caller == old(self).authority && !(COUNTER_MIN <= old(self).total + value <= COUNTER_MAX)
                ==> r == Err::<(), ErrorDefine>(ErrorDefine::AddError),
            r is Ok <==> caller == old(self).authority && COUNTER_MIN <= old(self).total + value <= COUNTER_MAX,
            r is Ok ==> final(self).total == old(self).total + value && final(self).authority == old(self).authority,
            r is Err ==> *final(self) == *old(self),
            final(self).wf() || *final(self) == *old(self),
    {
        if caller != self.authority {
            return Err(ErrorDefine::Unauthorized);
        }
        let sum: i16 = self.total as i16 + value as i16;
        if sum > COUNTER_MAX as i16 || sum < COUNTER_MIN as i16 {
            return Err(ErrorDefine::AddError);
        }
        self.total = sum as i8;
        Ok(())
    }

    /// Subtracts `value`, refused unless the difference stays within the floor
    /// and the ceiling.
    pub fn sub(&mut self, caller: PartyId, value: i8) -> (r: Result<(), ErrorDefine>)
        ensures
            caller != old(self).authority ==> r == Err::<(), ErrorDefine>(ErrorDefine::Unauthorized),
            caller == old(self).authority && !(COUNTER_MIN <= old(self).total - value <= COUNTER_MAX)
                ==> r == Err::<(), ErrorDefine>(ErrorDefine::SubError),
            r is Ok <==> caller == old(self).authority && COUNTER_MIN <= old(self).total - value <= COUNTER_MAX,
            r is Ok ==> final(self).total == old(self).total - value && final(self).authority == old(self).authority,
            r is Err ==> *final(self) == *old(self),
            final(self).wf() || *final(self) == *old(self),
    {
        if caller != self.authority {
            return Err(ErrorDefine::Unauthorized);
        }
        let difference: i16 = self.total as i16 - value as i16;
        if difference < COUNTER_MIN as i16 || difference > COUNTER_MAX as i16 {
            return Err(ErrorDefine::SubError);
        }
        self.total = difference as i8;
        Ok(())
    }
}

} // verus!
