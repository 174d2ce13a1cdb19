use vstd::prelude::*;

use crate::error::{from_ledger, ledger_error, ErrorCode, LedgerError};
use crate::record::{AssetKind, EscrowRecord, PartyId, Policy, Step};

verus! {

/// The records under the engine's care, at most one per owner and asset.
pub struct Registry {
    pub records: Vec<EscrowRecord>,
}

/// Whether a record is keyed by `owner` and `asset`.
pub open spec fn has_key(r: EscrowRecord, owner: PartyId, asset: AssetKind) -> bool {
    r.owner == owner && r.asset == asset
}

impl Registry {
    /// Every record is well formed and no two share an owner and an asset.
    pub open spec fn wf(self) -> bool {
        &&& forall|i: int| 0 <= i < self.records@.len() ==> #[trigger] self.records@[i].wf()
        &&& forall|i: int, j: int|
            0 <= i < j < self.records@.len() ==> !has_key(
                #[trigger] self.records@[i],
                self.records@[j].owner,
                #[trigger] self.records@[j].asset,
            )
    }

    /// Whether some record is keyed by `owner` and `asset`.
    pub open spec fn contains_key(self, owner: PartyId, asset: AssetKind) -> bool {
        exists|i: int| 0 <= i < self.records@.len() && has_key(#[trigger] self.records@[i], owner, asset)
    }

    /// An empty registry.
    pub fn new() -> (r: Registry)
        ensures
            r.records@ == Seq::<EscrowRecord>::empty(),
            r.wf(),
    {
        Registry { records: Vec::new() }
    }

    /// The position of the record keyed by `owner` and `asset`, if there is one.
    pub fn find(&self, owner: PartyId, asset: AssetKind) -> (r: Option<usize>)
        ensures
            r is None <==> !self.contains_key(owner, asset),
            r matches Some(i) ==> i < self.records@.len() && has_key(self.records@[i as int], owner, asset),
    {
        let mut i: usize = 0;
        while i < self.records.len()
            invariant
                i <= self.records@.len(),
                forall|k: int| 0 <= k < i ==> !has_key(#[trigger] self.records@[k], owner, asset),
            decreases self.records@.len() - i,
        {
            if self.records[i].owner == owner && self.records[i].asset == asset {
                return Some(i);
            }
            i = i + 1;
        }
        None
    }

    /// Creates an empty record for `owner` and `asset` and returns its position.
    /// Refused if one already exists for that key, or if the policy is invalid.
    pub fn initialize(&mut self, owner: PartyId, custody: PartyId, asset: AssetKind, policy: Policy) -> (r: Result<usize, ErrorCode>)
        requires
            old(self).wf(),
        ensures
            final(self).wf(),
            r is Ok <==> !old(self).contains_key(owner, asset) && EscrowRecord::initialize_error(policy) is None,
            old(self).contains_key(owner, asset) ==> r == Err::<usize, ErrorCode>(ErrorCode::DuplicateRecord),
            !old(self).contains_key(owner, asset) ==> (r matches Err(e) ==> EscrowRecord::initialize_error(policy) == Some(e)),
            r is Ok ==> final(self).records@ == old(self).records@.push(EscrowRecord::initial(owner, custody, asset, policy))
                && r == Ok::<usize, ErrorCode>(old(self).records@.len() as usize),
            r is Err ==> *final(self) == *old(self),
    {
        if self.find(owner, asset).is_some() {
            return Err(ErrorCode::DuplicateRecord);
        }
        let record = EscrowRecord::initialize(owner, custody, asset, policy)?;
        let index = self.records.len();
        self.records.push(record);
        proof {
            assert forall|i: int, j: int| 0 <= i < j < self.records@.len() implies !has_key(
                #[trigger] self.records@[i],
                self.records@[j].owner,
                #[trigger] self.records@[j].asset,
            ) by {
                if j == index {
                    assert(!has_key(old(self).records@[i], owner, asset));
                }
            }
        }
        Ok(index)
    }

    /// Adopts the outcome of an operation on the record at `index` once the
    /// ledger has run its transfers; on a refusal nothing changes.
    pub fn commit(&mut self, index: usize, step: Step, outcome: Result<(), LedgerError>) -> (r: Result<(), ErrorCode>)
        requires
            old(self).wf(),
            index < old(self).records@.len(),
            step.record.wf(),
            step.record.owner == old(self).records@[index as int].owner,
            step.record.asset == old(self).records@[index as int].asset,
        ensures
            final(self).wf(),
            match outcome {
                Ok(()) => r is Ok && final(self).records@ == old(self).records@.update(index as int, step.record),
                Err(e) => r == Err::<(), ErrorCode>(ledger_error(e)) && *final(self) == *old(self),
            },
    {
        match outcome {
            Ok(()) => {
                self.records.set(index, step.record);
                proof {
                    assert forall|i: int, j: int| 0 <= i < j < self.records@.len() implies !has_key(
                        #[trigger] self.records@[i],
                        self.records@[j].owner,
                        #[trigger] self.records@[j].asset,
                    ) by {
                        assert(!has_key(old(self).records@[i], old(self).records@[j].owner, old(self).records@[j].asset));
                    }
                }
                Ok(())
            },
            Err(e) => Err(from_ledger(e)),
        }
    }
}

} // verus!
