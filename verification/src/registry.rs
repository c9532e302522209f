use vstd::prelude::*;

use crate::bytes::bytes_eq;
use crate::error::GovernanceError;

verus! {

/// The durable set of consumption records: one fingerprint per envelope ever
/// processed successfully. Records are write-once and never removed, so the
/// abstract state is simply the set of recorded fingerprints.
pub struct ConsumedRegistry {
    entries: Vec<Vec<u8>>,
}

impl View for ConsumedRegistry {
    type V = Set<Seq<u8>>;

    closed spec fn view(&self) -> Set<Seq<u8>> {
        self.entries@.map_values(|e: Vec<u8>| e@).to_set()
    }
}

impl ConsumedRegistry {
    /// A registry with no consumption record.
    pub fn new() -> (r: ConsumedRegistry)
        ensures
            r@ == Set::<Seq<u8>>::empty(),
    {
        let r = ConsumedRegistry { entries: Vec::new() };
        proof {
            assert(r@ =~= Set::<Seq<u8>>::empty());
        }
        r
    }

    /// Whether a record exists for the fingerprint `fp`.
    pub fn contains(&self, fp: &Vec<u8>) -> (r: bool)
        ensures
            r == self@.contains(fp@),
    {
        let ghost mapped = self.entries@.map_values(|e: Vec<u8>| e@);
        let n: usize = self.entries.len();
        let mut i: usize = 0;
        while i < n
            invariant
                n == self.entries.len(),
                i <= n,
                mapped == self.entries@.map_values(|e: Vec<u8>| e@),
                forall|j: int| 0 <= j < i ==> mapped[j] != fp@,
            decreases n - i,
        {
            if bytes_eq(&self.entries[i], fp) {
                assert(mapped[i as int] == fp@);
                assert(mapped.contains(fp@));
                return true;
            }
            i += 1;
        }
        assert(forall|j: int| 0 <= j < mapped.len() ==> mapped[j] != fp@);
        assert(!mapped.contains(fp@));
        false
    }

    /// The atomic create-if-absent gate: records `fp` and returns `Ok` where
    /// no record exists, and fails with the replay error, changing nothing,
    /// where one does. This single operation is the whole replay guard; there
    /// is no separate check-then-act step.
    pub fn record(&mut self, fp: Vec<u8>) -> (r: Result<(), GovernanceError>)
        ensures
            old(self)@.contains(fp@) ==> r == Err::<(), GovernanceError>(
                GovernanceError::AlreadyConsumed,
            ) && final(self)@ == old(self)@,
            !old(self)@.contains(fp@) ==> r == Ok::<(), GovernanceError>(()) && final(self)@
                == old(self)@.insert(fp@),
    {
        if self.contains(&fp) {
            return Err(GovernanceError::AlreadyConsumed);
        }
        let ghost before = self.entries@.map_values(|e: Vec<u8>| e@);
        let ghost fp_view = fp@;
        self.entries.push(fp);
        proof {
            let after = self.entries@.map_values(|e: Vec<u8>| e@);
            assert(after =~= before.push(fp_view));
            before.lemma_push_to_set_commute(fp_view);
        }
        Ok(())
    }
}

} // verus!
