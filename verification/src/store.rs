//! The causal-lookup source: the engine's read-only view of the records a
//! replica holds locally.
//!
//! The engine consumes exactly two queries — fetch an action by address,
//! fetch a record by address — and must not assume either succeeds: a miss
//! is an inconclusive local state, surfaced by the engine as a failure, not
//! an implicit accept. The engine never writes through this interface; the
//! mutating methods here exist for the surrounding runtime (and for tests)
//! to assemble a view.

use vstd::prelude::*;

use crate::model::{Action, Address, Record};

verus! {

/// A replica's locally fetchable records, keyed by action address. When two
/// records carry the same address, the most recently inserted one wins.
pub struct Store {
    records: Vec<Record>,
}

impl Store {
    /// What an address resolves to in `s`, scanning front to back.
    spec fn seq_get(s: Seq<Record>, addr: Address) -> Option<Record>
        decreases s.len(),
    {
        if s.len() == 0 {
            None
        } else if s[0].action_addr == addr {
            Some(s[0])
        } else {
            Self::seq_get(s.drop_first(), addr)
        }
    }

    /// What `addr` resolves to in this view: the record held under it, if any.
    pub closed spec fn spec_get(self, addr: Address) -> Option<Record> {
        Self::seq_get(self.records@, addr)
    }

    /// An empty view: nothing is locally fetchable.
    pub fn new() -> (r: Store)
        ensures
            forall|a: Address| r.spec_get(a) is None,
    {
        Store { records: Vec::new() }
    }

    /// Makes `record` fetchable under its action address, shadowing any
    /// record previously held there.
    pub fn insert(&mut self, record: Record)
        ensures
            final(self).spec_get(record.action_addr) == Some(record),
            forall|a: Address|
                a != record.action_addr ==> final(self).spec_get(a) == old(self).spec_get(a),
    {
        self.records.insert(0, record);
        proof {
            assert(self.records@.drop_first() =~= old(self).records@);
        }
    }

    /// Fetches the record held under `addr`, or reports that none is.
    pub fn get_record(&self, addr: Address) -> (r: Option<&Record>)
        ensures
            match r {
                Some(rec) => self.spec_get(addr) == Some(*rec),
                None => self.spec_get(addr) is None,
            },
    {
        let n: usize = self.records.len();
        proof {
            assert(self.records@.subrange(0, n as int) =~= self.records@);
        }
        let mut i: usize = 0;
        while i < n
            invariant
                0 <= i <= n,
                n == self.records@.len(),
                Self::seq_get(self.records@, addr) == Self::seq_get(
                    self.records@.subrange(i as int, n as int),
                    addr,
                ),
                forall|j: int| 0 <= j < i ==> #[trigger] self.records@[j].action_addr != addr,
            decreases n - i,
        {
            if self.records[i].action_addr == addr {
                return Some(&self.records[i]);
            }
            proof {
                assert(self.records@.subrange(i as int, n as int).drop_first() =~= self.records@
                    .subrange(i as int + 1, n as int));
            }
            i = i + 1;
        }
        None
    }

    /// Fetches the action held under `addr`, or reports that none is.
    pub fn get_action(&self, addr: Address) -> (r: Option<&Action>)
        ensures
            match r {
                Some(action) => {
                    &&& self.spec_get(addr) matches Some(rec)
                    &&& rec.action == *action
                },
                None => self.spec_get(addr) is None,
            },
    {
        match self.get_record(addr) {
            Some(rec) => Some(&rec.action),
            None => None,
        }
    }
}

} // verus!
