use vstd::prelude::*;
use crate::identity::Identity;
use crate::table::Table;

verus! {

/// The directory of tables: who operates it, and the id the next table gets.
#[derive(Debug, Clone, Copy)]
pub struct GameState {
    pub owner: Identity,
    pub next_table_id: u64,
}

impl GameState {
    /// The registry's invariant: ids start at 1.
    pub open spec fn wf(&self) -> bool {
        self.next_table_id >= 1
    }

    /// Opens a new table under the next id; ids are never handed out twice.
    pub fn create_table(&mut self) -> (t: Table)
        requires
            old(self).next_table_id < u64::MAX,
        ensures
            t.wf(),
            t.is_fresh(old(self).next_table_id),
            final(self).next_table_id == old(self).next_table_id + 1,
            final(self).owner == old(self).owner,
            old(self).wf() ==> final(self).wf(),
    {
        let id = self.next_table_id;
        self.next_table_id = id + 1;
        Table::new(id)
    }
}

/// Creates the registry, operated by `owner`; the first table gets id 1.
pub fn initialize(owner: Identity) -> (r: GameState)
    ensures
        r.owner == owner,
        r.next_table_id == 1,
        r.wf(),
{
    GameState { owner, next_table_id: 1 }
}

} // verus!
