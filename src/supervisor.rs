use vstd::prelude::*;
use std::collections::HashSet;

verus! {

broadcast use vstd::std_specs::hash::group_hash_axioms;

/// The groups whose reconciler has been started. A group gets at most one.
pub struct GroupRegistry {
    running: HashSet<u64>,
}

impl View for GroupRegistry {
    type V = Set<u64>;

    closed spec fn view(&self) -> Set<u64> {
        self.running@
    }
}

impl GroupRegistry {
    pub fn new() -> (r: GroupRegistry)
        ensures
            r@ == Set::<u64>::empty(),
    {
        GroupRegistry { running: HashSet::new() }
    }

    /// Handles the notice that `group_id` became available. Returns whether a
    /// reconciler is to be started for it, which is the case exactly when none
    /// was started before; the group is recorded as running either way.
    pub fn on_group_available(&mut self, group_id: u64) -> (start: bool)
        ensures
            start == !old(self)@.contains(group_id),
            final(self)@ == old(self)@.insert(group_id),
    {
        self.running.insert(group_id)
    }

    /// Whether a reconciler was started for `group_id`.
    pub fn is_running(&self, group_id: u64) -> (r: bool)
        ensures
            r == self@.contains(group_id),
    {
        self.running.contains(&group_id)
    }
}

} // verus!
