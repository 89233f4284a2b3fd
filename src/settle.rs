use vstd::prelude::*;
use crate::config::Configuration;
use crate::reconcile::{Correction, RoleChange, change_for, is_plan, owed, user_inside};
use crate::timezone::is_tz_name;

verus! {

/// The roles `roles` after the directory carried out `c`.
pub open spec fn apply_change(roles: Set<u64>, c: Correction) -> Set<u64> {
    match c.change {
        RoleChange::Add => roles.insert(c.role_id),
        RoleChange::Remove => roles.remove(c.role_id),
    }
}

/// The directory's member roles after every correction of `plan` succeeded,
/// in order. A correction for a member the directory does not hold is lost.
pub open spec fn apply_plan(dir: Map<u64, Set<u64>>, plan: Seq<Correction>) -> Map<u64, Set<u64>>
    decreases plan.len(),
{
    if plan.len() == 0 {
        dir
    } else {
        let d = apply_plan(dir, plan.drop_last());
        let c = plan.last();
        if d.contains_key(c.user_id) {
            d.insert(c.user_id, apply_change(d[c.user_id], c))
        } else {
            d
        }
    }
}

proof fn lemma_apply_plan_dom(dir: Map<u64, Set<u64>>, plan: Seq<Correction>)
    ensures
        apply_plan(dir, plan).dom() == dir.dom(),
    decreases plan.len(),
{
    if plan.len() > 0 {
        lemma_apply_plan_dom(dir, plan.drop_last());
        let d = apply_plan(dir, plan.drop_last());
        let c = plan.last();
        if d.contains_key(c.user_id) {
            assert(d.insert(c.user_id, apply_change(d[c.user_id], c)).dom() =~= d.dom());
        }
    }
}

proof fn lemma_apply_plan_untouched(dir: Map<u64, Set<u64>>, plan: Seq<Correction>, u: u64)
    requires
        dir.contains_key(u),
        forall|i: int| 0 <= i < plan.len() ==> (#[trigger] plan[i]).user_id != u,
    ensures
        apply_plan(dir, plan)[u] == dir[u],
    decreases plan.len(),
{
    lemma_apply_plan_dom(dir, plan);
    if plan.len() > 0 {
        assert(plan.last() == plan[plan.len() - 1]);
        lemma_apply_plan_untouched(dir, plan.drop_last(), u);
    }
}

proof fn lemma_apply_plan_touched(dir: Map<u64, Set<u64>>, plan: Seq<Correction>, u: u64, k: int)
    requires
        dir.contains_key(u),
        0 <= k < plan.len(),
        plan[k].user_id == u,
        forall|i: int| 0 <= i < plan.len() && i != k ==> (#[trigger] plan[i]).user_id != u,
    ensures
        apply_plan(dir, plan)[u] == apply_change(dir[u], plan[k]),
    decreases plan.len(),
{
    lemma_apply_plan_dom(dir, plan.drop_last());
    if k == plan.len() - 1 {
        assert forall|i: int| 0 <= i < plan.drop_last().len() implies (#[trigger] plan.drop_last()[i]).user_id != u by {
            assert(plan.drop_last()[i] == plan[i]);
        }
        lemma_apply_plan_untouched(dir, plan.drop_last(), u);
    } else {
        assert forall|i: int| 0 <= i < plan.drop_last().len() && i != k implies (#[trigger] plan.drop_last()[i]).user_id != u by {
            assert(plan.drop_last()[i] == plan[i]);
        }
        assert(plan.drop_last()[k] == plan[k]);
        lemma_apply_plan_touched(dir, plan.drop_last(), u, k);
        assert(plan.last() == plan[plan.len() - 1]);
    }
}

/// What the directory holds for `u` after a plan for `group` was carried out:
/// the owed correction applied to the roles the tick saw, or those roles.
proof fn lemma_plan_effect(
    conf: &Configuration,
    utc_secs: int,
    group: Map<u64, Set<u64>>,
    plan: Seq<Correction>,
    u: u64,
)
    requires
        is_plan(conf, utc_secs, group, plan),
        group.contains_key(u),
    ensures
        apply_plan(group, plan).contains_key(u),
        owed(conf, utc_secs, group, u) matches Some(c) ==> apply_plan(group, plan)[u]
            == apply_change(group[u], c),
        owed(conf, utc_secs, group, u) is None ==> apply_plan(group, plan)[u] == group[u],
{
    lemma_apply_plan_dom(group, plan);
    match owed(conf, utc_secs, group, u) {
        Some(c) => {
            let k = choose|k: int| 0 <= k < plan.len() && plan[k] == c;
            assert forall|i: int| 0 <= i < plan.len() && i != k implies (#[trigger] plan[i]).user_id != u by {
                if i < k {
                    assert(plan[i].user_id != plan[k].user_id);
                } else {
                    assert(plan[k].user_id != plan[i].user_id);
                }
            }
            lemma_apply_plan_touched(group, plan, u, k);
        },
        None => {
            assert forall|i: int| 0 <= i < plan.len() implies (#[trigger] plan[i]).user_id != u by {
                assert(owed(conf, utc_secs, group, plan[i].user_id) == Some(plan[i]));
            }
            lemma_apply_plan_untouched(group, plan, u);
        },
    }
}

/// After a tick's plan has been carried out in full, a configured member with
/// a valid zone holds the child role exactly when they hold the parent role
/// and their local hour lies in the window.
///
/// The one exception left out: a member who holds the child role without the
/// parent role, inside the window, keeps the child role (no rule removes it).
pub proof fn lemma_settled_tick(
    conf: &Configuration,
    utc_secs: int,
    group: Map<u64, Set<u64>>,
    plan: Seq<Correction>,
    u: u64,
)
    requires
        is_plan(conf, utc_secs, group, plan),
        conf.member_timezones@.contains_key(u),
        is_tz_name(conf.member_timezones@[u]@),
        group.contains_key(u),
        !(user_inside(conf, utc_secs, u) && group[u].contains(conf.child_role_id)
            && !group[u].contains(conf.parent_role_id)),
    ensures
        apply_plan(group, plan).contains_key(u),
        apply_plan(group, plan)[u].contains(conf.child_role_id) <==> (apply_plan(
            group,
            plan,
        )[u].contains(conf.parent_role_id) && user_inside(conf, utc_secs, u)),
{
    lemma_plan_effect(conf, utc_secs, group, plan, u);
}

/// A second tick at the same instant, on the directory that the first tick's
/// plan left behind, owes no correction.
pub proof fn lemma_tick_idempotent(
    conf: &Configuration,
    utc_secs: int,
    group: Map<u64, Set<u64>>,
    first: Seq<Correction>,
    second: Seq<Correction>,
)
    requires
        is_plan(conf, utc_secs, group, first),
        is_plan(conf, utc_secs, apply_plan(group, first), second),
    ensures
        second.len() == 0,
{
    let after = apply_plan(group, first);
    lemma_apply_plan_dom(group, first);
    if second.len() > 0 {
        let c = second[0];
        let u = c.user_id;
        assert(owed(conf, utc_secs, after, u) == Some(c));
        assert(after.contains_key(u));
        lemma_plan_effect(conf, utc_secs, group, first, u);
    }
}

} // verus!
