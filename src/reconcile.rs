use vstd::prelude::*;
use std::collections::HashMap;
use crate::config::Configuration;
use crate::timezone::{is_tz_name, local_hour, local_hour_of};
use crate::window::{in_window, window_contains};

pub use crate::timezone::MAX_INSTANT;

verus! {

broadcast use vstd::std_specs::hash::group_hash_axioms;

/// Whether a role is granted or taken away.
#[derive(Clone, Copy, PartialEq, Eq, Structural, Debug)]
pub enum RoleChange {
    Add,
    Remove,
}

/// One role mutation to send to the directory.
#[derive(Clone, Copy, PartialEq, Eq, Structural, Debug)]
pub struct Correction {
    pub user_id: u64,
    pub role_id: u64,
    pub change: RoleChange,
}

/// What the directory reported for one group in this tick: the roles of each
/// member that could be resolved. A member that is absent could not be.
pub struct GroupView {
    pub members: HashMap<u64, Vec<u64>>,
}

impl GroupView {
    /// Each resolved member's roles, as a set.
    pub open spec fn roles(&self) -> Map<u64, Set<u64>> {
        self.members@.map_values(|v: Vec<u64>| v@.to_set())
    }
}

/// The change, if any, that brings a member holding `roles` in line: the
/// child role is added to a holder of the parent role inside the window, and
/// taken from anyone who holds it outside the window.
pub open spec fn change_for(parent: u64, child: u64, inside: bool, roles: Set<u64>) -> Option<
    RoleChange,
> {
    if inside && roles.contains(parent) && !roles.contains(child) {
        Some(RoleChange::Add)
    } else if !inside && roles.contains(child) {
        Some(RoleChange::Remove)
    } else {
        None
    }
}

/// Whether `user` lies in the window at `utc_secs`, by their stored zone.
pub open spec fn user_inside(conf: &Configuration, utc_secs: int, user: u64) -> bool {
    window_contains(
        conf.start_hour as int,
        conf.end_hour as int,
        local_hour_of(conf.member_timezones@[user]@, utc_secs),
    )
}

/// The correction that a tick owes `user`: none unless the user has a valid
/// stored zone and was resolved in the group.
pub open spec fn owed(conf: &Configuration, utc_secs: int, group: Map<u64, Set<u64>>, user: u64) -> Option<
    Correction,
> {
    if conf.member_timezones@.contains_key(user) && is_tz_name(conf.member_timezones@[user]@)
        && group.contains_key(user) {
        match change_for(
            conf.parent_role_id,
            conf.child_role_id,
            user_inside(conf, utc_secs, user),
            group[user],
        ) {
            Some(c) => Some(Correction { user_id: user, role_id: conf.child_role_id, change: c }),
            None => None,
        }
    } else {
        None
    }
}

/// `plan` holds exactly the corrections owed, at most one per user.
pub open spec fn is_plan(
    conf: &Configuration,
    utc_secs: int,
    group: Map<u64, Set<u64>>,
    plan: Seq<Correction>,
) -> bool {
    &&& forall|i: int|
        0 <= i < plan.len() ==> owed(conf, utc_secs, group, #[trigger] plan[i].user_id) == Some(
            plan[i],
        )
    &&& forall|u: u64| #[trigger]
        owed(conf, utc_secs, group, u) is Some ==> plan.contains(
            owed(conf, utc_secs, group, u)->0,
        )
    &&& forall|i: int, j: int| 0 <= i < j < plan.len() ==> plan[i].user_id != plan[j].user_id
}

/// Whether `roles` holds `role`.
fn holds_role(roles: &Vec<u64>, role: u64) -> (r: bool)
    ensures
        r == roles@.to_set().contains(role),
{
    let mut i: usize = 0;
    while i < roles.len()
        invariant
            i <= roles.len(),
            forall|j: int| 0 <= j < i ==> roles@[j] != role,
        decreases roles.len() - i,
    {
        if roles[i] == role {
            assert(roles@.contains(role));
            return true;
        }
        i = i + 1;
    }
    false
}

/// The change owed to one member holding `roles`, given whether the member
/// is inside the window.
pub fn decide(parent_role_id: u64, child_role_id: u64, inside: bool, roles: &Vec<u64>) -> (r:
    Option<RoleChange>)
    ensures
        r == change_for(parent_role_id, child_role_id, inside, roles@.to_set()),
{
    let has_parent = holds_role(roles, parent_role_id);
    let has_child = holds_role(roles, child_role_id);
    if inside {
        if has_parent && !has_child {
            Some(RoleChange::Add)
        } else {
            None
        }
    } else if has_child {
        Some(RoleChange::Remove)
    } else {
        None
    }
}

/// The correction owed to `user`, whose stored zone name is `name`.
fn plan_member(conf: &Configuration, user: u64, name: &String, utc_secs: i64, g: &GroupView) -> (r:
    Option<Correction>)
    requires
        0 <= utc_secs <= MAX_INSTANT,
        conf.member_timezones@.contains_key(user),
        conf.member_timezones@[user] == *name,
    ensures
        r == owed(conf, utc_secs as int, g.roles(), user),
{
    let hour = match local_hour(name.as_str(), utc_secs) {
        None => return None,
        Some(h) => h,
    };
    let member_roles = match g.members.get(&user) {
        None => return None,
        Some(v) => v,
    };
    let inside = in_window(conf.start_hour, conf.end_hour, hour);
    match decide(conf.parent_role_id, conf.child_role_id, inside, member_roles) {
        None => None,
        Some(change) => Some(Correction { user_id: user, role_id: conf.child_role_id, change }),
    }
}

/// One reconciliation tick for a group at `utc_secs` seconds after the Unix
/// epoch. When the directory could not give the group (`None`) the tick is
/// skipped and nothing is planned. Otherwise the result holds exactly the
/// corrections owed: users whose zone name is not valid, or who were not
/// resolved, are left alone.
pub fn plan_tick(conf: &Configuration, utc_secs: i64, group: Option<&GroupView>) -> (r: Vec<
    Correction,
>)
    requires
        0 <= utc_secs <= MAX_INSTANT,
    ensures
        group is None ==> r@.len() == 0,
        group matches Some(g) ==> is_plan(conf, utc_secs as int, g.roles(), r@),
{
    let mut out: Vec<Correction> = Vec::new();
    let g = match group {
        None => return out,
        Some(g) => g,
    };
    let ghost roles = g.roles();
    let ghost m = conf.member_timezones@;
    for (user, name) in it: conf.member_timezones.iter()
        invariant
            0 <= utc_secs <= MAX_INSTANT,
            roles == g.roles(),
            m == conf.member_timezones@,
            it.seq().len() == m.dom().len(),
            forall|j: int|
                0 <= j < it.seq().len() ==> m.contains_key(*(#[trigger] it.seq()[j]).0) && m[*it.seq()[j].0]
                    == *it.seq()[j].1,
            forall|k: u64| #[trigger] m.contains_key(k) ==> it.seq().contains((&k, &m[k])),
            it.seq().no_duplicates(),
            forall|i: int|
                0 <= i < out@.len() ==> owed(conf, utc_secs as int, roles, #[trigger] out@[i].user_id)
                    == Some(out@[i]),
            forall|i: int|
                #![trigger out@[i]]
                0 <= i < out@.len() ==> exists|j: int|
                    0 <= j < it.index() && *(#[trigger] it.seq()[j]).0 == out@[i].user_id,
            forall|j: int|
                0 <= j < it.index() ==> (owed(conf, utc_secs as int, roles, *(#[trigger] it.seq()[j]).0) is Some
                    ==> out@.contains(owed(conf, utc_secs as int, roles, *it.seq()[j].0)->0)),
            forall|a: int, b: int| 0 <= a < b < out@.len() ==> out@[a].user_id != out@[b].user_id,
    {
        let ghost before = out@;
        let ghost k = it.index();
        assert(it.seq()[k] == (user, name));
        match plan_member(conf, *user, name, utc_secs, g) {
            None => {},
            Some(c) => {
                out.push(c);
            },
        }
        assert forall|j: int|
            0 <= j <= k && owed(conf, utc_secs as int, roles, *(#[trigger] it.seq()[j]).0) is Some
            implies out@.contains(owed(conf, utc_secs as int, roles, *it.seq()[j].0)->0) by {
            if j < k {
                let x = owed(conf, utc_secs as int, roles, *it.seq()[j].0)->0;
                let t = choose|t: int| 0 <= t < before.len() && before[t] == x;
                assert(out@[t] == x);
            } else {
                assert(out@[out@.len() - 1] == owed(conf, utc_secs as int, roles, *it.seq()[j].0)->0);
            }
        }
    }
    out
}

} // verus!
