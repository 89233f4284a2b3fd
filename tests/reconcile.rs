use std::collections::HashMap;
use time_bot::{
    decide, in_window, plan_tick, set_timezone, Configuration, Correction, GroupRegistry,
    GroupView, RoleChange, UserData, MAX_INSTANT,
};

const PARENT: u64 = 100;
const CHILD: u64 = 200;
const OTHER: u64 = 300;
const U: u64 = 42;

// 2024-01-15 00:00:00 UTC; Berlin is at UTC+1 on that day.
const DAY: i64 = 1705276800;
const HOUR: i64 = 3600;

fn berlin_at(local_hour: i64) -> i64 {
    DAY + (local_hour - 1) * HOUR
}

fn config(start: u32, end: u32) -> Configuration {
    Configuration::new(start, end, PARENT, CHILD)
}

fn with_zone(mut conf: Configuration, user: u64, zone: &str) -> Configuration {
    conf.member_timezones.insert(user, zone.to_string());
    conf
}

fn group(members: &[(u64, Vec<u64>)]) -> GroupView {
    let mut map = HashMap::new();
    for (u, roles) in members {
        map.insert(*u, roles.clone());
    }
    GroupView { members: map }
}

fn apply(g: &mut GroupView, plan: &[Correction]) {
    for c in plan {
        if let Some(roles) = g.members.get_mut(&c.user_id) {
            match c.change {
                RoleChange::Add => {
                    if !roles.contains(&c.role_id) {
                        roles.push(c.role_id)
                    }
                }
                RoleChange::Remove => roles.retain(|r| *r != c.role_id),
            }
        }
    }
}

fn has(g: &GroupView, user: u64, role: u64) -> bool {
    g.members[&user].contains(&role)
}

#[test]
fn scenario_parent_gets_child_inside_window() {
    let conf = with_zone(config(9, 17), U, "Europe/Berlin");
    let mut g = group(&[(U, vec![PARENT])]);
    let plan = plan_tick(&conf, berlin_at(10), Some(&g));
    assert_eq!(plan, vec![Correction { user_id: U, role_id: CHILD, change: RoleChange::Add }]);
    apply(&mut g, &plan);
    assert!(has(&g, U, PARENT));
    assert!(has(&g, U, CHILD));
}

#[test]
fn scenario_child_removed_after_window() {
    let conf = with_zone(config(9, 17), U, "Europe/Berlin");
    let mut g = group(&[(U, vec![PARENT])]);
    let plan = plan_tick(&conf, berlin_at(10), Some(&g));
    apply(&mut g, &plan);
    let plan = plan_tick(&conf, berlin_at(18), Some(&g));
    assert_eq!(plan, vec![Correction { user_id: U, role_id: CHILD, change: RoleChange::Remove }]);
    apply(&mut g, &plan);
    assert!(!has(&g, U, CHILD));
    assert!(has(&g, U, PARENT));
}

#[test]
fn scenario_unavailable_group_skips_tick() {
    let conf = with_zone(config(9, 17), U, "Europe/Berlin");
    let mut g = group(&[(U, vec![PARENT])]);
    let plan = plan_tick(&conf, berlin_at(10), None);
    assert!(plan.is_empty());
    let plan = plan_tick(&conf, berlin_at(10), Some(&g));
    assert_eq!(plan.len(), 1);
    apply(&mut g, &plan);
    assert!(has(&g, U, CHILD));
}

#[test]
fn scenario_invalid_timezone_rejected() {
    let mut data = UserData::new(with_zone(config(9, 17), U, "Europe/Berlin"));
    let r = set_timezone(&mut data, U, "Not/AZone");
    let e = r.unwrap_err();
    assert_eq!(e.name, "Not/AZone");
    assert_eq!(data.snapshot().timezone_of(U).map(|s| s.as_str()), Some("Europe/Berlin"));
    let r = set_timezone(&mut data, 7, "Not/AZone");
    assert!(r.is_err());
    assert_eq!(data.snapshot().timezone_of(7), None);
    assert_eq!(data.snapshot().member_timezones.len(), 1);
}

#[test]
fn set_timezone_stores_and_replaces() {
    let mut data = UserData::new(config(9, 17));
    assert!(set_timezone(&mut data, U, "Europe/Berlin").is_ok());
    assert_eq!(data.snapshot().timezone_of(U).map(|s| s.as_str()), Some("Europe/Berlin"));
    assert!(set_timezone(&mut data, U, "Asia/Tokyo").is_ok());
    assert_eq!(data.snapshot().timezone_of(U).map(|s| s.as_str()), Some("Asia/Tokyo"));
    assert_eq!(data.snapshot().member_timezones.len(), 1);
    assert_eq!(data.snapshot().start_hour, 9);
    assert_eq!(data.snapshot().child_role_id, CHILD);
}

#[test]
fn window_boundaries() {
    assert!(in_window(9, 17, 9));
    assert!(in_window(9, 17, 16));
    assert!(!in_window(9, 17, 17));
    assert!(!in_window(9, 17, 8));
    assert!(!in_window(22, 6, 23));
    assert!(!in_window(22, 6, 2));
    assert!(!in_window(5, 5, 5));
}

#[test]
fn tick_boundaries_follow_local_hour() {
    let conf = with_zone(config(9, 17), U, "Europe/Berlin");
    let g = group(&[(U, vec![PARENT])]);
    assert_eq!(plan_tick(&conf, berlin_at(9), Some(&g)).len(), 1);
    assert!(plan_tick(&conf, berlin_at(9) - 1, Some(&g)).is_empty());
    let g = group(&[(U, vec![PARENT, CHILD])]);
    assert!(plan_tick(&conf, berlin_at(17) - 1, Some(&g)).is_empty());
    assert_eq!(
        plan_tick(&conf, berlin_at(17), Some(&g)),
        vec![Correction { user_id: U, role_id: CHILD, change: RoleChange::Remove }]
    );
}

#[test]
fn zone_decides_local_hour() {
    // At 10:00 in Berlin it is 04:00 in New York and 18:00 in Tokyo.
    let g = group(&[(U, vec![PARENT])]);
    let conf = with_zone(config(9, 17), U, "America/New_York");
    assert!(plan_tick(&conf, berlin_at(10), Some(&g)).is_empty());
    let conf = with_zone(config(9, 17), U, "Asia/Tokyo");
    assert!(plan_tick(&conf, berlin_at(10), Some(&g)).is_empty());
    let conf = with_zone(config(3, 5), U, "America/New_York");
    assert_eq!(plan_tick(&conf, berlin_at(10), Some(&g)).len(), 1);
    let conf = with_zone(config(18, 19), U, "Asia/Tokyo");
    assert_eq!(plan_tick(&conf, berlin_at(10), Some(&g)).len(), 1);
}

#[test]
fn settled_tick_matches_window_for_all_members() {
    let mut conf = config(9, 17);
    let zones = [(1, "Europe/Berlin"), (2, "Asia/Tokyo"), (3, "America/New_York"), (4, "UTC")];
    for (u, z) in zones {
        conf.member_timezones.insert(u, z.to_string());
    }
    let mut g = group(&[
        (1, vec![PARENT]),
        (2, vec![PARENT, CHILD]),
        (3, vec![CHILD, OTHER]),
        (4, vec![OTHER]),
    ]);
    let now = berlin_at(10);
    let plan = plan_tick(&conf, now, Some(&g));
    assert_eq!(plan.len(), 3);
    apply(&mut g, &plan);
    // Berlin 10:00 and UTC 09:00 are inside; Tokyo 18:00 and New York 04:00 are not.
    let inside = [(1, true), (2, false), (3, false), (4, true)];
    for (u, i) in inside {
        assert_eq!(has(&g, u, CHILD), has(&g, u, PARENT) && i);
    }
    assert!(has(&g, 3, OTHER));
}

#[test]
fn second_tick_is_idempotent() {
    let mut conf = config(9, 17);
    for (u, z) in [(1, "Europe/Berlin"), (2, "Asia/Tokyo"), (3, "America/New_York")] {
        conf.member_timezones.insert(u, z.to_string());
    }
    let mut g = group(&[(1, vec![PARENT]), (2, vec![PARENT, CHILD]), (3, vec![CHILD])]);
    let now = berlin_at(10);
    let first = plan_tick(&conf, now, Some(&g));
    assert_eq!(first.len(), 3);
    apply(&mut g, &first);
    assert!(plan_tick(&conf, now, Some(&g)).is_empty());
}

#[test]
fn invalid_zone_and_missing_member_are_skipped() {
    let mut conf = config(9, 17);
    conf.member_timezones.insert(1, "Not/AZone".to_string());
    conf.member_timezones.insert(2, "Europe/Berlin".to_string());
    conf.member_timezones.insert(3, "Europe/Berlin".to_string());
    let g = group(&[(1, vec![PARENT]), (3, vec![PARENT])]);
    let plan = plan_tick(&conf, berlin_at(10), Some(&g));
    assert_eq!(plan, vec![Correction { user_id: 3, role_id: CHILD, change: RoleChange::Add }]);
}

#[test]
fn child_removed_outside_window_without_parent() {
    let conf = with_zone(config(9, 17), U, "Europe/Berlin");
    let g = group(&[(U, vec![CHILD])]);
    assert_eq!(
        plan_tick(&conf, berlin_at(20), Some(&g)),
        vec![Correction { user_id: U, role_id: CHILD, change: RoleChange::Remove }]
    );
    assert!(plan_tick(&conf, berlin_at(10), Some(&g)).is_empty());
}

#[test]
fn wrapping_window_is_never_inside() {
    let conf = with_zone(config(22, 6), U, "UTC");
    let g = group(&[(U, vec![PARENT])]);
    assert!(plan_tick(&conf, DAY + 23 * HOUR, Some(&g)).is_empty());
    assert!(plan_tick(&conf, DAY + 2 * HOUR, Some(&g)).is_empty());
}

#[test]
fn instant_range_edges() {
    let conf = with_zone(config(0, 1), U, "UTC");
    let g = group(&[(U, vec![PARENT])]);
    assert_eq!(plan_tick(&conf, 0, Some(&g)).len(), 1);
    assert!(plan_tick(&conf, MAX_INSTANT, Some(&g)).is_empty());
    let conf = with_zone(config(23, 24), U, "UTC");
    assert_eq!(plan_tick(&conf, MAX_INSTANT, Some(&g)).len(), 1);
}

#[test]
fn empty_configuration_plans_nothing() {
    let conf = config(0, 24);
    let g = group(&[(U, vec![PARENT])]);
    assert!(plan_tick(&conf, DAY, Some(&g)).is_empty());
}

#[test]
fn decide_cases() {
    assert_eq!(decide(PARENT, CHILD, true, &vec![PARENT]), Some(RoleChange::Add));
    assert_eq!(decide(PARENT, CHILD, true, &vec![PARENT, CHILD]), None);
    assert_eq!(decide(PARENT, CHILD, true, &vec![]), None);
    assert_eq!(decide(PARENT, CHILD, true, &vec![CHILD]), None);
    assert_eq!(decide(PARENT, CHILD, false, &vec![PARENT, CHILD]), Some(RoleChange::Remove));
    assert_eq!(decide(PARENT, CHILD, false, &vec![CHILD]), Some(RoleChange::Remove));
    assert_eq!(decide(PARENT, CHILD, false, &vec![PARENT]), None);
    assert_eq!(decide(PARENT, PARENT, true, &vec![PARENT]), None);
}

#[test]
fn registry_starts_each_group_once() {
    let mut reg = GroupRegistry::new();
    assert!(!reg.is_running(5));
    assert!(reg.on_group_available(5));
    assert!(reg.is_running(5));
    assert!(!reg.on_group_available(5));
    assert!(reg.on_group_available(6));
    assert!(!reg.on_group_available(6));
}
