use vstd::prelude::*;
use std::collections::HashMap;
use crate::timezone::{is_tz_name, tz_name_valid};

verus! {

broadcast use vstd::std_specs::hash::group_hash_axioms;

/// The settings that every reconciliation tick reads.
///
/// `member_timezones` maps a user id to the time-zone name that the user
/// chose; its keys are unique by construction.
pub struct Configuration {
    pub start_hour: u32,
    pub end_hour: u32,
    pub parent_role_id: u64,
    pub child_role_id: u64,
    pub member_timezones: HashMap<u64, String>,
}

impl Configuration {
    /// The time-zone names, as character sequences, keyed by user id.
    pub open spec fn zones(&self) -> Map<u64, Seq<char>> {
        self.member_timezones@.map_values(|s: String| s@)
    }

    /// The window and the two roles agree between `self` and `other`.
    pub open spec fn same_settings(&self, other: &Configuration) -> bool {
        &&& self.start_hour == other.start_hour
        &&& self.end_hour == other.end_hour
        &&& self.parent_role_id == other.parent_role_id
        &&& self.child_role_id == other.child_role_id
    }

    /// A configuration with the given window and roles and no member zones.
    pub fn new(start_hour: u32, end_hour: u32, parent_role_id: u64, child_role_id: u64) -> (r:
        Configuration)
        ensures
            r.start_hour == start_hour,
            r.end_hour == end_hour,
            r.parent_role_id == parent_role_id,
            r.child_role_id == child_role_id,
            r.member_timezones@ == Map::<u64, String>::empty(),
    {
        Configuration {
            start_hour,
            end_hour,
            parent_role_id,
            child_role_id,
            member_timezones: HashMap::new(),
        }
    }

    /// The zone name stored for `user_id`, if any.
    pub fn timezone_of(&self, user_id: u64) -> (r: Option<&String>)
        ensures
            r.is_some() == self.member_timezones@.contains_key(user_id),
            r matches Some(s) ==> *s == self.member_timezones@[user_id],
    {
        self.member_timezones.get(&user_id)
    }
}

/// The process-wide configuration store. Callers share it behind a
/// read/write lock, so a reader sees a write either whole or not at all.
pub struct UserData {
    pub configuration: Configuration,
}

/// A zone name that is not in the time-zone database.
#[derive(Debug)]
pub struct InvalidTimezone {
    pub name: String,
}

impl UserData {
    pub fn new(configuration: Configuration) -> (r: UserData)
        ensures
            r.configuration == configuration,
    {
        UserData { configuration }
    }

    /// The configuration that a tick reads.
    pub fn snapshot(&self) -> (r: &Configuration)
        ensures
            *r == self.configuration,
    {
        &self.configuration
    }
}

/// Records `tzname` as the zone of `user_id`, after checking that the
/// time-zone database knows it. On failure nothing changes.
pub fn set_timezone(data: &mut UserData, user_id: u64, tzname: &str) -> (r: Result<
    (),
    InvalidTimezone,
>)
    ensures
        r is Ok <==> is_tz_name(tzname@),
        r matches Err(e) ==> e.name@ == tzname@,
        r is Ok ==> final(data).configuration.zones() == old(data).configuration.zones().insert(
            user_id,
            tzname@,
        ),
        r is Ok ==> final(data).configuration.same_settings(&old(data).configuration),
        r is Err ==> *final(data) == *old(data),
{
    if !tz_name_valid(tzname) {
        return Err(InvalidTimezone { name: tzname.to_owned() });
    }
    let ghost before = data.configuration.zones();
    data.configuration.member_timezones.insert(user_id, tzname.to_owned());
    assert(data.configuration.zones() =~= before.insert(user_id, tzname@));
    Ok(())
}

} // verus!
