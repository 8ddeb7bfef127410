//! The engine driven as a host drives it: a data store in memory, a clock
//! that the test moves, and a reaper that runs a cycle every interval.

use expiremember::command::CommandError;
use expiremember::engine::{Engine, REAPER_INTERVAL_MS};
use expiremember::store::{CollectionKind, Removal};
use expiremember::ttl::{unit_from, Request};
use std::collections::{HashMap, HashSet};

enum Stored {
    Hash(HashMap<String, String>),
    Members(HashSet<String>),
    Scored(HashMap<String, i64>),
    Text(String),
}

struct Host {
    engine: Engine,
    store: HashMap<String, Stored>,
    now: u64,
    reaper_running: bool,
    next_cycle: u64,
    removals: usize,
}

impl Host {
    fn new() -> Host {
        Host {
            engine: Engine::with_default_capacity(),
            store: HashMap::new(),
            now: 1_700_000_000_000,
            reaper_running: false,
            next_cycle: 0,
            removals: 0,
        }
    }

    fn hset(&mut self, key: &str, field: &str, value: &str) {
        let stored = self.store.entry(key.to_string()).or_insert_with(|| Stored::Hash(HashMap::new()));
        match stored {
            Stored::Hash(fields) => {
                fields.insert(field.to_string(), value.to_string());
            }
            _ => panic!("WRONGTYPE"),
        }
    }

    fn sadd(&mut self, key: &str, member: &str) {
        let stored =
            self.store.entry(key.to_string()).or_insert_with(|| Stored::Members(HashSet::new()));
        match stored {
            Stored::Members(members) => {
                members.insert(member.to_string());
            }
            _ => panic!("WRONGTYPE"),
        }
    }

    fn zadd(&mut self, key: &str, score: i64, member: &str) {
        let stored =
            self.store.entry(key.to_string()).or_insert_with(|| Stored::Scored(HashMap::new()));
        match stored {
            Stored::Scored(members) => {
                members.insert(member.to_string(), score);
            }
            _ => panic!("WRONGTYPE"),
        }
    }

    fn set(&mut self, key: &str, value: &str) {
        self.store.insert(key.to_string(), Stored::Text(value.to_string()));
    }

    fn hexists(&self, key: &str, field: &str) -> u8 {
        match self.store.get(key) {
            Some(Stored::Hash(fields)) if fields.contains_key(field) => 1,
            _ => 0,
        }
    }

    fn sismember(&self, key: &str, member: &str) -> u8 {
        match self.store.get(key) {
            Some(Stored::Members(members)) if members.contains(member) => 1,
            _ => 0,
        }
    }

    fn zscore(&self, key: &str, member: &str) -> Option<i64> {
        match self.store.get(key) {
            Some(Stored::Scored(members)) => members.get(member).copied(),
            _ => None,
        }
    }

    fn kind(&self, key: &str) -> CollectionKind {
        match self.store.get(key) {
            None => CollectionKind::Absent,
            Some(Stored::Hash(_)) => CollectionKind::Hash,
            Some(Stored::Members(_)) => CollectionKind::PlainSet,
            Some(Stored::Scored(_)) => CollectionKind::SortedSet,
            Some(Stored::Text(_)) => CollectionKind::Unsupported,
        }
    }

    fn remove(&mut self, key: &str, member: &str, op: Removal) {
        self.removals += 1;
        let emptied = match (self.store.get_mut(key), op) {
            (Some(Stored::Hash(fields)), Removal::HashField) => {
                fields.remove(member);
                fields.is_empty()
            }
            (Some(Stored::Members(members)), Removal::SetMember) => {
                members.remove(member);
                members.is_empty()
            }
            (Some(Stored::Scored(members)), Removal::SortedSetMember) => {
                members.remove(member);
                members.is_empty()
            }
            _ => false,
        };
        if emptied {
            self.store.remove(key);
        }
    }

    fn expiremember(
        &mut self,
        key: &str,
        member: &str,
        ttl: i64,
        unit: Option<&str>,
    ) -> Result<i64, CommandError> {
        let unit = unit_from(unit)?;
        let kind = match Request::of(ttl) {
            Request::ExpireNow => self.kind(key),
            _ => CollectionKind::Absent,
        };
        let outcome = self.engine.schedule_or_cancel(
            key.to_string(),
            member.to_string(),
            ttl,
            unit,
            self.now,
            kind,
        )?;
        if let Some(op) = outcome.removal {
            self.remove(key, member, op);
        }
        if outcome.start_reaper {
            self.reaper_running = true;
            self.next_cycle = self.now;
        }
        Ok(outcome.status.code())
    }

    fn run_cycle(&mut self, at: u64) {
        let batches = self.engine.cycle(at);
        for batch in batches {
            let op = match self.kind(&batch.key).removal() {
                Some(op) => op,
                None => continue,
            };
            for member in &batch.members {
                self.remove(&batch.key, member, op);
            }
        }
    }

    fn sleep(&mut self, millis: u64) {
        let wake = self.now + millis;
        while self.reaper_running && self.next_cycle <= wake {
            let at = self.next_cycle;
            self.run_cycle(at);
            self.next_cycle = at + REAPER_INTERVAL_MS;
        }
        self.now = wake;
    }
}

#[test]
fn test_expiremember_functionality() {
    let mut con = Host::new();
    con.hset("myhash", "field1", "value1");
    con.expiremember("myhash", "field1", 2, None).unwrap();
    con.sleep(1000);

    let exists = con.hexists("myhash", "field1");
    assert!(exists == 1, "The field should still exist at this point in time");

    con.sleep(2000);

    let exists = con.hexists("myhash", "field1");
    assert!(exists == 0, "The field should be deleted after expiration");
}

#[test]
fn test_expiremember_bulk_functionality() {
    let mut con = Host::new();
    let num_fields: usize = 1000;
    let max_expiration: u64 = 10;

    for i in 0..num_fields {
        let field = format!("field{}", i);
        let expire_in = (i % max_expiration as usize) as u64 + 1;
        con.hset(&format!("myhash{}", expire_in / 2), &field, "value");
        con.expiremember(&format!("myhash{}", expire_in / 2), &field, expire_in as i64, None)
            .unwrap();
    }
    let start = con.now;

    for sec in 0..max_expiration {
        while con.now - start < sec * 1000 + 500 {
            con.sleep(50);
        }
        for i in 0..num_fields {
            let field = format!("field{}", i);
            let expiration_sec = (i % max_expiration as usize) as u64 + 1;
            let exists = con.hexists(&format!("myhash{}", expiration_sec / 2), &field);
            let elapsed = con.now - start;
            if elapsed > 1000 * expiration_sec {
                assert!(
                    exists == 0,
                    "Field {} with expiry {}s should have expired after {} msecs",
                    field,
                    expiration_sec,
                    elapsed
                );
            } else {
                assert!(
                    exists == 1,
                    "Field {} with expiry {}s should still exist at {} msecs",
                    field,
                    expiration_sec,
                    elapsed
                );
            }
        }
    }

    con.sleep(1000);
    for i in 0..num_fields {
        let expiration_sec = (i % max_expiration as usize) as u64 + 1;
        let field = format!("field{}", i);
        let exists = con.hexists(&format!("myhash{}", expiration_sec / 2), &field);
        assert!(exists == 0, "Field {} should have expired after MAX_EXPIRATION seconds", field);
    }
    assert_eq!(con.removals, num_fields);
}

#[test]
fn test_expiremember_overriding_functionality() {
    let mut con = Host::new();
    con.hset("myhash3", "field", "value");
    con.expiremember("myhash3", "field", 5, None).unwrap();

    con.sleep(1000);

    con.expiremember("myhash3", "field", 2, None).unwrap();

    con.sleep(3000);

    let exists = con.hexists("myhash3", "field");
    assert!(
        exists == 0,
        "The field should be deleted after the overridden expiration of 2 seconds"
    );
}

#[test]
fn test_expiremember_expiry_zero_deletes_immediately() {
    let mut con = Host::new();
    con.hset("myhash5", "field", "value");
    con.expiremember("myhash5", "field", 5, None).unwrap();

    con.sleep(1000);

    con.expiremember("myhash5", "field", 0, None).unwrap();

    let exists = con.hexists("myhash5", "field");
    assert!(exists == 0, "The field should be deleted immediately after setting expiration to 0");
}

#[test]
fn test_expiremember_set_functionality() {
    let mut con = Host::new();
    con.sadd("myset", "member1");
    con.expiremember("myset", "member1", 2, None).unwrap();
    con.sleep(1000);

    let is_member = con.sismember("myset", "member1");
    assert!(is_member == 1, "The member should still exist in the set at this point in time");

    con.sleep(2000);

    let is_member = con.sismember("myset", "member1");
    assert!(is_member == 0, "The set member should be deleted after expiration");
}

#[test]
fn test_expiremember_bulk_set_functionality() {
    let mut con = Host::new();
    let num_members: usize = 1000;
    let max_expiration: u64 = 10;

    for i in 0..num_members {
        let member = format!("member{}", i);
        let expire_in = (i % max_expiration as usize) as u64 + 1;
        con.sadd(&format!("myset_bulk{}", expire_in / 2), &member);
        con.expiremember(&format!("myset_bulk{}", expire_in / 2), &member, expire_in as i64, None)
            .unwrap();
    }
    let start = con.now;

    for sec in 1..max_expiration {
        while con.now - start < sec * 1000 + 500 {
            con.sleep(50);
        }
        for i in 0..num_members {
            let member = format!("member{}", i);
            let expiration_sec = (i % max_expiration as usize) as u64 + 1;
            let is_member = con.sismember(&format!("myset_bulk{}", expiration_sec / 2), &member);
            if con.now - start > 1000 * expiration_sec {
                assert!(
                    is_member == 0,
                    "Member {} should have expired after {} seconds",
                    member,
                    sec
                );
            } else {
                assert!(is_member == 1, "Member {} should still exist at {} seconds", member, sec);
            }
        }
    }
}

#[test]
fn test_expiremember_on_unset_key() {
    let mut con = Host::new();
    let result = con.expiremember("nonexistent_hash", "nonexistent_field", 0, None);
    assert!(result.is_ok(), "Expiremember on a non-existent field should not cause an error");
    assert_eq!(result, Ok(1));
    assert_eq!(con.removals, 0);
}

#[test]
fn test_expiremember_zset_functionality() {
    let mut con = Host::new();
    con.zadd("myzset", 1, "member1");
    con.expiremember("myzset", "member1", 2, None).unwrap();
    con.sleep(1000);

    let score = con.zscore("myzset", "member1");
    assert!(
        score.is_some(),
        "The member should still exist in the sorted set at this point in time"
    );

    con.sleep(2000);

    let score = con.zscore("myzset", "member1");
    assert!(score.is_none(), "The sorted set member should be deleted after expiration");
}

#[test]
fn test_expiremember_bulk_zset_functionality() {
    let mut con = Host::new();
    let num_members: usize = 1000;
    let max_expiration: u64 = 10;

    for i in 0..num_members {
        let member = format!("member{}", i);
        let expire_in = (i % max_expiration as usize) as u64 + 1;
        con.zadd(&format!("myzset_bulk{}", expire_in / 2), i as i64, &member);
        con.expiremember(&format!("myzset_bulk{}", expire_in / 2), &member, expire_in as i64, None)
            .unwrap();
    }
    let start = con.now;

    for sec in 1..max_expiration {
        while con.now - start < sec * 1000 + 500 {
            con.sleep(50);
        }
        for i in 0..num_members {
            let member = format!("member{}", i);
            let expiration_sec = (i % max_expiration as usize) as u64 + 1;
            let score = con.zscore(&format!("myzset_bulk{}", expiration_sec / 2), &member);
            if con.now - start > 1000 * expiration_sec {
                assert!(
                    score.is_none(),
                    "Member {} should have expired after {} seconds",
                    member,
                    sec
                );
            } else {
                assert!(score.is_some(), "Member {} should still exist at {} seconds", member, sec);
            }
        }
    }
}

#[test]
fn override_keeps_the_member_until_the_new_due_time() {
    let mut con = Host::new();
    con.hset("h", "f", "v");
    con.expiremember("h", "f", 5, None).unwrap();
    con.expiremember("h", "f", 2, None).unwrap();
    con.sleep(1500);
    assert_eq!(con.hexists("h", "f"), 1);
    con.sleep(1000);
    assert_eq!(con.hexists("h", "f"), 0);
    con.sleep(4000);
    assert_eq!(con.removals, 1);
}

#[test]
fn override_to_a_later_time_outlives_the_stale_entry() {
    let mut con = Host::new();
    con.sadd("s", "m");
    con.expiremember("s", "m", 2, None).unwrap();
    con.sleep(1000);
    con.expiremember("s", "m", 5, None).unwrap();
    con.sleep(4900);
    assert_eq!(con.sismember("s", "m"), 1);
    con.sleep(200);
    assert_eq!(con.sismember("s", "m"), 0);
}

#[test]
fn cancellation_leaves_the_member_in_place() {
    let mut con = Host::new();
    con.hset("h", "f", "v");
    assert_eq!(con.expiremember("h", "f", 5, None), Ok(1));
    con.sleep(1000);
    assert_eq!(con.expiremember("h", "f", -1, None), Ok(0));
    con.sleep(5000);
    assert_eq!(con.hexists("h", "f"), 1);
    assert_eq!(con.removals, 0);
    assert_eq!(con.engine.due_time_of("h", "f"), None);
}

#[test]
fn any_negative_value_cancels() {
    let mut con = Host::new();
    con.zadd("z", 7, "m");
    con.expiremember("z", "m", 1, None).unwrap();
    assert_eq!(con.expiremember("z", "m", -42, None), Ok(0));
    assert_eq!(con.expiremember("z", "m", i64::MIN, Some("ms")), Ok(0));
    con.sleep(3000);
    assert_eq!(con.zscore("z", "m"), Some(7));
}

#[test]
fn cancel_of_a_member_never_scheduled_is_no_error() {
    let mut con = Host::new();
    assert_eq!(con.expiremember("nowhere", "nobody", -1, None), Ok(0));
    assert_eq!(con.expiremember("nowhere", "nobody", -1, None), Ok(0));
    assert!(!con.reaper_running);
}

#[test]
fn immediate_removal_works_for_every_kind_of_collection() {
    let mut con = Host::new();
    con.hset("h", "m", "v");
    con.sadd("s", "m");
    con.zadd("z", 3, "m");
    assert_eq!(con.expiremember("h", "m", 0, None), Ok(1));
    assert_eq!(con.expiremember("s", "m", 0, None), Ok(1));
    assert_eq!(con.expiremember("z", "m", 0, None), Ok(1));
    assert_eq!(con.hexists("h", "m"), 0);
    assert_eq!(con.sismember("s", "m"), 0);
    assert_eq!(con.zscore("z", "m"), None);
    assert!(!con.reaper_running);
}

#[test]
fn immediate_removal_is_refused_for_a_plain_value() {
    let mut con = Host::new();
    con.hset("h", "f", "v");
    con.expiremember("h", "f", 5, None).unwrap();
    let due = con.engine.due_time_of("h", "f");
    con.set("h", "now a string");
    let refused = con.expiremember("h", "f", 0, None);
    assert_eq!(refused, Err(CommandError::UnsupportedType));
    assert_eq!(
        refused.unwrap_err().message(),
        "ERR key type not supported for 'expiremember' command"
    );
    assert_eq!(con.engine.due_time_of("h", "f"), due);
}

#[test]
fn reaper_skips_a_collection_that_is_gone_or_changed() {
    let mut con = Host::new();
    con.hset("gone", "f", "v");
    con.hset("changed", "f", "v");
    con.hset("kept", "f", "v");
    con.expiremember("gone", "f", 1, None).unwrap();
    con.expiremember("changed", "f", 1, None).unwrap();
    con.expiremember("kept", "f", 1, None).unwrap();
    con.store.remove("gone");
    con.set("changed", "text");
    con.sleep(1500);
    assert_eq!(con.hexists("kept", "f"), 0);
    assert!(matches!(con.store.get("changed"), Some(Stored::Text(_))));
    assert_eq!(con.engine.due_time_of("gone", "f"), None);
    assert_eq!(con.engine.due_time_of("changed", "f"), None);
    assert_eq!(con.removals, 1);
}

#[test]
fn millisecond_unit_is_honoured() {
    let mut con = Host::new();
    con.hset("h", "f", "v");
    assert_eq!(con.expiremember("h", "f", 250, Some("MS")), Ok(1));
    assert_eq!(con.engine.due_time_of("h", "f"), Some(1_700_000_000_250));
    con.sleep(200);
    assert_eq!(con.hexists("h", "f"), 1);
    con.sleep(100);
    assert_eq!(con.hexists("h", "f"), 0);
}

#[test]
fn unknown_unit_is_refused_before_anything_changes() {
    let mut con = Host::new();
    con.hset("h", "f", "v");
    con.expiremember("h", "f", 5, Some("s")).unwrap();
    let refused = con.expiremember("h", "f", -1, Some("minutes"));
    assert_eq!(refused, Err(CommandError::InvalidUnit));
    assert_eq!(
        refused.unwrap_err().message(),
        "ERR invalid time unit for 'expiremember' command"
    );
    assert_eq!(con.engine.due_time_of("h", "f"), Some(1_700_000_005_000));
}

#[test]
fn members_whose_names_add_up_alike_stay_apart() {
    let mut con = Host::new();
    con.hset("ab", "c", "v");
    con.hset("a", "bc", "v");
    con.expiremember("ab", "c", 1, None).unwrap();
    con.expiremember("a", "bc", 5, None).unwrap();
    assert_eq!(con.engine.due_time_of("ab", "c"), Some(1_700_000_001_000));
    assert_eq!(con.engine.due_time_of("a", "bc"), Some(1_700_000_005_000));
    con.sleep(2000);
    assert_eq!(con.hexists("ab", "c"), 0);
    assert_eq!(con.hexists("a", "bc"), 1);
    con.expiremember("ab", "c", -1, None).unwrap();
    con.sleep(4000);
    assert_eq!(con.hexists("a", "bc"), 0);
}

#[test]
fn bulk_members_leave_exactly_when_their_time_is_up() {
    let mut con = Host::new();
    for i in 0..1000u64 {
        let ttl = (i % 10 + 1) as i64;
        let key = format!("coll{}", i % 7);
        let member = format!("m{}", i);
        if i % 3 == 0 {
            con.hset(&key, &member, "v");
            con.expiremember(&key, &member, ttl, None).unwrap();
        }
    }
    let start = con.now;
    for step in 1..=21u64 {
        con.sleep(500);
        let elapsed = con.now - start;
        assert_eq!(elapsed, step * 500);
        for i in (0..1000u64).filter(|i| i % 3 == 0) {
            let ttl = i % 10 + 1;
            let present = con.hexists(&format!("coll{}", i % 7), &format!("m{}", i));
            assert_eq!(present == 0, elapsed >= ttl * 1000, "member {} at {} ms", i, elapsed);
        }
    }
}
