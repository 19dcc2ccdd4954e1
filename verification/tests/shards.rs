use std::collections::HashSet;

use golem_common::ids::TemplateId;
use golem_common::shard::{ShardAssignment, ShardId};
use golem_common::worker::WorkerId;

fn worker(value: u128, name: &str) -> WorkerId {
    WorkerId { template_id: TemplateId(value), worker_name: name.to_string() }
}

#[test]
fn hash_string_values() {
    assert_eq!(ShardId::hash_string(&String::new()), 0);
    assert_eq!(ShardId::hash_string(&"a".to_string()), 97);
    assert_eq!(ShardId::hash_string(&"ab".to_string()), 3105);
    assert_eq!(ShardId::hash_string(&"hello".to_string()), 99162322);
    // hashes the UTF-8 bytes, so a two-byte character counts twice
    assert_eq!(ShardId::hash_string(&"é".to_string()), 6214);
}

#[test]
fn hash_worker_id_values() {
    let w = worker(0x67e5504410b1426f9247bb680e5fe0c8, "worker-1");
    assert_eq!(ShardId::hash_worker_id(&w), 2995240713460104340);
    let zero = worker(0, "");
    assert_eq!(ShardId::hash_worker_id(&zero), 206158430256);
    let ones = worker(u128::MAX, "é");
    assert_eq!(ShardId::hash_worker_id(&ones), 6201934169322);
}

#[test]
fn from_worker_id_values() {
    let w = worker(0x67e5504410b1426f9247bb680e5fe0c8, "worker-1");
    assert_eq!(ShardId::from_worker_id(&w, 10), ShardId::new(0));
    assert_eq!(ShardId::from_worker_id(&w, 7), ShardId::new(0));
    let zero = worker(0, "");
    assert_eq!(ShardId::from_worker_id(&zero, 10), ShardId::new(6));
    assert_eq!(ShardId::from_worker_id(&zero, 7), ShardId::new(2));
    assert_eq!(ShardId::from_worker_id(&zero, 1), ShardId::new(0));
}

#[test]
fn from_worker_id_with_huge_shard_counts() {
    let zero = worker(0, "");
    // the count is taken as an i64: usize::MAX becomes -1, 2^63 becomes i64::MIN
    assert_eq!(ShardId::from_worker_id(&zero, usize::MAX), ShardId::new(0));
    assert_eq!(ShardId::from_worker_id(&zero, 1usize << 63), ShardId::new(206158430256));
}

#[test]
fn worker_shard_is_in_range() {
    for i in 0..50u128 {
        let w = worker(i * 0x1234_5678_9abc_def0_1122_3344, &format!("w{}", i));
        let s = ShardId::from_worker_id(&w, 13);
        let text = s.to_display_string();
        let n: i64 = text[1..text.len() - 1].parse().unwrap();
        assert!((0..13).contains(&n));
    }
}

#[test]
fn shard_neighbors_and_display() {
    let a = ShardId::new(4);
    assert!(a.is_left_neighbor(&ShardId::new(5)));
    assert!(!a.is_left_neighbor(&ShardId::new(3)));
    assert!(!a.is_left_neighbor(&ShardId::new(4)));
    assert_eq!(a.to_display_string(), "<4>");
    assert_eq!(ShardId::new(-17).to_display_string(), "<-17>");
}

#[test]
fn shard_id_message_conversions() {
    let m: golem_common::proto::golem::ShardId = ShardId::new(9).into();
    assert_eq!(m.value, 9);
    assert_eq!(ShardId::from(m), ShardId::new(9));
}

fn set(items: &[i64]) -> HashSet<i64> {
    items.iter().copied().collect()
}

#[test]
fn shard_assignment_assign_register_revoke() {
    let mut a = ShardAssignment::new(10, set(&[1, 2]));
    a.assign_shards(&set(&[2, 3]));
    assert_eq!(a.shard_ids, set(&[1, 2, 3]));
    assert_eq!(a.number_of_shards, 10);
    a.register(20, &set(&[7]));
    assert_eq!(a.shard_ids, set(&[1, 2, 3, 7]));
    assert_eq!(a.number_of_shards, 20);
    a.revoke_shards(&set(&[1, 7, 99]));
    assert_eq!(a.shard_ids, set(&[2, 3]));
    assert_eq!(a.number_of_shards, 20);
}

#[test]
fn shard_assignment_revoke_undoes_assign() {
    let mut a = ShardAssignment::new(5, set(&[0, 1]));
    let before = a.shard_ids.clone();
    a.assign_shards(&set(&[3, 4]));
    a.revoke_shards(&set(&[3, 4]));
    assert_eq!(a.shard_ids, before);
}

#[test]
fn shard_assignment_default_and_clone() {
    let d = ShardAssignment::default();
    assert_eq!(d.number_of_shards, 0);
    assert!(d.shard_ids.is_empty());
    let a = ShardAssignment::new(3, set(&[1, 2]));
    let c = a.clone();
    assert_eq!(c.number_of_shards, 3);
    assert_eq!(c.shard_ids, a.shard_ids);
}

#[test]
fn shard_assignment_display() {
    let empty = ShardAssignment::new(4, set(&[]));
    assert_eq!(empty.to_display_string(), "{ number_of_shards: 4, shard_ids:  }");
    let one = ShardAssignment::new(4, set(&[2]));
    assert_eq!(one.to_display_string(), "{ number_of_shards: 4, shard_ids: <2> }");
    let two = ShardAssignment::new(4, set(&[1, 3])).to_display_string();
    assert!(
        two == "{ number_of_shards: 4, shard_ids: <1>,<3> }"
            || two == "{ number_of_shards: 4, shard_ids: <3>,<1> }"
    );
}
