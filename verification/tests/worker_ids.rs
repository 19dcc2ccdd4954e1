use golem_common::ids::{GrantId, PlanId, ProjectId, ProjectPolicyId, TemplateId, TokenId};
use golem_common::proto;
use golem_common::worker::{PromiseId, ScheduleId, VersionedWorkerId, WorkerId};

const UUID_TEXT: &str = "67e55044-10b1-426f-9247-bb680e5fe0c8";
const UUID_VALUE: u128 = 0x67e5504410b1426f9247bb680e5fe0c8;

fn worker(name: &str) -> WorkerId {
    WorkerId { template_id: TemplateId(UUID_VALUE), worker_name: name.to_string() }
}

#[test]
fn template_id_display_is_hyphenated_lower_case() {
    assert_eq!(TemplateId(UUID_VALUE).to_display_string(), UUID_TEXT);
    assert_eq!(
        TemplateId(0xa1a2a3a4b1b2c1c2d1d2d3d4d5d6d7d8).to_display_string(),
        "a1a2a3a4-b1b2-c1c2-d1d2-d3d4d5d6d7d8"
    );
    assert_eq!(TemplateId(0).to_display_string(), "00000000-0000-0000-0000-000000000000");
}

#[test]
fn worker_slug_key_and_uri() {
    let w = worker("worker-1");
    assert_eq!(w.slug(), format!("{}/worker-1", UUID_TEXT));
    assert_eq!(w.to_display_string(), format!("{}/worker-1", UUID_TEXT));
    assert_eq!(w.to_redis_key(), format!("{}:worker-1", UUID_TEXT));
    assert_eq!(w.uri(), format!("worker://{}/worker-1", UUID_TEXT));
}

#[test]
fn worker_id_parses_its_redis_key_back() {
    let w = worker("my worker");
    let parsed = WorkerId::parse(&w.to_redis_key()).unwrap();
    assert_eq!(parsed, w);
}

#[test]
fn worker_id_parses_other_uuid_forms() {
    let expected = worker("w");
    let simple = WorkerId::parse("67E5504410B1426F9247BB680E5FE0C8:w").unwrap();
    assert_eq!(simple, expected);
    let braced = WorkerId::parse("{67e55044-10b1-426f-9247-bb680e5fe0c8}:w").unwrap();
    assert_eq!(braced, expected);
    let urn = WorkerId::parse("URN:uuid:67e55044-10b1-426f-9247-bb680e5fe0c8:w");
    // the urn form holds two more `:` so the text splits into four parts
    assert_eq!(
        urn.unwrap_err(),
        "invalid worker id: URN:uuid:67e55044-10b1-426f-9247-bb680e5fe0c8:w - expected format: <template_id>:<worker_name>"
    );
    let empty_name = WorkerId::parse(&format!("{}:", UUID_TEXT)).unwrap();
    assert_eq!(empty_name, worker(""));
}

#[test]
fn worker_id_parse_errors() {
    assert_eq!(
        WorkerId::parse("not-a-uuid:w").unwrap_err(),
        "invalid template id: not-a-uuid:w - expected uuid"
    );
    assert_eq!(
        WorkerId::parse("no-colon").unwrap_err(),
        "invalid worker id: no-colon - expected format: <template_id>:<worker_name>"
    );
    assert_eq!(
        WorkerId::parse("a:b:c").unwrap_err(),
        "invalid worker id: a:b:c - expected format: <template_id>:<worker_name>"
    );
    assert_eq!(
        WorkerId::parse("").unwrap_err(),
        "invalid worker id:  - expected format: <template_id>:<worker_name>"
    );
    assert_eq!(
        WorkerId::parse("67e55044-10b1-426f-9247-bb680e5fe0cg:w").unwrap_err(),
        "invalid template id: 67e55044-10b1-426f-9247-bb680e5fe0cg:w - expected uuid"
    );
}

#[test]
fn worker_id_from_str_matches_parse() {
    let w: WorkerId = format!("{}:abc", UUID_TEXT).parse().unwrap();
    assert_eq!(w, worker("abc"));
    let e = "x".parse::<WorkerId>().unwrap_err();
    assert_eq!(e, "invalid worker id: x - expected format: <template_id>:<worker_name>");
}

#[test]
fn worker_id_message_roundtrip() {
    let w = worker("w1");
    let message = w.clone().into_proto();
    let t = message.template_id.unwrap();
    let u = t.value.unwrap();
    assert_eq!(u.high_bits, 0x67e5504410b1426f);
    assert_eq!(u.low_bits, 0x9247bb680e5fe0c8);
    assert_eq!(message.name, "w1");
    assert_eq!(WorkerId::from_proto(message), w);
    let via_from: proto::golem::WorkerId = w.clone().into();
    assert_eq!(WorkerId::try_from_proto(via_from).unwrap(), w);
}

#[test]
fn worker_id_message_missing_value() {
    let message = proto::golem::WorkerId {
        template_id: Some(proto::golem::TemplateId { value: None }),
        name: "w".to_string(),
    };
    assert_eq!(WorkerId::try_from_proto(message).unwrap_err(), "Missing field: value");
}

#[test]
fn template_id_message_conversions() {
    let m: proto::golem::TemplateId = TemplateId(UUID_VALUE).into();
    assert_eq!(TemplateId::try_from(m).unwrap(), TemplateId(UUID_VALUE));
    let missing = proto::golem::TemplateId { value: None };
    assert_eq!(TemplateId::try_from(missing).unwrap_err(), "Missing field: value");
}

#[test]
fn versioned_worker_slug() {
    let v = VersionedWorkerId { worker_id: worker("w"), template_version: 12 };
    assert_eq!(v.slug(), format!("{}/w#12", UUID_TEXT));
    assert_eq!(v.to_display_string(), format!("{}/w#12", UUID_TEXT));
    let neg = VersionedWorkerId { worker_id: worker("w"), template_version: i32::MIN };
    assert_eq!(neg.slug(), format!("{}/w#-2147483648", UUID_TEXT));
}

#[test]
fn promise_id_key_and_display() {
    let p = PromiseId { worker_id: worker("w"), oplog_idx: 42 };
    assert_eq!(p.to_redis_key(), format!("{}:w:42", UUID_TEXT));
    assert_eq!(p.to_display_string(), format!("{}/w/42", UUID_TEXT));
    let zero = PromiseId { worker_id: worker("w"), oplog_idx: 0 };
    assert_eq!(zero.to_redis_key(), format!("{}:w:0", UUID_TEXT));
}

#[test]
fn promise_id_message_conversions() {
    let p = PromiseId { worker_id: worker("w"), oplog_idx: -3 };
    let m: proto::golem::PromiseId = p.clone().into();
    assert_eq!(m.oplog_idx, -3);
    assert_eq!(PromiseId::try_from_proto(m).unwrap(), p);
    let missing = proto::golem::PromiseId { worker_id: None, oplog_idx: 1 };
    assert_eq!(PromiseId::try_from_proto(missing).unwrap_err(), "Missing worker_id");
    let no_value = proto::golem::PromiseId {
        worker_id: Some(proto::golem::WorkerId {
            template_id: Some(proto::golem::TemplateId { value: None }),
            name: "w".to_string(),
        }),
        oplog_idx: 1,
    };
    assert_eq!(PromiseId::try_from_proto(no_value).unwrap_err(), "Missing field: value");
}

#[test]
fn schedule_id_display() {
    let s = ScheduleId {
        timestamp: 1700000000000,
        promise_id: PromiseId { worker_id: worker("w"), oplog_idx: 7 },
    };
    assert_eq!(s.to_display_string(), format!("{}/w/7@1700000000000", UUID_TEXT));
}

#[test]
fn other_ids_display_as_uuid_text() {
    assert_eq!(GrantId(UUID_VALUE).to_display_string(), UUID_TEXT);
    assert_eq!(PlanId(1).to_display_string(), "00000000-0000-0000-0000-000000000001");
    assert_eq!(ProjectId(UUID_VALUE).to_display_string(), UUID_TEXT);
    assert_eq!(ProjectPolicyId(u128::MAX).to_display_string(), "ffffffff-ffff-ffff-ffff-ffffffffffff");
    assert_eq!(TokenId(UUID_VALUE).to_display_string(), UUID_TEXT);
}

#[test]
fn promise_id_message_roundtrip_keeps_every_field() {
    let p = PromiseId { worker_id: worker("round"), oplog_idx: i32::MAX };
    let m: proto::golem::PromiseId = p.clone().into();
    assert_eq!(PromiseId::try_from_proto(m).unwrap(), p);
}
