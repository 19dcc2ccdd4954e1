use golem_common::metadata::{
    AccountId, CallingConvention, InvocationKey, WorkerMetadata, WorkerStatus, WorkerStatusRecord,
};
use golem_common::proto;
use golem_common::ids::TemplateId;
use golem_common::worker::{VersionedWorkerId, WorkerId};

#[test]
fn calling_convention_codes() {
    assert_eq!(CallingConvention::try_from(0).unwrap(), CallingConvention::Component);
    assert_eq!(CallingConvention::try_from(1).unwrap(), CallingConvention::Stdio);
    assert_eq!(CallingConvention::try_from(2).unwrap(), CallingConvention::StdioEventloop);
    assert_eq!(CallingConvention::try_from(3).unwrap_err(), "Unknown calling convention: 3");
    assert_eq!(CallingConvention::try_from(-1).unwrap_err(), "Unknown calling convention: -1");
    for c in [CallingConvention::Component, CallingConvention::Stdio, CallingConvention::StdioEventloop] {
        let code: i32 = c.clone().into();
        assert_eq!(CallingConvention::try_from(code).unwrap(), c);
    }
    assert_eq!(
        CallingConvention::from(proto::golem::CallingConvention::StdioEventloop),
        CallingConvention::StdioEventloop
    );
}

#[test]
fn worker_status_codes() {
    let all = [
        WorkerStatus::Running,
        WorkerStatus::Idle,
        WorkerStatus::Suspended,
        WorkerStatus::Interrupted,
        WorkerStatus::Retrying,
        WorkerStatus::Failed,
        WorkerStatus::Exited,
    ];
    for (i, s) in all.iter().enumerate() {
        let code: i32 = (*s).into();
        assert_eq!(code, i as i32);
        assert_eq!(WorkerStatus::try_from(code).unwrap(), *s);
    }
    assert_eq!(WorkerStatus::try_from(7).unwrap_err(), "Unknown worker status: 7");
    assert_eq!(WorkerStatus::try_from(i32::MIN).unwrap_err(), "Unknown worker status: -2147483648");
    let m: proto::golem::WorkerStatus = WorkerStatus::Retrying.into();
    assert_eq!(m, proto::golem::WorkerStatus::Retrying);
}

#[test]
fn worker_status_record_default() {
    let r = WorkerStatusRecord::default();
    assert_eq!(r.status, WorkerStatus::Idle);
    assert_eq!(r.oplog_idx, 0);
}

#[test]
fn account_id_conversions() {
    let a = AccountId::from("account-1");
    assert_eq!(a.value, "account-1");
    assert_eq!(a.to_display_string(), "account-1");
    let m: proto::golem::AccountId = a.clone().into();
    assert_eq!(m.name, "account-1");
    assert_eq!(AccountId::from(m), a);
}

#[test]
fn account_id_generate_is_uuid_text() {
    let a = AccountId::generate();
    let b = AccountId::generate();
    assert_ne!(a, b);
    assert_eq!(a.value.len(), 36);
    assert_eq!(&a.value[14..15], "4");
    assert!("89ab".contains(&a.value[19..20]));
    for (i, c) in a.value.chars().enumerate() {
        if i == 8 || i == 13 || i == 18 || i == 23 {
            assert_eq!(c, '-');
        } else {
            assert!(c.is_ascii_hexdigit() && !c.is_ascii_uppercase());
        }
    }
}

#[test]
fn invocation_key_conversions() {
    let k = InvocationKey::new("key-1".to_string());
    assert_eq!(k.value, "key-1");
    assert_eq!(k.to_display_string(), "key-1");
    let m: proto::golem::InvocationKey = k.clone().into();
    assert_eq!(m.value, "key-1");
    assert_eq!(InvocationKey::from(m), k);
}

#[test]
fn worker_metadata_default() {
    let id = VersionedWorkerId {
        worker_id: WorkerId { template_id: TemplateId(1), worker_name: "w".to_string() },
        template_version: 3,
    };
    let m = WorkerMetadata::default(id.clone(), AccountId::from("acc"));
    assert_eq!(m.worker_id, id);
    assert!(m.args.is_empty());
    assert!(m.env.is_empty());
    assert_eq!(m.account_id, AccountId::from("acc"));
    assert_eq!(m.last_known_status, WorkerStatusRecord { status: WorkerStatus::Idle, oplog_idx: 0 });
}

#[test]
fn account_id_from_str_and_uuid_value() {
    let a: AccountId = "acc-7".parse().unwrap();
    assert_eq!(a, AccountId::from("acc-7"));
    let b = AccountId::from_uuid_value(0x67e5504410b1426f9247bb680e5fe0c8);
    assert_eq!(b.value, "67e55044-10b1-426f-9247-bb680e5fe0c8");
}
