//! Accounts, invocation keys, calling conventions, worker status and worker
//! metadata.

use vstd::prelude::*;
use vstd::string::StringExecFns;
use crate::ids::{uuid_text, uuid_to_text, random_v4_uuid, is_v4_layout};
use crate::proto;
use crate::text::{decimal_text, push_i64};
use crate::worker::VersionedWorkerId;

verus! {

/// Identifies an account.
#[derive(Clone, Debug, PartialEq, Eq, Hash, PartialOrd, Ord)]
pub struct AccountId {
    pub value: String,
}

impl AccountId {
    /// A fresh account id: the hyphenated text of a random version-4 UUID.
    pub fn generate() -> (res: Self)
        ensures
            exists|v: u128| is_v4_layout(v) && res.value@ == uuid_text(v),
    {
        let v = random_v4_uuid();
        Self::from_uuid_value(v)
    }

    /// The account id whose value is the hyphenated text of the UUID value `v`,
    /// as `generate` makes it from the value it draws.
    pub fn from_uuid_value(v: u128) -> (res: Self)
        ensures
            res.value@ == uuid_text(v),
    {
        AccountId { value: uuid_to_text(v) }
    }

    /// The text form, as `Display` renders it: the value itself.
    pub fn to_display_string(&self) -> (res: String)
        ensures
            res@ == self.value@,
    {
        self.value.clone()
    }
}

impl std::str::FromStr for AccountId {
    type Err = std::convert::Infallible;

    /// Always succeeds: the account id whose value is the text.
    fn from_str(s: &str) -> (res: Result<Self, std::convert::Infallible>)
        ensures
            res matches Ok(a) && a.value@ == s@,
    {
        Ok(AccountId { value: <String as StringExecFns>::from_str(s) })
    }
}

impl From<&str> for AccountId {
    fn from(value: &str) -> (res: Self)
        ensures
            res.value@ == value@,
    {
        AccountId { value: String::from_str(value) }
    }
}

impl vstd::std_specs::convert::FromSpecImpl<&str> for AccountId {
    open spec fn obeys_from_spec() -> bool {
        false
    }

    open spec fn from_spec(v: &str) -> Self {
        arbitrary()
    }
}

impl From<proto::golem::AccountId> for AccountId {
    fn from(proto: proto::golem::AccountId) -> (res: Self) {
        AccountId { value: proto.name }
    }
}

impl vstd::std_specs::convert::FromSpecImpl<proto::golem::AccountId> for AccountId {
    open spec fn obeys_from_spec() -> bool {
        true
    }

    open spec fn from_spec(v: proto::golem::AccountId) -> Self {
        AccountId { value: v.name }
    }
}

impl From<AccountId> for proto::golem::AccountId {
    fn from(value: AccountId) -> (res: Self) {
        proto::golem::AccountId { name: value.value }
    }
}

impl vstd::std_specs::convert::FromSpecImpl<AccountId> for proto::golem::AccountId {
    open spec fn obeys_from_spec() -> bool {
        true
    }

    open spec fn from_spec(v: AccountId) -> Self {
        proto::golem::AccountId { name: v.value }
    }
}

/// A key that makes repeated invocations of a worker idempotent.
#[derive(Clone, Debug, PartialEq, Eq, Hash)]
pub struct InvocationKey {
    pub value: String,
}

impl InvocationKey {
    /// The key with the given value.
    pub fn new(value: String) -> (res: Self)
        ensures
            res.value == value,
    {
        Self { value }
    }

    /// The text form, as `Display` renders it: the value itself.
    pub fn to_display_string(&self) -> (res: String)
        ensures
            res@ == self.value@,
    {
        self.value.clone()
    }
}

impl From<proto::golem::InvocationKey> for InvocationKey {
    fn from(proto: proto::golem::InvocationKey) -> (res: Self) {
        Self { value: proto.value }
    }
}

impl vstd::std_specs::convert::FromSpecImpl<proto::golem::InvocationKey> for InvocationKey {
    open spec fn obeys_from_spec() -> bool {
        true
    }

    open spec fn from_spec(v: proto::golem::InvocationKey) -> Self {
        InvocationKey { value: v.value }
    }
}

impl From<InvocationKey> for proto::golem::InvocationKey {
    fn from(value: InvocationKey) -> (res: Self) {
        Self { value: value.value }
    }
}

impl vstd::std_specs::convert::FromSpecImpl<InvocationKey> for proto::golem::InvocationKey {
    open spec fn obeys_from_spec() -> bool {
        true
    }

    open spec fn from_spec(v: InvocationKey) -> Self {
        proto::golem::InvocationKey { value: v.value }
    }
}

/// How a worker's exported functions are called.
#[derive(Clone, Debug, Eq, PartialEq, Structural)]
pub enum CallingConvention {
    Component,
    Stdio,
    StdioEventloop,
}

/// The numeric code of a calling convention: 0, 1 and 2 in declaration order.
pub open spec fn calling_convention_code(c: CallingConvention) -> i32 {
    match c {
        CallingConvention::Component => 0,
        CallingConvention::Stdio => 1,
        CallingConvention::StdioEventloop => 2,
    }
}

/// The calling convention with a numeric code, if any.
pub open spec fn calling_convention_of_code(value: i32) -> Option<CallingConvention> {
    if value == 0 {
        Some(CallingConvention::Component)
    } else if value == 1 {
        Some(CallingConvention::Stdio)
    } else if value == 2 {
        Some(CallingConvention::StdioEventloop)
    } else {
        None
    }
}

impl TryFrom<i32> for CallingConvention {
    type Error = String;

    fn try_from(value: i32) -> (res: Result<Self, String>)
        ensures
            match calling_convention_of_code(value) {
                Some(c) => res == Ok::<CallingConvention, String>(c),
                None => res matches Err(e) && e@ == "Unknown calling convention: "@ + decimal_text(
                    value as int,
                ),
            },
    {
        match value {
            0 => Ok(CallingConvention::Component),
            1 => Ok(CallingConvention::Stdio),
            2 => Ok(CallingConvention::StdioEventloop),
            _ => {
                let mut e = String::from_str("Unknown calling convention: ");
                push_i64(&mut e, value as i64);
                Err(e)
            },
        }
    }
}

impl vstd::std_specs::convert::TryFromSpecImpl<i32> for CallingConvention {
    open spec fn obeys_try_from_spec() -> bool {
        false
    }

    open spec fn try_from_spec(v: i32) -> Result<Self, String> {
        arbitrary()
    }
}

impl From<proto::golem::CallingConvention> for CallingConvention {
    fn from(value: proto::golem::CallingConvention) -> (res: Self)
        ensures
            calling_convention_code(res) == value.wire_code(),
    {
        match value {
            proto::golem::CallingConvention::Component => CallingConvention::Component,
            proto::golem::CallingConvention::Stdio => CallingConvention::Stdio,
            proto::golem::CallingConvention::StdioEventloop => CallingConvention::StdioEventloop,
        }
    }
}

impl vstd::std_specs::convert::FromSpecImpl<proto::golem::CallingConvention> for CallingConvention {
    open spec fn obeys_from_spec() -> bool {
        true
    }

    open spec fn from_spec(v: proto::golem::CallingConvention) -> Self {
        match v {
            proto::golem::CallingConvention::Component => CallingConvention::Component,
            proto::golem::CallingConvention::Stdio => CallingConvention::Stdio,
            proto::golem::CallingConvention::StdioEventloop => CallingConvention::StdioEventloop,
        }
    }
}

impl From<CallingConvention> for i32 {
    fn from(value: CallingConvention) -> (res: i32) {
        match value {
            CallingConvention::Component => 0,
            CallingConvention::Stdio => 1,
            CallingConvention::StdioEventloop => 2,
        }
    }
}

impl vstd::std_specs::convert::FromSpecImpl<CallingConvention> for i32 {
    open spec fn obeys_from_spec() -> bool {
        true
    }

    open spec fn from_spec(v: CallingConvention) -> i32 {
        calling_convention_code(v)
    }
}

/// Every calling convention reads back from its code, and every code that
/// reads as a calling convention is that convention's code.
pub proof fn lemma_calling_convention_code_roundtrip(c: CallingConvention, value: i32)
    ensures
        calling_convention_of_code(calling_convention_code(c)) == Some(c),
        calling_convention_of_code(value) == Some(c) ==> calling_convention_code(c) == value,
        calling_convention_of_code(value) is Some <==> 0 <= value <= 2,
{
}

/// Reading a calling convention from its message keeps it: the convention read
/// has the code that the message sends, so different messages give different
/// conventions, and every convention is read from some message.
pub proof fn lemma_calling_convention_from_message(
    m1: proto::golem::CallingConvention,
    m2: proto::golem::CallingConvention,
    c: CallingConvention,
)
    ensures
        calling_convention_code(
            <CallingConvention as vstd::std_specs::convert::FromSpec<proto::golem::CallingConvention>>::from_spec(m1),
        ) == m1.wire_code(),
        <CallingConvention as vstd::std_specs::convert::FromSpec<proto::golem::CallingConvention>>::from_spec(m1)
            == <CallingConvention as vstd::std_specs::convert::FromSpec<proto::golem::CallingConvention>>::from_spec(m2)
            ==> m1 == m2,
        exists|m: proto::golem::CallingConvention|
            <CallingConvention as vstd::std_specs::convert::FromSpec<proto::golem::CallingConvention>>::from_spec(m) == c,
{
    let m = match c {
        CallingConvention::Component => proto::golem::CallingConvention::Component,
        CallingConvention::Stdio => proto::golem::CallingConvention::Stdio,
        CallingConvention::StdioEventloop => proto::golem::CallingConvention::StdioEventloop,
    };
    assert(<CallingConvention as vstd::std_specs::convert::FromSpec<proto::golem::CallingConvention>>::from_spec(m) == c);
}

/// The last known status of a worker.
///
/// This is always recorded together with the current oplog index, and it can
/// only be used as a source of truth if there are no newer oplog entries since
/// the record.
#[derive(Clone, Copy, Debug, PartialEq, Eq, Structural, Hash)]
pub enum WorkerStatus {
    /// The worker is running an invoked function
    Running,
    /// The worker is ready to run an invoked function
    Idle,
    /// An invocation is active but waiting for something (sleeping, waiting for a promise)
    Suspended,
    /// The last invocation was interrupted but will be resumed
    Interrupted,
    /// The last invocation failed an a retry was scheduled
    Retrying,
    /// The last invocation failed and the worker can no longer be used
    Failed,
    /// The worker exited after a successful invocation and can no longer be invoked
    Exited,
}

/// The numeric code of a worker status: 0 to 6 in declaration order.
pub open spec fn worker_status_code(s: WorkerStatus) -> i32 {
    match s {
        WorkerStatus::Running => 0,
        WorkerStatus::Idle => 1,
        WorkerStatus::Suspended => 2,
        WorkerStatus::Interrupted => 3,
        WorkerStatus::Retrying => 4,
        WorkerStatus::Failed => 5,
        WorkerStatus::Exited => 6,
    }
}

/// The worker status with a numeric code, if any.
pub open spec fn worker_status_of_code(value: i32) -> Option<WorkerStatus> {
    if value == 0 {
        Some(WorkerStatus::Running)
    } else if value == 1 {
        Some(WorkerStatus::Idle)
    } else if value == 2 {
        Some(WorkerStatus::Suspended)
    } else if value == 3 {
        Some(WorkerStatus::Interrupted)
    } else if value == 4 {
        Some(WorkerStatus::Retrying)
    } else if value == 5 {
        Some(WorkerStatus::Failed)
    } else if value == 6 {
        Some(WorkerStatus::Exited)
    } else {
        None
    }
}

/// The message form of a worker status: the variant of the same name.
pub open spec fn worker_status_message(s: WorkerStatus) -> proto::golem::WorkerStatus {
    match s {
        WorkerStatus::Running => proto::golem::WorkerStatus::Running,
        WorkerStatus::Idle => proto::golem::WorkerStatus::Idle,
        WorkerStatus::Suspended => proto::golem::WorkerStatus::Suspended,
        WorkerStatus::Interrupted => proto::golem::WorkerStatus::Interrupted,
        WorkerStatus::Retrying => proto::golem::WorkerStatus::Retrying,
        WorkerStatus::Failed => proto::golem::WorkerStatus::Failed,
        WorkerStatus::Exited => proto::golem::WorkerStatus::Exited,
    }
}

impl From<WorkerStatus> for proto::golem::WorkerStatus {
    fn from(value: WorkerStatus) -> (res: Self)
        ensures
            res.wire_code() == worker_status_code(value),
    {
        match value {
            WorkerStatus::Running => proto::golem::WorkerStatus::Running,
            WorkerStatus::Idle => proto::golem::WorkerStatus::Idle,
            WorkerStatus::Suspended => proto::golem::WorkerStatus::Suspended,
            WorkerStatus::Interrupted => proto::golem::WorkerStatus::Interrupted,
            WorkerStatus::Retrying => proto::golem::WorkerStatus::Retrying,
            WorkerStatus::Failed => proto::golem::WorkerStatus::Failed,
            WorkerStatus::Exited => proto::golem::WorkerStatus::Exited,
        }
    }
}

impl vstd::std_specs::convert::FromSpecImpl<WorkerStatus> for proto::golem::WorkerStatus {
    open spec fn obeys_from_spec() -> bool {
        true
    }

    open spec fn from_spec(v: WorkerStatus) -> Self {
        worker_status_message(v)
    }
}

/// The message form keeps the status: the message sends the status's own code,
/// so different statuses give different messages, and every message is the
/// form of some status.
pub proof fn lemma_worker_status_message_keeps_status(s1: WorkerStatus, s2: WorkerStatus, m: proto::golem::WorkerStatus)
    ensures
        <proto::golem::WorkerStatus as vstd::std_specs::convert::FromSpec<WorkerStatus>>::from_spec(s1).wire_code()
            == worker_status_code(s1),
        <proto::golem::WorkerStatus as vstd::std_specs::convert::FromSpec<WorkerStatus>>::from_spec(s1)
            == <proto::golem::WorkerStatus as vstd::std_specs::convert::FromSpec<WorkerStatus>>::from_spec(s2)
            ==> s1 == s2,
        exists|s: WorkerStatus|
            <proto::golem::WorkerStatus as vstd::std_specs::convert::FromSpec<WorkerStatus>>::from_spec(s) == m,
{
    let s = match m {
        proto::golem::WorkerStatus::Running => WorkerStatus::Running,
        proto::golem::WorkerStatus::Idle => WorkerStatus::Idle,
        proto::golem::WorkerStatus::Suspended => WorkerStatus::Suspended,
        proto::golem::WorkerStatus::Interrupted => WorkerStatus::Interrupted,
        proto::golem::WorkerStatus::Retrying => WorkerStatus::Retrying,
        proto::golem::WorkerStatus::Failed => WorkerStatus::Failed,
        proto::golem::WorkerStatus::Exited => WorkerStatus::Exited,
    };
    assert(<proto::golem::WorkerStatus as vstd::std_specs::convert::FromSpec<WorkerStatus>>::from_spec(s) == m);
}

impl TryFrom<i32> for WorkerStatus {
    type Error = String;

    fn try_from(value: i32) -> (res: Result<Self, String>)
        ensures
            match worker_status_of_code(value) {
                Some(s) => res == Ok::<WorkerStatus, String>(s),
                None => res matches Err(e) && e@ == "Unknown worker status: "@ + decimal_text(
                    value as int,
                ),
            },
    {
        match value {
            0 => Ok(WorkerStatus::Running),
            1 => Ok(WorkerStatus::Idle),
            2 => Ok(WorkerStatus::Suspended),
            3 => Ok(WorkerStatus::Interrupted),
            4 => Ok(WorkerStatus::Retrying),
            5 => Ok(WorkerStatus::Failed),
            6 => Ok(WorkerStatus::Exited),
            _ => {
                let mut e = String::from_str("Unknown worker status: ");
                push_i64(&mut e, value as i64);
                Err(e)
            },
        }
    }
}

impl vstd::std_specs::convert::TryFromSpecImpl<i32> for WorkerStatus {
    open spec fn obeys_try_from_spec() -> bool {
        false
    }

    open spec fn try_from_spec(v: i32) -> Result<Self, String> {
        arbitrary()
    }
}

impl From<WorkerStatus> for i32 {
    fn from(value: WorkerStatus) -> (res: i32) {
        match value {
            WorkerStatus::Running => 0,
            WorkerStatus::Idle => 1,
            WorkerStatus::Suspended => 2,
            WorkerStatus::Interrupted => 3,
            WorkerStatus::Retrying => 4,
            WorkerStatus::Failed => 5,
            WorkerStatus::Exited => 6,
        }
    }
}

impl vstd::std_specs::convert::FromSpecImpl<WorkerStatus> for i32 {
    open spec fn obeys_from_spec() -> bool {
        true
    }

    open spec fn from_spec(v: WorkerStatus) -> i32 {
        worker_status_code(v)
    }
}

/// Every worker status reads back from its code, and every code that reads
/// as a status is that status's code.
pub proof fn lemma_worker_status_code_roundtrip(s: WorkerStatus, value: i32)
    ensures
        worker_status_of_code(worker_status_code(s)) == Some(s),
        worker_status_of_code(value) == Some(s) ==> worker_status_code(s) == value,
        worker_status_of_code(value) is Some <==> 0 <= value <= 6,
{
}

/// A worker status together with the oplog index at which it was recorded.
#[derive(Clone, Copy, Debug, PartialEq, Eq, Structural)]
pub struct WorkerStatusRecord {
    pub status: WorkerStatus,
    pub oplog_idx: i32,
}

impl Default for WorkerStatusRecord {
    fn default() -> (res: Self)
        ensures
            res.status == WorkerStatus::Idle,
            res.oplog_idx == 0,
    {
        WorkerStatusRecord { status: WorkerStatus::Idle, oplog_idx: 0 }
    }
}

/// What is known of a worker: its id, arguments, environment, account and last
/// known status.
#[derive(Clone, Debug)]
pub struct WorkerMetadata {
    pub worker_id: VersionedWorkerId,
    pub args: Vec<String>,
    pub env: Vec<(String, String)>,
    pub account_id: AccountId,
    pub last_known_status: WorkerStatusRecord,
}

impl WorkerMetadata {
    /// The metadata of a fresh worker: no arguments, no environment, and the
    /// default (idle, index 0) status record.
    pub fn default(worker_id: VersionedWorkerId, account_id: AccountId) -> (res: WorkerMetadata)
        ensures
            res.worker_id == worker_id,
            res.args@.len() == 0,
            res.env@.len() == 0,
            res.account_id == account_id,
            res.last_known_status == (WorkerStatusRecord { status: WorkerStatus::Idle, oplog_idx: 0 }),
    {
        WorkerMetadata {
            worker_id,
            args: Vec::new(),
            env: Vec::new(),
            account_id,
            last_known_status: WorkerStatusRecord::default(),
        }
    }
}

} // verus!
