//! Messages of the `golem` wire package, as plain structures.

use vstd::prelude::*;

verus! {

/// A UUID split into its high and low 64 bits.
#[derive(Clone, Copy, Debug, PartialEq, Eq, Structural)]
pub struct Uuid {
    pub high_bits: u64,
    pub low_bits: u64,
}

/// Message form of a template id.
#[derive(Clone, Copy, Debug, PartialEq, Eq, Structural)]
pub struct TemplateId {
    pub value: Option<Uuid>,
}

/// Message form of a worker id.
#[derive(Clone, Debug)]
pub struct WorkerId {
    pub template_id: Option<TemplateId>,
    pub name: String,
}

/// Message form of a promise id.
#[derive(Clone, Debug)]
pub struct PromiseId {
    pub worker_id: Option<WorkerId>,
    pub oplog_idx: i32,
}

/// Message form of a shard id.
#[derive(Clone, Copy, Debug, PartialEq, Eq, Structural)]
pub struct ShardId {
    pub value: i64,
}

/// Message form of an invocation key.
#[derive(Clone, Debug)]
pub struct InvocationKey {
    pub value: String,
}

/// Message form of an account id.
#[derive(Clone, Debug)]
pub struct AccountId {
    pub name: String,
}

/// Message form of a calling convention.
#[derive(Clone, Copy, Debug, PartialEq, Eq, Structural)]
pub enum CallingConvention {
    Component,
    Stdio,
    StdioEventloop,
}

impl CallingConvention {
    /// The number that the wire format sends for the variant: its position in
    /// declaration order, from 0.
    pub open spec fn wire_code(self) -> i32 {
        match self {
            CallingConvention::Component => 0,
            CallingConvention::Stdio => 1,
            CallingConvention::StdioEventloop => 2,
        }
    }
}

/// Message form of a worker status.
#[derive(Clone, Copy, Debug, PartialEq, Eq, Structural)]
pub enum WorkerStatus {
    Running,
    Idle,
    Suspended,
    Interrupted,
    Retrying,
    Failed,
    Exited,
}

impl WorkerStatus {
    /// The number that the wire format sends for the variant: its position in
    /// declaration order, from 0.
    pub open spec fn wire_code(self) -> i32 {
        match self {
            WorkerStatus::Running => 0,
            WorkerStatus::Idle => 1,
            WorkerStatus::Suspended => 2,
            WorkerStatus::Interrupted => 3,
            WorkerStatus::Retrying => 4,
            WorkerStatus::Failed => 5,
            WorkerStatus::Exited => 6,
        }
    }
}

} // verus!
