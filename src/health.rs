use vstd::prelude::*;

verus! {

/// Label that identifies this service in every health record.
pub open spec fn project_label() -> Seq<char> {
    "actix-web-playground"@
}

/// What a health record holds, as plain mathematical values.
pub struct HealthRecord {
    pub project: Seq<char>,
    pub time: u128,
}

/// The health record a request produces when it arrived at `started_at_ms`
/// (milliseconds since the Unix epoch).
pub open spec fn record_at(started_at_ms: u128) -> HealthRecord {
    HealthRecord { project: project_label(), time: started_at_ms }
}

/// Result of one health check: which service answered, and when the request
/// arrived, in milliseconds since the Unix epoch.
#[derive(Debug, Clone)]
pub struct HealthCheck {
    pub project: String,
    pub time: u128,
}

impl View for HealthCheck {
    type V = HealthRecord;

    open spec fn view(&self) -> HealthRecord {
        HealthRecord { project: self.project@, time: self.time }
    }
}

/// The service label as an owned string.
pub fn project_name() -> (r: String)
    ensures
        r@ == project_label(),
{
    "actix-web-playground".to_owned()
}

/// The unit of work run off the request-handling worker: builds the record
/// from the arrival time captured before the work started.
pub fn health_check(started_at_ms: u128) -> (r: HealthCheck)
    ensures
        r@ == record_at(started_at_ms),
{
    HealthCheck { project: project_name(), time: started_at_ms }
}

/// Why the offloaded unit of work produced no record.
#[derive(Debug, Clone, Copy, PartialEq, Eq, Structural)]
pub enum OffloadError {
    /// The thread that ran the work panicked.
    Panicked,
    /// The blocking-work pool did not run the work to completion (it was
    /// shutting down and cancelled it).
    Rejected,
}

/// Name of an error kind as it appears in an error reply.
pub open spec fn kind_label(e: OffloadError) -> Seq<char> {
    match e {
        OffloadError::Panicked => "OffloadPanicked"@,
        OffloadError::Rejected => "OffloadRejected"@,
    }
}

impl OffloadError {
    /// The kind's name, for the body of an error reply.
    pub fn kind(&self) -> (r: String)
        ensures
            r@ == kind_label(*self),
    {
        match self {
            OffloadError::Panicked => "OffloadPanicked".to_owned(),
            OffloadError::Rejected => "OffloadRejected".to_owned(),
        }
    }
}

/// HTTP status of a reply that carries a health record.
pub const STATUS_OK: u16 = 200;

/// HTTP status of a reply whose offloaded work failed.
pub const STATUS_SERVER_ERROR: u16 = 500;

/// What a handler sends back for one request to the health route.
#[derive(Debug)]
pub enum Reply {
    /// The work completed: the record goes out as the body.
    Healthy(HealthCheck),
    /// The offload mechanism failed: the kind goes out as the body.
    Failed(OffloadError),
}

/// A reply as plain values: its status and what its body holds.
pub enum ReplyModel {
    Healthy(HealthRecord),
    Failed(OffloadError),
}

impl View for Reply {
    type V = ReplyModel;

    open spec fn view(&self) -> ReplyModel {
        match self {
            Reply::Healthy(h) => ReplyModel::Healthy(h@),
            Reply::Failed(e) => ReplyModel::Failed(*e),
        }
    }
}

impl ReplyModel {
    /// HTTP status that goes with the reply.
    pub open spec fn status(self) -> u16 {
        match self {
            ReplyModel::Healthy(_) => STATUS_OK,
            ReplyModel::Failed(_) => STATUS_SERVER_ERROR,
        }
    }
}

/// The outcome of offloaded work, as plain values.
pub open spec fn outcome_view(outcome: Result<HealthCheck, OffloadError>) -> Result<HealthRecord, OffloadError> {
    match outcome {
        Ok(h) => Ok(h@),
        Err(e) => Err(e),
    }
}

/// The reply owed for an outcome of the offloaded work.
pub open spec fn reply_for(outcome: Result<HealthRecord, OffloadError>) -> ReplyModel {
    match outcome {
        Ok(h) => ReplyModel::Healthy(h),
        Err(e) => ReplyModel::Failed(e),
    }
}

impl Reply {
    /// HTTP status of this reply.
    pub fn status(&self) -> (r: u16)
        ensures
            r == self@.status(),
    {
        match self {
            Reply::Healthy(_) => STATUS_OK,
            Reply::Failed(_) => STATUS_SERVER_ERROR,
        }
    }
}

/// Turns the outcome of the offloaded work into the reply: the record with a
/// success status, or the failure's kind with a server-error status.
pub fn reply_to(outcome: Result<HealthCheck, OffloadError>) -> (r: Reply)
    ensures
        r@ == reply_for(outcome_view(outcome)),
{
    match outcome {
        Ok(h) => Reply::Healthy(h),
        Err(e) => Reply::Failed(e),
    }
}

/// A request that arrived at `started_at_ms` and whose work completed is
/// answered with a success status and a record whose project label is
/// non-empty and whose time is the arrival time, not the time the work ended.
pub proof fn served_record_is_arrival_record(started_at_ms: u128)
    ensures
        reply_for(Ok(record_at(started_at_ms))).status() == STATUS_OK,
        reply_for(Ok(record_at(started_at_ms))) == ReplyModel::Healthy(record_at(started_at_ms)),
        record_at(started_at_ms).project.len() > 0,
        record_at(started_at_ms).time == started_at_ms,
{
    reveal_strlit("actix-web-playground");
}

/// Every request gets the same project label, whenever it arrived.
pub proof fn project_is_constant(first_ms: u128, second_ms: u128)
    ensures
        record_at(first_ms).project == record_at(second_ms).project,
{
}

} // verus!
