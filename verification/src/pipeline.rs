//! The registration pipeline: one request's way from validation, through the
//! admission gate and the hashing of its password, to the account store.
//!
//! The pipeline decides; its driver does the outside work. Each call of
//! [`Pipeline::step`] takes what the driver has to report and answers with the
//! next thing to do. A slot of the admission gate is held while the password is
//! hashed and at no other time: it is given back before the store is asked.

use vstd::prelude::*;
use crate::error::AppError;
use crate::gate::{Admission, AdmissionGate};
use crate::text::{is_blank, text_is_blank};

verus! {

/// The admission timeout used where none is configured, in seconds.
pub const DEFAULT_ADMISSION_TIMEOUT_SECS: u64 = 10;

/// The store's constraint that keeps user names unique.
pub open spec fn username_constraint() -> Seq<char> {
    "users_username_key"@
}

pub open spec fn msg_empty_username() -> Seq<char> {
    "Username cannot be empty"@
}

pub open spec fn msg_shutting_down() -> Seq<char> {
    "Service is shutting down"@
}

pub open spec fn msg_busy() -> Seq<char> {
    "Server is busy, try later"@
}

pub open spec fn msg_hash_panicked() -> Seq<char> {
    "Hashing task panicked"@
}

pub open spec fn msg_hash_failed() -> Seq<char> {
    "Password hashing failed"@
}

pub open spec fn msg_database() -> Seq<char> {
    "Database error"@
}

pub open spec fn msg_username_taken() -> Seq<char> {
    "Username already exists"@
}

/// The body of a registration request. It holds the password in plain text,
/// so it has no `Debug`: it cannot be written to a log by accident.
#[derive(Clone, PartialEq, Eq)]
pub struct RegisterRequest {
    pub username: String,
    pub password: String,
}

/// The body of the answer to a registration that created an account.
#[derive(Debug, Clone, PartialEq, Eq)]
pub struct RegisterResponse {
    pub id: i32,
    pub username: String,
}

/// How one registration ended.
#[derive(Debug, Clone, PartialEq, Eq)]
pub enum PipelineOutcome {
    /// The store created the account.
    Created(RegisterResponse),
    /// The store holds an account of that name already.
    UsernameTaken,
    /// The request failed validation, with the reason.
    InvalidInput(String),
    /// No slot came free before the admission timeout.
    Overloaded,
    /// The admission gate, the hasher or the store failed, with the reason.
    InternalFailure(String),
}

impl PipelineOutcome {
    /// The HTTP status of the answer. Overload is answered as an internal
    /// error, with status 500.
    pub open spec fn spec_status(&self) -> u16 {
        match self {
            PipelineOutcome::Created(_) => 201,
            PipelineOutcome::UsernameTaken => 409,
            PipelineOutcome::InvalidInput(_) => 400,
            PipelineOutcome::Overloaded => 500,
            PipelineOutcome::InternalFailure(_) => 500,
        }
    }

    /// Whether `result` is this outcome as the client is to see it.
    pub open spec fn shown_as(&self, result: Result<RegisterResponse, AppError>) -> bool {
        match self {
            PipelineOutcome::Created(record) => result == Ok::<RegisterResponse, AppError>(*record),
            PipelineOutcome::UsernameTaken => result matches Err(AppError::Conflict(msg)) && msg@
                == msg_username_taken(),
            PipelineOutcome::InvalidInput(reason) => result == Err::<RegisterResponse, AppError>(
                AppError::BadRequest(*reason),
            ),
            PipelineOutcome::Overloaded => result matches Err(AppError::Internal(msg)) && msg@
                == msg_busy(),
            PipelineOutcome::InternalFailure(reason) => result == Err::<RegisterResponse, AppError>(
                AppError::Internal(*reason),
            ),
        }
    }

    pub fn status_code(&self) -> (code: u16)
        ensures
            code == self.spec_status(),
    {
        match self {
            PipelineOutcome::Created(_) => 201,
            PipelineOutcome::UsernameTaken => 409,
            PipelineOutcome::InvalidInput(_) => 400,
            PipelineOutcome::Overloaded => 500,
            PipelineOutcome::InternalFailure(_) => 500,
        }
    }

    /// The outcome as the client is to see it: the created account, or the
    /// failure with its message.
    pub fn into_result(self) -> (result: Result<RegisterResponse, AppError>)
        ensures
            self.shown_as(result),
            result matches Err(e) ==> e.spec_status() == self.spec_status(),
            result is Ok <==> self is Created,
    {
        match self {
            PipelineOutcome::Created(record) => Ok(record),
            PipelineOutcome::UsernameTaken => Err(
                AppError::Conflict("Username already exists".to_owned()),
            ),
            PipelineOutcome::InvalidInput(reason) => Err(AppError::BadRequest(reason)),
            PipelineOutcome::Overloaded => Err(
                AppError::Internal("Server is busy, try later".to_owned()),
            ),
            PipelineOutcome::InternalFailure(reason) => Err(AppError::Internal(reason)),
        }
    }
}

/// What the driver reports to the pipeline.
#[derive(Debug, Clone, PartialEq, Eq)]
pub enum Event {
    /// The request has arrived and is to be validated.
    Submitted,
    /// The admission gate is to be tried: for the first time, or after a slot
    /// was given back.
    Attempt,
    /// The admission timeout has run out while the request waited for a
    /// slot. The timeout never comes before the first attempt.
    DeadlineElapsed,
    /// The client has gone away: nobody waits for an answer any more.
    Cancelled,
    /// The hasher returned the encoded hash.
    Hashed(String),
    /// The hasher returned an error.
    HashFailed,
    /// The worker that ran the hasher panicked.
    HashPanicked,
    /// The store created the account and returned its row.
    Inserted { id: i32, username: String },
    /// The store's database refused the insert; `constraint` names the
    /// constraint that was violated, if one was.
    StoreRejected { constraint: Option<String> },
    /// The store failed in any other way.
    StoreFailed,
}

/// What the pipeline asks its driver to do next. Like the request, it may
/// hold the password and has no `Debug`.
#[derive(Clone, PartialEq, Eq)]
pub enum Action {
    /// Start the admission timeout, then report `Attempt`.
    AcquireSlot { timeout_secs: u64 },
    /// Nothing can be done yet. While a slot is awaited: report `Attempt`
    /// when one is given back, or `DeadlineElapsed` when the timeout runs out
    /// first. While the password is hashed: report how the hashing ended.
    Wait,
    /// Hash the password on a worker and report how that ended.
    Hash { password: String },
    /// Insert the account into the store and report how that ended.
    Insert { username: String, password_hash: String },
    /// Answer the client. The pipeline is done.
    Reply(PipelineOutcome),
    /// Drop the request without an answer: its client has gone away. The
    /// pipeline is done.
    Abandon,
}

/// One registration in flight. The password leaves it with the `Hash`
/// action and is held nowhere after that.
#[derive(Clone, PartialEq, Eq)]
pub enum Pipeline {
    /// The request has arrived and nothing was decided yet. `timeout_secs`
    /// is how long it may wait for a slot.
    Validating { request: RegisterRequest, timeout_secs: u64 },
    /// The request is valid and has no slot yet. `waited` is set once an
    /// attempt has found every slot held.
    AwaitingSlot { request: RegisterRequest, waited: bool },
    /// The password is being hashed. Where the client has gone away
    /// meanwhile, `abandoned` is set: the hasher still runs to its end and
    /// the slot is held until it reports.
    Hashing { username: String, abandoned: bool },
    /// The slot is given back and the store is asked to insert the account.
    Persisting,
    /// The request was answered or abandoned. Nothing follows.
    Done,
}

impl Pipeline {
    /// Whether this registration holds a slot of the admission gate: it does
    /// while its password is hashed, and at no other time.
    pub open spec fn holds_slot(&self) -> bool {
        self is Hashing
    }

    /// Whether `event` is one that a driver reports at this stage.
    pub open spec fn expects(&self, event: Event) -> bool {
        match self {
            Pipeline::Validating { .. } => event is Submitted,
            Pipeline::AwaitingSlot { waited, .. } => event is Attempt || event is Cancelled
                || (event is DeadlineElapsed && *waited),
            Pipeline::Hashing { abandoned, .. } => event is Hashed || event is HashFailed
                || event is HashPanicked || (event is Cancelled && !*abandoned),
            Pipeline::Persisting => event is Inserted || event is StoreRejected
                || event is StoreFailed,
            Pipeline::Done => false,
        }
    }

    /// The pipeline's rule: `self`, told `event` while the admission gate is
    /// `gate`, becomes `next`, asks for `action` and leaves the admission gate
    /// as `gate_after`.
    pub open spec fn steps_to(
        &self,
        event: Event,
        gate: &AdmissionGate,
        next: Pipeline,
        action: Action,
        gate_after: &AdmissionGate,
    ) -> bool {
        match *self {
            Pipeline::Validating { request, timeout_secs } => {
                &&& *gate_after == *gate
                &&& if is_blank(request.username@) {
                    next is Done && replies_invalid(action, msg_empty_username())
                } else {
                    &&& next == (Pipeline::AwaitingSlot { request, waited: false })
                    &&& action == (Action::AcquireSlot { timeout_secs })
                }
            },
            Pipeline::AwaitingSlot { request, waited } => {
                if event is Cancelled {
                    &&& *gate_after == *gate
                    &&& next is Done
                    &&& action == Action::Abandon
                } else if gate.spec_closed() {
                    &&& *gate_after == *gate
                    &&& next is Done
                    &&& replies_failure(action, msg_shutting_down())
                } else if event is DeadlineElapsed {
                    &&& *gate_after == *gate
                    &&& next is Done
                    &&& action == Action::Reply(PipelineOutcome::Overloaded)
                } else if gate.spec_in_use() < gate.spec_capacity() {
                    &&& gate_after.took_slot(gate)
                    &&& next == (Pipeline::Hashing {
                        username: request.username,
                        abandoned: false,
                    })
                    &&& action == (Action::Hash { password: request.password })
                } else {
                    &&& *gate_after == *gate
                    &&& next == (Pipeline::AwaitingSlot { request, waited: true })
                    &&& action == Action::Wait
                }
            },
            Pipeline::Hashing { username, abandoned } => {
                if event is Cancelled {
                    &&& *gate_after == *gate
                    &&& next == (Pipeline::Hashing { username, abandoned: true })
                    &&& action == Action::Wait
                } else if abandoned {
                    &&& gate_after.gave_slot(gate)
                    &&& next is Done
                    &&& action == Action::Abandon
                } else {
                    &&& gate_after.gave_slot(gate)
                    &&& match event {
                        Event::Hashed(password_hash) => {
                            &&& next is Persisting
                            &&& action == (Action::Insert { username, password_hash })
                        },
                        Event::HashPanicked => next is Done && replies_failure(
                            action,
                            msg_hash_panicked(),
                        ),
                        _ => next is Done && replies_failure(action, msg_hash_failed()),
                    }
                }
            },
            Pipeline::Persisting => {
                &&& *gate_after == *gate
                &&& next is Done
                &&& store_report_reply(event, action)
            },
            Pipeline::Done => false,
        }
    }

    /// A registration that has just arrived, with the default timeout.
    pub fn new(request: RegisterRequest) -> (pipeline: Pipeline)
        ensures
            pipeline == (Pipeline::Validating {
                request,
                timeout_secs: DEFAULT_ADMISSION_TIMEOUT_SECS,
            }),
    {
        Pipeline::Validating { request, timeout_secs: DEFAULT_ADMISSION_TIMEOUT_SECS }
    }

    /// A registration that has just arrived, with a timeout of its own.
    pub fn with_timeout(request: RegisterRequest, timeout_secs: u64) -> (pipeline: Pipeline)
        ensures
            pipeline == (Pipeline::Validating { request, timeout_secs }),
    {
        Pipeline::Validating { request, timeout_secs }
    }

    pub fn is_done(&self) -> (done: bool)
        ensures
            done == (self is Done),
    {
        match self {
            Pipeline::Done => true,
            _ => false,
        }
    }

    /// Whether this registration holds a slot of the admission gate.
    pub fn is_holding_slot(&self) -> (held: bool)
        ensures
            held == self.holds_slot(),
    {
        match self {
            Pipeline::Hashing { .. } => true,
            _ => false,
        }
    }

    /// Whether `event` is one that a driver reports at this stage.
    pub fn accepts(&self, event: &Event) -> (ok: bool)
        ensures
            ok == self.expects(*event),
    {
        match self {
            Pipeline::Validating { .. } => match event {
                Event::Submitted => true,
                _ => false,
            },
            Pipeline::AwaitingSlot { waited, .. } => match event {
                Event::Attempt => true,
                Event::DeadlineElapsed => *waited,
                Event::Cancelled => true,
                _ => false,
            },
            Pipeline::Hashing { abandoned, .. } => match event {
                Event::Hashed(_) => true,
                Event::HashFailed => true,
                Event::HashPanicked => true,
                Event::Cancelled => !*abandoned,
                _ => false,
            },
            Pipeline::Persisting => match event {
                Event::Inserted { .. } => true,
                Event::StoreRejected { .. } => true,
                Event::StoreFailed => true,
                _ => false,
            },
            Pipeline::Done => false,
        }
    }

    /// Takes one report of the driver and answers with the next stage and the
    /// next thing to do, taking and giving back the slot on the way.
    pub fn step(self, event: Event, gate: &mut AdmissionGate) -> (r: (Pipeline, Action))
        requires
            self.expects(event),
            old(gate).wf(),
            self.holds_slot() ==> old(gate).spec_in_use() > 0,
        ensures
            final(gate).wf(),
            self.steps_to(event, old(gate), r.0, r.1, final(gate)),
    {
        match self {
            Pipeline::Validating { request, timeout_secs } => {
                if text_is_blank(request.username.as_str()) {
                    (Pipeline::Done, reply_invalid("Username cannot be empty"))
                } else {
                    (
                        Pipeline::AwaitingSlot { request, waited: false },
                        Action::AcquireSlot { timeout_secs },
                    )
                }
            },
            Pipeline::AwaitingSlot { request, waited: _ } => {
                match event {
                    Event::Cancelled => (Pipeline::Done, Action::Abandon),
                    Event::DeadlineElapsed => if gate.is_closed() {
                        (Pipeline::Done, reply_failure("Service is shutting down"))
                    } else {
                        (Pipeline::Done, Action::Reply(PipelineOutcome::Overloaded))
                    },
                    _ => match gate.try_acquire() {
                        Admission::Granted => {
                            let RegisterRequest { username, password } = request;
                            (
                                Pipeline::Hashing { username, abandoned: false },
                                Action::Hash { password },
                            )
                        },
                        Admission::Full => (
                            Pipeline::AwaitingSlot { request, waited: true },
                            Action::Wait,
                        ),
                        Admission::Closed => (
                            Pipeline::Done,
                            reply_failure("Service is shutting down"),
                        ),
                    },
                }
            },
            Pipeline::Hashing { username, abandoned } => {
                match event {
                    Event::Cancelled => (
                        Pipeline::Hashing { username, abandoned: true },
                        Action::Wait,
                    ),
                    report => {
                        gate.release();
                        if abandoned {
                            (Pipeline::Done, Action::Abandon)
                        } else {
                            match report {
                                Event::Hashed(password_hash) => (
                                    Pipeline::Persisting,
                                    Action::Insert { username, password_hash },
                                ),
                                Event::HashPanicked => (
                                    Pipeline::Done,
                                    reply_failure("Hashing task panicked"),
                                ),
                                _ => (Pipeline::Done, reply_failure("Password hashing failed")),
                            }
                        }
                    },
                }
            },
            Pipeline::Persisting => {
                let outcome = classify_store_report(event);
                (Pipeline::Done, outcome)
            },
            // No report fits a pipeline that is done, so this arm is never
            // taken.
            Pipeline::Done => (Pipeline::Done, Action::Abandon),
        }
    }
}

/// `action` answers the client with an invalid-input outcome whose reason
/// reads `reason`.
pub open spec fn replies_invalid(action: Action, reason: Seq<char>) -> bool {
    action matches Action::Reply(PipelineOutcome::InvalidInput(text)) && text@ == reason
}

/// `action` answers the client with an internal failure whose reason reads
/// `reason`.
pub open spec fn replies_failure(action: Action, reason: Seq<char>) -> bool {
    action matches Action::Reply(PipelineOutcome::InternalFailure(text)) && text@ == reason
}

fn reply_invalid(reason: &str) -> (action: Action)
    ensures
        replies_invalid(action, reason@),
{
    Action::Reply(PipelineOutcome::InvalidInput(reason.to_owned()))
}

fn reply_failure(reason: &str) -> (action: Action)
    ensures
        replies_failure(action, reason@),
{
    Action::Reply(PipelineOutcome::InternalFailure(reason.to_owned()))
}

/// What the store's report means for the client.
pub open spec fn store_report_reply(event: Event, action: Action) -> bool {
    match event {
        Event::Inserted { id, username } => action == Action::Reply(
            PipelineOutcome::Created(RegisterResponse { id, username }),
        ),
        Event::StoreRejected { constraint: Some(name) } => if name@ == username_constraint() {
            action == Action::Reply(PipelineOutcome::UsernameTaken)
        } else {
            replies_failure(action, msg_database())
        },
        _ => replies_failure(action, msg_database()),
    }
}

/// Classifies the store's report: the created account, a name that is taken
/// (the store's uniqueness constraint on user names was violated), or a
/// database error.
pub fn classify_store_report(event: Event) -> (action: Action)
    ensures
        store_report_reply(event, action),
{
    match event {
        Event::Inserted { id, username } => Action::Reply(
            PipelineOutcome::Created(RegisterResponse { id, username }),
        ),
        Event::StoreRejected { constraint: Some(name) } => {
            let key = "users_username_key".to_owned();
            if name == key {
                Action::Reply(PipelineOutcome::UsernameTaken)
            } else {
                reply_failure("Database error")
            }
        },
        _ => reply_failure("Database error"),
    }
}

} // verus!
