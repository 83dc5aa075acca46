use auth_service::error::AppError;
use auth_service::gate::AdmissionGate;
use auth_service::pipeline::{
    classify_store_report, Action, Event, Pipeline, PipelineOutcome, RegisterRequest,
    RegisterResponse, DEFAULT_ADMISSION_TIMEOUT_SECS,
};

fn request(username: &str, password: &str) -> RegisterRequest {
    RegisterRequest { username: username.to_string(), password: password.to_string() }
}

fn internal(reason: &str) -> Action {
    Action::Reply(PipelineOutcome::InternalFailure(reason.to_string()))
}

fn invalid(reason: &str) -> Action {
    Action::Reply(PipelineOutcome::InvalidInput(reason.to_string()))
}

fn created(id: i32, username: &str) -> Action {
    Action::Reply(PipelineOutcome::Created(RegisterResponse { id, username: username.to_string() }))
}

fn insert(username: &str, password_hash: &str) -> Action {
    Action::Insert { username: username.to_string(), password_hash: password_hash.to_string() }
}

/// Drives a valid request up to the store and returns the insert it asks for.
fn run_to_insert(gate: &mut AdmissionGate, username: &str, hash: &str) -> (Pipeline, Action) {
    let p = Pipeline::new(request(username, "secret123"));
    let (p, _) = p.step(Event::Submitted, gate);
    let (p, _) = p.step(Event::Attempt, gate);
    p.step(Event::Hashed(hash.to_string()), gate)
}

#[test]
fn alice_is_created_then_taken_and_blank_is_refused() {
    let mut gate = AdmissionGate::new(4);

    let (p, action) = run_to_insert(&mut gate, "alice", "$argon2id$first");
    assert!(action == insert("alice", "$argon2id$first"));
    let (p, action) = p.step(Event::Inserted { id: 1, username: "alice".to_string() }, &mut gate);
    assert!(p.is_done());
    let outcome = match action {
        Action::Reply(outcome) => outcome,
        _ => panic!("expected a reply"),
    };
    assert_eq!(outcome.status_code(), 201);
    assert_eq!(
        outcome.into_result(),
        Ok(RegisterResponse { id: 1, username: "alice".to_string() })
    );

    let (p, _) = run_to_insert(&mut gate, "alice", "$argon2id$second");
    let (p, action) = p.step(
        Event::StoreRejected { constraint: Some("users_username_key".to_string()) },
        &mut gate,
    );
    assert!(p.is_done());
    assert!(action == Action::Reply(PipelineOutcome::UsernameTaken));
    let err = PipelineOutcome::UsernameTaken.into_result().unwrap_err();
    assert_eq!(err.status_code(), 409);
    let (status, body) = err.into_response();
    assert_eq!(status, 409);
    assert_eq!(body.error, "Username already exists");

    let p = Pipeline::new(request("  ", "x"));
    let (p, action) = p.step(Event::Submitted, &mut gate);
    assert!(p.is_done());
    let outcome = match action {
        Action::Reply(outcome) => outcome,
        _ => panic!("expected a reply"),
    };
    assert_eq!(outcome.status_code(), 400);
    assert_eq!(
        outcome.into_result(),
        Err(AppError::BadRequest("Username cannot be empty".to_string()))
    );
    assert_eq!(gate.in_use(), 0);
}

#[test]
fn blank_usernames_take_no_slot() {
    for name in ["", " ", "\t\n", "\u{a0}\u{3000}", " \u{2003} "] {
        let mut gate = AdmissionGate::new(1);
        let p = Pipeline::new(request(name, "pw"));
        assert!(p.accepts(&Event::Submitted));
        let (p, action) = p.step(Event::Submitted, &mut gate);
        assert!(p == Pipeline::Done);
        assert!(action == invalid("Username cannot be empty"));
        assert_eq!(gate.in_use(), 0);
        assert_eq!(gate.available(), 1);
    }
}

#[test]
fn valid_request_asks_for_a_slot_with_the_default_timeout() {
    let mut gate = AdmissionGate::new(1);
    let p = Pipeline::new(request("bob", "pw"));
    let (p, action) = p.step(Event::Submitted, &mut gate);
    assert_eq!(DEFAULT_ADMISSION_TIMEOUT_SECS, 10);
    assert!(action == Action::AcquireSlot { timeout_secs: 10 });
    assert!(p == Pipeline::AwaitingSlot { request: request("bob", "pw"), waited: false });
    assert!(!p.accepts(&Event::DeadlineElapsed));
    assert_eq!(gate.in_use(), 0);
}

#[test]
fn configured_timeout_is_handed_to_the_driver() {
    let mut gate = AdmissionGate::new(1);
    let p = Pipeline::with_timeout(request("bob", "pw"), 3);
    let (_, action) = p.step(Event::Submitted, &mut gate);
    assert!(action == Action::AcquireSlot { timeout_secs: 3 });
}

#[test]
fn slot_is_held_while_hashing_only() {
    let mut gate = AdmissionGate::new(2);
    let p = Pipeline::new(request("carol", "pw"));
    assert!(!p.is_holding_slot());
    let (p, _) = p.step(Event::Submitted, &mut gate);
    assert!(!p.is_holding_slot());
    let (p, action) = p.step(Event::Attempt, &mut gate);
    assert!(action == Action::Hash { password: "pw".to_string() });
    assert!(p == Pipeline::Hashing { username: "carol".to_string(), abandoned: false });
    assert!(p.is_holding_slot());
    assert_eq!(gate.in_use(), 1);
    let (p, action) = p.step(Event::Hashed("h".to_string()), &mut gate);
    assert!(p == Pipeline::Persisting);
    assert!(!p.is_holding_slot());
    assert_eq!(gate.in_use(), 0);
    assert!(action == insert("carol", "h"));
}

#[test]
fn full_gate_makes_the_request_wait_then_overloads() {
    let mut gate = AdmissionGate::new(1);
    let first = Pipeline::new(request("dave", "pw"));
    let (first, _) = first.step(Event::Submitted, &mut gate);
    let (first, _) = first.step(Event::Attempt, &mut gate);
    assert!(first.is_holding_slot());

    let second = Pipeline::new(request("erin", "pw"));
    let (second, _) = second.step(Event::Submitted, &mut gate);
    let (second, action) = second.step(Event::Attempt, &mut gate);
    assert!(action == Action::Wait);
    assert!(second == Pipeline::AwaitingSlot { request: request("erin", "pw"), waited: true });
    assert!(second.accepts(&Event::DeadlineElapsed));
    assert_eq!(gate.in_use(), 1);

    let (second, action) = second.step(Event::DeadlineElapsed, &mut gate);
    assert!(second.is_done());
    assert!(action == Action::Reply(PipelineOutcome::Overloaded));
    assert_eq!(gate.in_use(), 1);
    assert_eq!(PipelineOutcome::Overloaded.status_code(), 500);
    assert_eq!(
        PipelineOutcome::Overloaded.into_result(),
        Err(AppError::Internal("Server is busy, try later".to_string()))
    );
}

#[test]
fn waiting_request_is_admitted_once_a_slot_is_given_back() {
    let mut gate = AdmissionGate::new(1);
    let first = Pipeline::new(request("dave", "pw"));
    let (first, _) = first.step(Event::Submitted, &mut gate);
    let (first, _) = first.step(Event::Attempt, &mut gate);
    let second = Pipeline::new(request("erin", "pw2"));
    let (second, _) = second.step(Event::Submitted, &mut gate);
    let (second, action) = second.step(Event::Attempt, &mut gate);
    assert!(action == Action::Wait);
    let (_, _) = first.step(Event::Hashed("h".to_string()), &mut gate);
    assert_eq!(gate.in_use(), 0);
    let (second, action) = second.step(Event::Attempt, &mut gate);
    assert!(action == Action::Hash { password: "pw2".to_string() });
    assert!(second.is_holding_slot());
    assert_eq!(gate.in_use(), 1);
}

#[test]
fn as_many_requests_as_slots_are_all_admitted() {
    let mut gate = AdmissionGate::new(3);
    let mut hashing = Vec::new();
    for name in ["a", "b", "c"] {
        let p = Pipeline::new(request(name, "pw"));
        let (p, _) = p.step(Event::Submitted, &mut gate);
        let (p, action) = p.step(Event::Attempt, &mut gate);
        assert!(action == Action::Hash { password: "pw".to_string() });
        hashing.push(p);
        assert!(gate.in_use() <= gate.capacity());
    }
    assert_eq!(gate.in_use(), 3);
    for p in hashing {
        let (p, _) = p.step(Event::Hashed("h".to_string()), &mut gate);
        assert!(p == Pipeline::Persisting);
    }
    assert_eq!(gate.in_use(), 0);
}

#[test]
fn deadline_on_a_closed_gate_is_a_failure_not_an_overload() {
    let mut gate = AdmissionGate::new(1);
    let first = Pipeline::new(request("dave", "pw"));
    let (first, _) = first.step(Event::Submitted, &mut gate);
    let (_first, _) = first.step(Event::Attempt, &mut gate);
    let second = Pipeline::new(request("erin", "pw"));
    let (second, _) = second.step(Event::Submitted, &mut gate);
    let (second, _) = second.step(Event::Attempt, &mut gate);
    gate.close();
    let (second, action) = second.step(Event::DeadlineElapsed, &mut gate);
    assert!(second.is_done());
    assert!(action == internal("Service is shutting down"));
    assert_eq!(gate.in_use(), 1);
}

#[test]
fn closed_gate_fails_the_request() {
    let mut gate = AdmissionGate::new(1);
    gate.close();
    let p = Pipeline::new(request("frank", "pw"));
    let (p, _) = p.step(Event::Submitted, &mut gate);
    let (p, action) = p.step(Event::Attempt, &mut gate);
    assert!(p.is_done());
    assert!(action == internal("Service is shutting down"));
    assert_eq!(gate.in_use(), 0);
}

#[test]
fn hasher_panic_gives_the_slot_back() {
    let mut gate = AdmissionGate::new(1);
    let before = gate.available();
    let p = Pipeline::new(request("gina", "pw"));
    let (p, _) = p.step(Event::Submitted, &mut gate);
    let (p, _) = p.step(Event::Attempt, &mut gate);
    assert_eq!(gate.available(), 0);
    let (p, action) = p.step(Event::HashPanicked, &mut gate);
    assert!(p.is_done());
    assert!(action == internal("Hashing task panicked"));
    assert_eq!(gate.available(), before);
}

#[test]
fn hasher_error_gives_the_slot_back() {
    let mut gate = AdmissionGate::new(1);
    let p = Pipeline::new(request("gina", "pw"));
    let (p, _) = p.step(Event::Submitted, &mut gate);
    let (p, _) = p.step(Event::Attempt, &mut gate);
    let (p, action) = p.step(Event::HashFailed, &mut gate);
    assert!(p.is_done());
    assert!(action == internal("Password hashing failed"));
    assert_eq!(gate.available(), 1);
    let outcome = PipelineOutcome::InternalFailure("Password hashing failed".to_string());
    assert_eq!(outcome.status_code(), 500);
    assert_eq!(
        outcome.into_result(),
        Err(AppError::Internal("Password hashing failed".to_string()))
    );
}

#[test]
fn store_reports_are_classified() {
    let rejected = |name: &str| Event::StoreRejected { constraint: Some(name.to_string()) };
    assert!(
        classify_store_report(Event::Inserted { id: 7, username: "u".to_string() })
            == created(7, "u")
    );
    assert!(
        classify_store_report(rejected("users_username_key"))
            == Action::Reply(PipelineOutcome::UsernameTaken)
    );
    assert!(classify_store_report(rejected("users_email_key")) == internal("Database error"));
    assert!(classify_store_report(rejected("USERS_USERNAME_KEY")) == internal("Database error"));
    assert!(classify_store_report(rejected("")) == internal("Database error"));
    assert!(
        classify_store_report(Event::StoreRejected { constraint: None })
            == internal("Database error")
    );
    assert!(classify_store_report(Event::StoreFailed) == internal("Database error"));
}

#[test]
fn two_registrations_of_one_name_end_in_created_and_taken() {
    let mut gate = AdmissionGate::new(2);
    let (first, _) = run_to_insert(&mut gate, "twin", "h1");
    let (second, _) = run_to_insert(&mut gate, "twin", "h2");
    let (_, a2) = second.step(Event::Inserted { id: 9, username: "twin".to_string() }, &mut gate);
    let (_, a1) = first.step(
        Event::StoreRejected { constraint: Some("users_username_key".to_string()) },
        &mut gate,
    );
    assert!(a2 == created(9, "twin"));
    assert!(a1 == Action::Reply(PipelineOutcome::UsernameTaken));
}

#[test]
fn each_stage_accepts_its_own_reports_only() {
    let validating = Pipeline::new(request("x", "y"));
    let awaiting = Pipeline::AwaitingSlot { request: request("x", "y"), waited: true };
    let hashing = Pipeline::Hashing { username: "x".to_string(), abandoned: false };
    let abandoned = Pipeline::Hashing { username: "x".to_string(), abandoned: true };
    assert!(awaiting.accepts(&Event::Cancelled));
    assert!(hashing.accepts(&Event::Cancelled));
    assert!(!abandoned.accepts(&Event::Cancelled));
    assert!(abandoned.accepts(&Event::HashFailed));
    assert!(!validating.accepts(&Event::Cancelled));
    assert!(!Pipeline::Persisting.accepts(&Event::Cancelled));
    assert!(validating.accepts(&Event::Submitted));
    assert!(!validating.accepts(&Event::Attempt));
    assert!(awaiting.accepts(&Event::Attempt));
    assert!(awaiting.accepts(&Event::DeadlineElapsed));
    assert!(!awaiting.accepts(&Event::HashFailed));
    assert!(hashing.accepts(&Event::Hashed("h".to_string())));
    assert!(hashing.accepts(&Event::HashFailed));
    assert!(hashing.accepts(&Event::HashPanicked));
    assert!(!hashing.accepts(&Event::StoreFailed));
    assert!(Pipeline::Persisting.accepts(&Event::StoreFailed));
    assert!(Pipeline::Persisting.accepts(&Event::StoreRejected { constraint: None }));
    assert!(Pipeline::Persisting.accepts(&Event::Inserted { id: 1, username: "x".to_string() }));
    assert!(!Pipeline::Persisting.accepts(&Event::Submitted));
    assert!(!Pipeline::Done.accepts(&Event::Submitted));
    assert!(!Pipeline::Done.accepts(&Event::StoreFailed));
}

#[test]
fn cancelled_while_waiting_takes_no_slot() {
    let mut gate = AdmissionGate::new(1);
    let first = Pipeline::new(request("dave", "pw"));
    let (first, _) = first.step(Event::Submitted, &mut gate);
    let (_first, _) = first.step(Event::Attempt, &mut gate);
    let second = Pipeline::new(request("erin", "pw"));
    let (second, _) = second.step(Event::Submitted, &mut gate);
    let (second, _) = second.step(Event::Attempt, &mut gate);
    let (second, action) = second.step(Event::Cancelled, &mut gate);
    assert!(second.is_done());
    assert!(action == Action::Abandon);
    assert_eq!(gate.in_use(), 1);
}

#[test]
fn cancelled_while_hashing_keeps_the_slot_until_the_hasher_reports() {
    let mut gate = AdmissionGate::new(1);
    let p = Pipeline::new(request("dave", "pw"));
    let (p, _) = p.step(Event::Submitted, &mut gate);
    let (p, _) = p.step(Event::Attempt, &mut gate);
    let (p, action) = p.step(Event::Cancelled, &mut gate);
    assert!(action == Action::Wait);
    assert!(p == Pipeline::Hashing { username: "dave".to_string(), abandoned: true });
    assert!(p.is_holding_slot());
    assert_eq!(gate.in_use(), 1);
    let (p, action) = p.step(Event::Hashed("h".to_string()), &mut gate);
    assert!(p.is_done());
    assert!(action == Action::Abandon);
    assert_eq!(gate.in_use(), 0);
}
