use argon2::password_hash::SaltString;
use argon2::{Argon2, PasswordHasher};
use auth_gateway::credentials::{StoreFailure, StoreLookup};
use auth_gateway::error::AuthError;
use auth_gateway::store::{
    login_user, sqlite_worker, Exchange, SqliteRequest, WorkerAction, WorkerEvent, WorkerState,
    STORE_QUEUE_CAPACITY,
};

fn hash_of(password: &str) -> String {
    let salt = SaltString::encode_b64(b"fedcba9876543210").unwrap();
    Argon2::default().hash_password(password.as_bytes(), &salt).unwrap().to_string()
}

fn request(username: &str, password: &str, responder: u32) -> SqliteRequest<u32> {
    SqliteRequest::LoginUser {
        username: String::from(username),
        password: String::from(password),
        responder,
    }
}

fn stopped() -> (WorkerState<u32>, WorkerAction<u32>) {
    (WorkerState::Stopped, WorkerAction::Stop)
}

#[test]
fn queue_holds_sixteen_requests() {
    assert!(STORE_QUEUE_CAPACITY == 16);
}

#[test]
fn worker_waits_for_requests_once_the_store_is_open() {
    assert!(sqlite_worker::<u32>(WorkerState::Starting, WorkerEvent::StoreOpened) == (WorkerState::Idle, WorkerAction::Receive));
}

#[test]
fn worker_ends_when_the_store_cannot_be_opened() {
    assert!(sqlite_worker(WorkerState::Starting, WorkerEvent::StoreUnavailable) == stopped());
}

#[test]
fn worker_ends_when_the_queue_is_closed() {
    assert!(sqlite_worker(WorkerState::Idle, WorkerEvent::QueueClosed) == stopped());
}

/// Hands one request to an idle worker, answers its lookup with `lookup`, and
/// returns the reply that the worker makes.
fn serve_one(
    state: WorkerState<u32>,
    request: SqliteRequest<u32>,
    lookup: StoreLookup,
) -> (WorkerState<u32>, WorkerAction<u32>) {
    let (state, _) = sqlite_worker(state, WorkerEvent::Request(request));
    let (state, action) = sqlite_worker(state, WorkerEvent::LookedUp(lookup));
    assert!(state == WorkerState::Replying);
    let (state, next) = sqlite_worker(state, WorkerEvent::Replied);
    assert!(state == WorkerState::Idle);
    assert!(next == WorkerAction::Receive);
    (state, action)
}

#[test]
fn worker_takes_a_request_through_lookup_and_reply() {
    let (state, action) =
        sqlite_worker(WorkerState::Idle, WorkerEvent::Request(request("alice", "alice-pw", 1)));
    assert!(action == WorkerAction::LookUp(String::from("alice")));
    assert!(state == WorkerState::Processing { password: String::from("alice-pw"), responder: 1 });
    let (state, action) = sqlite_worker(state, WorkerEvent::LookedUp(StoreLookup::Missing));
    assert!(action == WorkerAction::Reply { responder: 1, result: Err(AuthError::AuthError) });
    assert!(state == WorkerState::Replying);
    assert!(sqlite_worker(state, WorkerEvent::Replied) == (WorkerState::Idle, WorkerAction::Receive));
}

#[test]
fn worker_handles_requests_one_after_the_other_each_with_its_own_reply() {
    let alice_hash = hash_of("alice-pw");
    let bob_hash = hash_of("bob-pw");
    let state = WorkerState::Idle;

    let (state, action) =
        serve_one(state, request("alice", "alice-pw", 1), StoreLookup::Found(alice_hash.clone()));
    assert!(action == WorkerAction::Reply { responder: 1, result: Ok(()) });

    let (state, action) = serve_one(state, request("bob", "alice-pw", 2), StoreLookup::Found(bob_hash));
    assert!(action == WorkerAction::Reply { responder: 2, result: Err(AuthError::AuthError) });

    let (state, action) = serve_one(state, request("carol", "pw", 3), StoreLookup::Missing);
    assert!(action == WorkerAction::Reply { responder: 3, result: Err(AuthError::AuthError) });

    let (state, action) =
        serve_one(state, request("dave", "pw", 4), StoreLookup::Failed(StoreFailure::Query));
    assert!(action == WorkerAction::Reply { responder: 4, result: Err(AuthError::SqlError) });

    let (state, action) =
        serve_one(state, request("erin", "pw", 5), StoreLookup::Found(String::from("garbage")));
    assert!(action == WorkerAction::Reply { responder: 5, result: Err(AuthError::SqlError) });

    let (_, action) =
        serve_one(state, request("alice", "alice-pw", 6), StoreLookup::Found(alice_hash));
    assert!(action == WorkerAction::Reply { responder: 6, result: Ok(()) });
}

#[test]
fn unexpected_events_end_the_worker() {
    let processing = || WorkerState::Processing { password: String::from("pw"), responder: 1u32 };
    assert!(sqlite_worker(WorkerState::Starting, WorkerEvent::Request(request("a", "b", 1))) == stopped());
    assert!(sqlite_worker(WorkerState::Starting, WorkerEvent::QueueClosed) == stopped());
    assert!(sqlite_worker(WorkerState::Idle, WorkerEvent::StoreOpened) == stopped());
    assert!(sqlite_worker(WorkerState::Idle, WorkerEvent::LookedUp(StoreLookup::Missing)) == stopped());
    assert!(sqlite_worker(processing(), WorkerEvent::Request(request("a", "b", 2))) == stopped());
    assert!(sqlite_worker(processing(), WorkerEvent::QueueClosed) == stopped());
    assert!(sqlite_worker(processing(), WorkerEvent::Replied) == stopped());
    assert!(sqlite_worker(WorkerState::Idle, WorkerEvent::Replied) == stopped());
    assert!(sqlite_worker(WorkerState::Replying, WorkerEvent::Request(request("a", "b", 4))) == stopped());
    assert!(sqlite_worker(WorkerState::Replying, WorkerEvent::LookedUp(StoreLookup::Missing)) == stopped());
    assert!(sqlite_worker(WorkerState::Replying, WorkerEvent::QueueClosed) == stopped());
    assert!(sqlite_worker(WorkerState::Stopped, WorkerEvent::StoreOpened) == stopped());
    assert!(sqlite_worker(WorkerState::Stopped, WorkerEvent::Request(request("a", "b", 3))) == stopped());
}

#[test]
fn lost_exchanges_are_io_errors() {
    assert!(login_user(Exchange::NotSent) == Err(AuthError::IOError));
    assert!(login_user(Exchange::NoReply) == Err(AuthError::IOError));
}

#[test]
fn replies_pass_through_unchanged() {
    assert!(login_user(Exchange::Replied(Ok(()))) == Ok(()));
    for cause in [AuthError::AuthError, AuthError::SqlError, AuthError::IOError, AuthError::Expired]
    {
        assert!(login_user(Exchange::Replied(Err(cause))) == Err(cause));
    }
}
