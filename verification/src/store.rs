//! The credential store actor: one worker that owns the store and handles one
//! request at a time. The caller owns the queue and the store connection; it
//! performs each action and hands the outcome back as the next event.

use vstd::prelude::*;
use vstd::utf8::encode_utf8;
use crate::credentials::{handle_login, login_outcome, StoreLookup, StoreLookupView};
use crate::error::AuthError;

verus! {

/// How many requests may wait in the worker's queue before senders have to wait.
pub const STORE_QUEUE_CAPACITY: usize = 16;

/// A message to the worker. `R` is the means by which the one reply to this
/// message reaches its sender.
#[derive(PartialEq, Eq)]
pub enum SqliteRequest<R> {
    LoginUser { username: String, password: String, responder: R },
}

/// What `SqliteRequest` stands for in contracts.
pub enum SqliteRequestView<R> {
    LoginUser { username: Seq<char>, password: Seq<char>, responder: R },
}

impl<R> View for SqliteRequest<R> {
    type V = SqliteRequestView<R>;

    open spec fn view(&self) -> SqliteRequestView<R> {
        match self {
            SqliteRequest::LoginUser { username, password, responder } => {
                SqliteRequestView::LoginUser {
                    username: username@,
                    password: password@,
                    responder: *responder,
                }
            },
        }
    }
}

/// Where the worker stands.
#[derive(PartialEq, Eq)]
pub enum WorkerState<R> {
    /// The store is being opened.
    Starting,
    /// The worker waits for the next request.
    Idle,
    /// The worker handles the request that came with this password and
    /// responder, and waits for the store's answer.
    Processing { password: String, responder: R },
    /// The worker has decided the request in hand, and its reply is being sent.
    Replying,
    /// The worker has ended.
    Stopped,
}

/// What `WorkerState` stands for in contracts.
pub enum WorkerStateView<R> {
    Starting,
    Idle,
    Processing { password: Seq<char>, responder: R },
    Replying,
    Stopped,
}

impl<R> View for WorkerState<R> {
    type V = WorkerStateView<R>;

    open spec fn view(&self) -> WorkerStateView<R> {
        match self {
            WorkerState::Starting => WorkerStateView::Starting,
            WorkerState::Idle => WorkerStateView::Idle,
            WorkerState::Processing { password, responder } => WorkerStateView::Processing {
                password: password@,
                responder: *responder,
            },
            WorkerState::Replying => WorkerStateView::Replying,
            WorkerState::Stopped => WorkerStateView::Stopped,
        }
    }
}

/// What happened since the last action.
#[derive(PartialEq, Eq)]
pub enum WorkerEvent<R> {
    /// The store was opened.
    StoreOpened,
    /// The store could not be opened.
    StoreUnavailable,
    /// A request was taken from the queue.
    Request(SqliteRequest<R>),
    /// The queue is closed and empty.
    QueueClosed,
    /// The store was asked for the record of the user in hand.
    LookedUp(StoreLookup),
    /// The reply was handed to the responder, whether or not its sender still
    /// waits for it.
    Replied,
}

/// What `WorkerEvent` stands for in contracts.
pub enum WorkerEventView<R> {
    StoreOpened,
    StoreUnavailable,
    Request(SqliteRequestView<R>),
    QueueClosed,
    LookedUp(StoreLookupView),
    Replied,
}

impl<R> View for WorkerEvent<R> {
    type V = WorkerEventView<R>;

    open spec fn view(&self) -> WorkerEventView<R> {
        match self {
            WorkerEvent::StoreOpened => WorkerEventView::StoreOpened,
            WorkerEvent::StoreUnavailable => WorkerEventView::StoreUnavailable,
            WorkerEvent::Request(request) => WorkerEventView::Request(request@),
            WorkerEvent::QueueClosed => WorkerEventView::QueueClosed,
            WorkerEvent::LookedUp(lookup) => WorkerEventView::LookedUp(lookup@),
            WorkerEvent::Replied => WorkerEventView::Replied,
        }
    }
}

/// What the caller is to do next.
#[derive(Debug, PartialEq, Eq)]
pub enum WorkerAction<R> {
    /// Take the next request from the queue.
    Receive,
    /// Ask the store for the record of this user.
    LookUp(String),
    /// Send this result through this responder.
    Reply { responder: R, result: Result<(), AuthError> },
    /// End the worker.
    Stop,
}

/// What `WorkerAction` stands for in contracts.
pub enum WorkerActionView<R> {
    Receive,
    LookUp(Seq<char>),
    Reply { responder: R, result: Result<(), AuthError> },
    Stop,
}

impl<R> View for WorkerAction<R> {
    type V = WorkerActionView<R>;

    open spec fn view(&self) -> WorkerActionView<R> {
        match self {
            WorkerAction::Receive => WorkerActionView::Receive,
            WorkerAction::LookUp(username) => WorkerActionView::LookUp(username@),
            WorkerAction::Reply { responder, result } => WorkerActionView::Reply {
                responder: *responder,
                result: *result,
            },
            WorkerAction::Stop => WorkerActionView::Stop,
        }
    }
}

/// The step that the worker takes from `state` on `event`.
///
/// - A worker whose store opened waits for requests; one whose store did not
///   open ends.
/// - An idle worker that receives a request looks its user up and keeps the
///   password and the responder; when the queue is closed it ends.
/// - A worker that has looked the user up replies, through the responder of
///   the request in hand, with the outcome for that request's password. Once
///   the reply is sent it is idle again and takes the next request.
/// - An event that the state does not expect ends the worker, and so does
///   every event after its end.
pub open spec fn worker_transition<R>(state: WorkerStateView<R>, event: WorkerEventView<R>) -> (
    WorkerStateView<R>,
    WorkerActionView<R>,
) {
    match (state, event) {
        (WorkerStateView::Starting, WorkerEventView::StoreOpened) => (
            WorkerStateView::Idle,
            WorkerActionView::Receive,
        ),
        (WorkerStateView::Starting, WorkerEventView::StoreUnavailable) => (
            WorkerStateView::Stopped,
            WorkerActionView::Stop,
        ),
        (
            WorkerStateView::Idle,
            WorkerEventView::Request(SqliteRequestView::LoginUser { username, password, responder }),
        ) => (
            WorkerStateView::Processing { password, responder },
            WorkerActionView::LookUp(username),
        ),
        (WorkerStateView::Idle, WorkerEventView::QueueClosed) => (
            WorkerStateView::Stopped,
            WorkerActionView::Stop,
        ),
        (WorkerStateView::Processing { password, responder }, WorkerEventView::LookedUp(lookup)) => (
            WorkerStateView::Replying,
            WorkerActionView::Reply {
                responder,
                result: login_outcome(lookup, encode_utf8(password)),
            },
        ),
        (WorkerStateView::Replying, WorkerEventView::Replied) => (
            WorkerStateView::Idle,
            WorkerActionView::Receive,
        ),
        _ => (WorkerStateView::Stopped, WorkerActionView::Stop),
    }
}

/// Takes one step of the worker.
pub fn sqlite_worker<R>(state: WorkerState<R>, event: WorkerEvent<R>) -> (next: (
    WorkerState<R>,
    WorkerAction<R>,
))
    ensures
        (next.0@, next.1@) == worker_transition(state@, event@),
{
    match (state, event) {
        (WorkerState::Starting, WorkerEvent::StoreOpened) => (
            WorkerState::Idle,
            WorkerAction::Receive,
        ),
        (WorkerState::Starting, WorkerEvent::StoreUnavailable) => (
            WorkerState::Stopped,
            WorkerAction::Stop,
        ),
        (
            WorkerState::Idle,
            WorkerEvent::Request(SqliteRequest::LoginUser { username, password, responder }),
        ) => (WorkerState::Processing { password, responder }, WorkerAction::LookUp(username)),
        (WorkerState::Idle, WorkerEvent::QueueClosed) => (WorkerState::Stopped, WorkerAction::Stop),
        (WorkerState::Processing { password, responder }, WorkerEvent::LookedUp(lookup)) => {
            let result = handle_login(lookup, password.as_str());
            (WorkerState::Replying, WorkerAction::Reply { responder, result })
        },
        (WorkerState::Replying, WorkerEvent::Replied) => (WorkerState::Idle, WorkerAction::Receive),
        _ => (WorkerState::Stopped, WorkerAction::Stop),
    }
}

/// How an exchange with the worker went, as its sender saw it.
#[derive(Debug, PartialEq, Eq)]
pub enum Exchange {
    /// The request could not be put into the queue.
    NotSent,
    /// The request was sent and the responder was dropped without a reply.
    NoReply,
    /// The worker replied.
    Replied(Result<(), AuthError>),
}

/// What the sender of a request makes of the exchange: the worker's reply,
/// or `IOError` where the request or its reply was lost.
pub open spec fn exchange_outcome(exchange: Exchange) -> Result<(), AuthError> {
    match exchange {
        Exchange::NotSent => Err(AuthError::IOError),
        Exchange::NoReply => Err(AuthError::IOError),
        Exchange::Replied(result) => result,
    }
}

/// Turns an exchange with the worker into the result of the login attempt.
pub fn login_user(exchange: Exchange) -> (result: Result<(), AuthError>)
    ensures
        result == exchange_outcome(exchange),
{
    match exchange {
        Exchange::NotSent => Err(AuthError::IOError),
        Exchange::NoReply => Err(AuthError::IOError),
        Exchange::Replied(result) => result,
    }
}

} // verus!
