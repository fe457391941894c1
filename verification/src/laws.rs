//! Laws of the gateway, stated over the functions that the contracts use.

use vstd::prelude::*;
use vstd::utf8::encode_utf8;
use crate::buffer::MAX_BODY_BYTES;
use crate::credentials::{
    argon2_accepts,
    login_outcome,
    phc_well_formed,
    StoreLookupView,
};
use crate::error::AuthError;
use crate::login::{
    failed,
    login_start,
    login_transition,
    refused,
    LoginActionView,
    LoginEventView,
    LoginRequestView,
    LoginStateView,
};
use crate::request::{
    dispatch_of,
    route_of,
    AuthorizationView,
    DispatchView,
    RequestHeadView,
    Route,
    BEARER_PREFIX,
};
use crate::response::{
    greeting_reply,
    token_reply,
    unauthorized_reply,
    GREETING_TEXT,
    UNAUTHORIZED_TEXT,
};
use crate::store::{
    worker_transition,
    SqliteRequestView,
    WorkerActionView,
    WorkerEventView,
    WorkerStateView,
};
use crate::token::{
    judged_payload,
    jwt_decoded,
    jwt_encoded,
    verified_claims,
    ClaimsView,
    TOKEN_VALIDITY_SECS,
};

verus! {

/// Where a login stands, and what it asks for, after the events of `events`
/// have come in one by one.
pub open spec fn login_after(events: Seq<LoginEventView>, secret: Seq<u8>, now: u64) -> (
    LoginStateView,
    LoginActionView,
)
    decreases events.len(),
{
    if events.len() == 0 {
        login_start()
    } else {
        login_transition(login_after(events.drop_last(), secret, now).0, events.last(), secret, now)
    }
}

/// The bytes of `frames`, one frame after the other.
pub open spec fn joined(frames: Seq<Seq<u8>>) -> Seq<u8>
    decreases frames.len(),
{
    if frames.len() == 0 {
        Seq::empty()
    } else {
        joined(frames.drop_last()) + frames.last()
    }
}

/// The events of a login whose body arrives as the data frames `frames`,
/// parses to `request`, and is checked against what the store holds.
pub open spec fn whole_login(
    frames: Seq<Seq<u8>>,
    request: LoginRequestView,
    lookup: StoreLookupView,
) -> Seq<LoginEventView> {
    Seq::new(frames.len(), |i: int| LoginEventView::Data(frames[i])).push(
        LoginEventView::EndOfBody,
    ).push(LoginEventView::Parsed(Some(request))).push(
        LoginEventView::Checked(login_outcome(lookup, encode_utf8(request.password))),
    )
}

proof fn lemma_frames_are_collected(frames: Seq<Seq<u8>>, secret: Seq<u8>, now: u64)
    requires
        joined(frames).len() <= MAX_BODY_BYTES,
    ensures
        login_after(
            Seq::new(frames.len(), |i: int| LoginEventView::Data(frames[i])),
            secret,
            now,
        ).0 == LoginStateView::ReadingBody(joined(frames)),
    decreases frames.len(),
{
    let events = Seq::new(frames.len(), |i: int| LoginEventView::Data(frames[i]));
    if frames.len() > 0 {
        let earlier = frames.drop_last();
        assert(events.drop_last() =~= Seq::new(
            earlier.len(),
            |i: int| LoginEventView::Data(earlier[i]),
        ));
        assert(events.last() == LoginEventView::Data(frames.last()));
        lemma_frames_are_collected(earlier, secret, now);
    }
}

proof fn lemma_whole_login_reaches_check(
    frames: Seq<Seq<u8>>,
    request: LoginRequestView,
    lookup: StoreLookupView,
    secret: Seq<u8>,
    now: u64,
)
    requires
        0 < joined(frames).len() <= MAX_BODY_BYTES,
    ensures
        login_after(whole_login(frames, request, lookup), secret, now) == login_transition(
            LoginStateView::Verifying(request.username),
            LoginEventView::Checked(login_outcome(lookup, encode_utf8(request.password))),
            secret,
            now,
        ),
{
    let e0 = Seq::new(frames.len(), |i: int| LoginEventView::Data(frames[i]));
    let e1 = e0.push(LoginEventView::EndOfBody);
    let e2 = e1.push(LoginEventView::Parsed(Some(request)));
    let e3 = whole_login(frames, request, lookup);
    lemma_frames_are_collected(frames, secret, now);
    assert(e1.drop_last() =~= e0);
    assert(login_after(e1, secret, now).0 == LoginStateView::Parsing);
    assert(e2.drop_last() =~= e1);
    assert(login_after(e2, secret, now).0 == LoginStateView::Verifying(request.username));
    assert(e3.drop_last() =~= e2);
}

/// A login whose body arrives in whatever frames, is not empty and stays
/// within the limit, and whose password belongs to the stored record, is answered
/// with status 200, the JSON content type, and as its body the token that
/// the encoder makes for the subject `username` and the expiry
/// `now + TOKEN_VALIDITY_SECS`. Should the encoder fail, the request is given
/// up with `IOError`.
pub proof fn law_matching_login_receives_token(
    frames: Seq<Seq<u8>>,
    request: LoginRequestView,
    stored_hash: Seq<char>,
    secret: Seq<u8>,
    now: u64,
)
    requires
        0 < joined(frames).len() <= MAX_BODY_BYTES,
        now + TOKEN_VALIDITY_SECS <= u64::MAX,
        phc_well_formed(stored_hash),
        argon2_accepts(encode_utf8(request.password), stored_hash),
    ensures
        login_outcome(StoreLookupView::Found(stored_hash), encode_utf8(request.password)) == Ok::<
            (),
            AuthError,
        >(()),
        match jwt_encoded(request.username, (now + TOKEN_VALIDITY_SECS) as u64, secret) {
            Some(token) => login_after(
                whole_login(frames, request, StoreLookupView::Found(stored_hash)),
                secret,
                now,
            ) == (LoginStateView::Done, LoginActionView::Respond(token_reply(token))),
            None => login_after(
                whole_login(frames, request, StoreLookupView::Found(stored_hash)),
                secret,
                now,
            ) == failed(AuthError::IOError),
        },
        forall|token: Seq<char>| (#[trigger] token_reply(token)).status.code_value() == 200,
{
    lemma_whole_login_reaches_check(
        frames,
        request,
        StoreLookupView::Found(stored_hash),
        secret,
        now,
    );
}

/// A login, with such a body, for a user name that the store does not hold,
/// or with a password that does not belong to the stored hash, is answered
/// with status 401 and the refusal text.
pub proof fn law_failed_login_is_refused(
    frames: Seq<Seq<u8>>,
    request: LoginRequestView,
    lookup: StoreLookupView,
    secret: Seq<u8>,
    now: u64,
)
    requires
        0 < joined(frames).len() <= MAX_BODY_BYTES,
        lookup is Missing || (lookup matches StoreLookupView::Found(hash) && !argon2_accepts(
            encode_utf8(request.password),
            hash,
        )),
    ensures
        login_outcome(lookup, encode_utf8(request.password)) is Err,
        login_after(whole_login(frames, request, lookup), secret, now) == refused(),
        refused().1 == LoginActionView::Respond(unauthorized_reply()),
        unauthorized_reply().status.code_value() == 401,
        unauthorized_reply().body == encode_utf8(UNAUTHORIZED_TEXT@),
{
    lemma_whole_login_reaches_check(frames, request, lookup, secret, now);
}

/// Whatever the reason for which the credentials were not confirmed, the
/// reply is the same refusal.
pub proof fn law_refusals_do_not_tell_causes(
    username: Seq<char>,
    cause: AuthError,
    secret: Seq<u8>,
    now: u64,
)
    ensures
        login_transition(
            LoginStateView::Verifying(username),
            LoginEventView::Checked(Err(cause)),
            secret,
            now,
        ) == refused(),
{
}

/// A token whose expiry lies before `now` is rejected with the authentication
/// error, however good its signature is; on its own the payload is judged
/// `Expired`.
pub proof fn law_expired_token_is_rejected(
    token: Seq<char>,
    secret: Seq<u8>,
    sub: Seq<char>,
    exp: u64,
    now: u64,
)
    requires
        jwt_decoded(token, secret) == Some((Some(sub), Some(exp))),
        exp < now,
    ensures
        judged_payload((Some(sub), Some(exp)), now) == Err::<ClaimsView, AuthError>(
            AuthError::Expired,
        ),
        verified_claims(jwt_decoded(token, secret), now) == Err::<ClaimsView, AuthError>(
            AuthError::AuthError,
        ),
{
}

/// A token that the decoder accepts with both claims and an expiry that does
/// not lie before `now` verifies, and yields exactly those claims.
pub proof fn law_unexpired_token_verifies(
    token: Seq<char>,
    secret: Seq<u8>,
    sub: Seq<char>,
    exp: u64,
    now: u64,
)
    requires
        jwt_decoded(token, secret) == Some((Some(sub), Some(exp))),
        exp >= now,
    ensures
        verified_claims(jwt_decoded(token, secret), now) == Ok::<ClaimsView, AuthError>(
            ClaimsView { sub, exp },
        ),
{
}

/// Verification never yields anything but claims or the authentication error.
pub proof fn law_verification_has_one_error(token: Seq<char>, secret: Seq<u8>, now: u64)
    ensures
        verified_claims(jwt_decoded(token, secret), now) matches Err(e) ==> e
            == AuthError::AuthError,
{
}

/// A request to any route but the login route that carries no
/// `Authorization` header, or an unreadable one, or one that does not begin
/// with the bearer scheme, or one whose token the decoder rejects, is
/// answered with status 401 and the refusal text.
pub proof fn law_request_without_valid_token_is_refused(
    request: RequestHeadView,
    secret: Seq<u8>,
    now: u64,
)
    requires
        route_of(request.method, request.path) == Route::Protected,
        request.authorization is Missing || request.authorization is Unreadable || (
        request.authorization matches AuthorizationView::Text(header) && (!BEARER_PREFIX@.is_prefix_of(
            header,
        ) || jwt_decoded(header.skip(BEARER_PREFIX@.len() as int), secret) is None)),
    ensures
        dispatch_of(request, secret, now) == DispatchView::Reply(unauthorized_reply()),
        unauthorized_reply().status.code_value() == 401,
        unauthorized_reply().body == encode_utf8(UNAUTHORIZED_TEXT@),
{
}

/// A request to any route but the login route whose `Authorization` header
/// presents, after the bearer scheme, a token that the decoder accepts with
/// both claims and an expiry that does not lie before `now`, is answered with
/// status 200 and the greeting.
pub proof fn law_request_with_valid_token_is_greeted(
    request: RequestHeadView,
    token: Seq<char>,
    sub: Seq<char>,
    exp: u64,
    secret: Seq<u8>,
    now: u64,
)
    requires
        route_of(request.method, request.path) == Route::Protected,
        request.authorization == AuthorizationView::Text(BEARER_PREFIX@ + token),
        jwt_decoded(token, secret) == Some((Some(sub), Some(exp))),
        exp >= now,
    ensures
        dispatch_of(request, secret, now) == DispatchView::Reply(greeting_reply()),
        greeting_reply().status.code_value() == 200,
        greeting_reply().body == encode_utf8(GREETING_TEXT@),
{
    let header = BEARER_PREFIX@ + token;
    assert(BEARER_PREFIX@.is_prefix_of(header)) by {
        assert(header.subrange(0, BEARER_PREFIX@.len() as int) =~= BEARER_PREFIX@);
    }
    assert(header.skip(BEARER_PREFIX@.len() as int) =~= token);
}

/// A frame that would take the body of a login past `MAX_BODY_BYTES` ends the
/// login with the refusal, and nothing of the frame is kept.
pub proof fn law_oversized_body_is_refused(
    body: Seq<u8>,
    frame: Seq<u8>,
    secret: Seq<u8>,
    now: u64,
)
    requires
        body.len() + frame.len() > MAX_BODY_BYTES,
    ensures
        login_transition(
            LoginStateView::ReadingBody(body),
            LoginEventView::Data(frame),
            secret,
            now,
        ) == refused(),
        refused().0 == LoginStateView::Done,
{
}

/// However many frames arrive and whatever they hold, a login never holds
/// more than `MAX_BODY_BYTES` of the body, and never hands more out to be
/// parsed.
pub proof fn law_login_body_stays_bounded(events: Seq<LoginEventView>, secret: Seq<u8>, now: u64)
    ensures
        login_after(events, secret, now).0 matches LoginStateView::ReadingBody(body)
            ==> body.len() <= MAX_BODY_BYTES,
        login_after(events, secret, now).1 matches LoginActionView::Parse(body) ==> 0 < body.len()
            <= MAX_BODY_BYTES,
    decreases events.len(),
{
    if events.len() > 0 {
        law_login_body_stays_bounded(events.drop_last(), secret, now);
    }
}

/// A login is never given up for a reason of the authentication class: such
/// reasons reach the client as the refusal. What gives a login up is `IOError`
/// alone.
pub proof fn law_login_fails_only_with_io_error(
    state: LoginStateView,
    event: LoginEventView,
    secret: Seq<u8>,
    now: u64,
)
    ensures
        login_transition(state, event, secret, now).1 matches LoginActionView::Fail(e) ==> e
            == AuthError::IOError && !e.is_authentication_class(),
{
}

/// Once a login is done, every further event gives `IOError` and leaves it done.
pub proof fn law_login_ends_once(event: LoginEventView, secret: Seq<u8>, now: u64)
    ensures
        login_transition(LoginStateView::Done, event, secret, now) == failed(AuthError::IOError),
{
}

/// The worker answers each request through that request's own responder, and
/// with the outcome for that request's own password and the record that was
/// looked up for that request's own user name. Once the reply is sent it is
/// idle and takes the next request.
pub proof fn law_reply_goes_to_its_request<R>(
    username: Seq<char>,
    password: Seq<char>,
    responder: R,
    lookup: StoreLookupView,
)
    ensures
        ({
            let request = SqliteRequestView::LoginUser { username, password, responder };
            let taken = worker_transition(WorkerStateView::Idle, WorkerEventView::Request(request));
            let decided = worker_transition(taken.0, WorkerEventView::LookedUp(lookup));
            let replied = worker_transition(decided.0, WorkerEventView::Replied);
            &&& taken.1 == WorkerActionView::<R>::LookUp(username)
            &&& decided.1 == WorkerActionView::Reply {
                responder,
                result: login_outcome(lookup, encode_utf8(password)),
            }
            &&& replied == (WorkerStateView::<R>::Idle, WorkerActionView::<R>::Receive)
        }),
{
}

/// What the worker does, from `state` on, when the requests of `requests`
/// reach it one after the other and the store, asked for the record of the
/// i-th, produces the i-th of `lookups`: the state it ends in, and its
/// actions in order, three for each request.
pub open spec fn served<R>(
    state: WorkerStateView<R>,
    requests: Seq<SqliteRequestView<R>>,
    lookups: Seq<StoreLookupView>,
) -> (WorkerStateView<R>, Seq<WorkerActionView<R>>)
    decreases requests.len(),
{
    if requests.len() == 0 {
        (state, Seq::empty())
    } else {
        let before = served(state, requests.drop_last(), lookups.drop_last());
        let taken = worker_transition(before.0, WorkerEventView::Request(requests.last()));
        let decided = worker_transition(taken.0, WorkerEventView::LookedUp(lookups.last()));
        let replied = worker_transition(decided.0, WorkerEventView::Replied);
        (replied.0, before.1.push(taken.1).push(decided.1).push(replied.1))
    }
}

/// However many requests reach an idle worker, it handles every one of them,
/// in the order of their arrival: for each it asks the store for that
/// request's user name, then makes exactly one reply, through that request's
/// responder, with the outcome for that request's password, and then takes
/// the next request. In the end it is idle again.
pub proof fn law_every_request_gets_its_own_reply<R>(
    requests: Seq<SqliteRequestView<R>>,
    lookups: Seq<StoreLookupView>,
)
    requires
        requests.len() == lookups.len(),
    ensures
        served(WorkerStateView::Idle, requests, lookups).0 == WorkerStateView::<R>::Idle,
        served(WorkerStateView::Idle, requests, lookups).1.len() == 3 * requests.len(),
        forall|i: int|
            #![trigger requests[i]]
            0 <= i < requests.len() ==> {
                let actions = served(WorkerStateView::Idle, requests, lookups).1;
                let SqliteRequestView::LoginUser { username, password, responder } = requests[i];
                &&& actions[3 * i] == WorkerActionView::<R>::LookUp(username)
                &&& actions[3 * i + 1] == WorkerActionView::Reply {
                    responder,
                    result: login_outcome(lookups[i], encode_utf8(password)),
                }
                &&& actions[3 * i + 2] == WorkerActionView::<R>::Receive
            },
    decreases requests.len(),
{
    if requests.len() > 0 {
        let earlier = requests.drop_last();
        law_every_request_gets_its_own_reply(earlier, lookups.drop_last());
        let before = served(WorkerStateView::Idle, earlier, lookups.drop_last());
        let actions = served(WorkerStateView::Idle, requests, lookups).1;
        assert forall|i: int| #![trigger requests[i]] 0 <= i < requests.len() implies {
            let SqliteRequestView::LoginUser { username, password, responder } = requests[i];
            &&& actions[3 * i] == WorkerActionView::<R>::LookUp(username)
            &&& actions[3 * i + 1] == WorkerActionView::Reply {
                responder,
                result: login_outcome(lookups[i], encode_utf8(password)),
            }
            &&& actions[3 * i + 2] == WorkerActionView::<R>::Receive
        } by {
            if i < earlier.len() {
                assert(requests[i] == earlier[i]);
                assert(lookups[i] == lookups.drop_last()[i]);
                assert(actions[3 * i] == before.1[3 * i]);
                assert(actions[3 * i + 1] == before.1[3 * i + 1]);
                assert(actions[3 * i + 2] == before.1[3 * i + 2]);
            }
        }
    }
}

/// While the worker handles a request it accepts no other: a request that is
/// handed to it then ends it, and no reply is made for either.
pub proof fn law_worker_handles_one_request_at_a_time<R>(
    password: Seq<char>,
    responder: R,
    other: SqliteRequestView<R>,
)
    ensures
        worker_transition(
            WorkerStateView::Processing { password, responder },
            WorkerEventView::Request(other),
        ) == (WorkerStateView::<R>::Stopped, WorkerActionView::<R>::Stop),
{
}

} // verus!
