use auth_gateway::body::Chunk;
use auth_gateway::buffer::BodyBuffer;
use auth_gateway::error::AuthError;
use auth_gateway::login::{
    login_begin, login_step, LoginAction, LoginEvent, LoginRequest, LoginState,
};
use auth_gateway::response::{Response, Status};
use auth_gateway::token::{verify_jwt, Claims};

const NOW: u64 = 1_700_000_000;
const SECRET: [u8; 32] = [9u8; 32];
const BODY: &[u8] = b"{\"username\":\"alice\",\"password\":\"s3cret\"}";

fn credentials() -> LoginRequest {
    LoginRequest { username: String::from("alice"), password: String::from("s3cret") }
}

fn step(state: LoginState, event: LoginEvent) -> (LoginState, LoginAction) {
    login_step(state, event, &SECRET, NOW)
}

fn refusal() -> (LoginState, LoginAction) {
    (LoginState::Done, LoginAction::Respond(Response::unauthorized()))
}

fn reading(bytes: &[u8]) -> LoginState {
    let mut buffer = BodyBuffer::new();
    buffer.load(bytes).unwrap();
    LoginState::ReadingBody(buffer)
}

fn run_until_check() -> LoginState {
    let (state, _) = login_begin();
    let (state, _) = step(state, LoginEvent::Data(BODY.to_vec()));
    let (state, _) = step(state, LoginEvent::EndOfBody);
    let (state, _) = step(state, LoginEvent::Parsed(Some(credentials())));
    state
}

#[test]
fn login_begins_by_reading_the_body() {
    assert!(login_begin() == (reading(b""), LoginAction::ReadFrame));
}

#[test]
fn login_with_confirmed_credentials_receives_a_token() {
    let (state, action) = login_begin();
    assert!(action == LoginAction::ReadFrame);
    let (state, action) = step(state, LoginEvent::Data(BODY[..10].to_vec()));
    assert!(action == LoginAction::ReadFrame);
    let (state, action) = step(state, LoginEvent::OtherFrame);
    assert!(action == LoginAction::ReadFrame);
    let (state, action) = step(state, LoginEvent::Data(BODY[10..].to_vec()));
    assert!((&state, action) == (&reading(BODY), LoginAction::ReadFrame));
    let (state, action) = step(state, LoginEvent::EndOfBody);
    assert!((&state, action) == (&LoginState::Parsing, LoginAction::Parse(BODY.to_vec())));
    let (state, action) = step(state, LoginEvent::Parsed(Some(credentials())));
    assert!(state == LoginState::Verifying(String::from("alice")));
    assert!(action == LoginAction::Check(credentials()));
    let (state, action) = step(state, LoginEvent::Checked(Ok(())));
    assert!(state == LoginState::Done);
    let mut response = match action {
        LoginAction::Respond(response) => response,
        _ => panic!("expected a reply"),
    };
    assert!(response.status == Status::Success);
    assert!(response.status.code() == 200);
    assert!(response.content_type == Some("application/json"));
    let token = match response.body.poll_frame() {
        Some(Chunk::Owned(token)) => token,
        _ => panic!("expected the token"),
    };
    assert!(token.matches('.').count() == 2);
    assert!(verify_jwt(&token, &SECRET, NOW) == Ok(Claims { sub: String::from("alice"), exp: NOW + 3600 }));
}

#[test]
fn login_with_unconfirmed_credentials_is_refused_whatever_the_cause() {
    for cause in [AuthError::AuthError, AuthError::SqlError, AuthError::IOError, AuthError::Expired]
    {
        assert!(step(run_until_check(), LoginEvent::Checked(Err(cause))) == refusal());
    }
}

#[test]
fn refusal_is_401_with_the_fixed_text() {
    let (_, action) = step(run_until_check(), LoginEvent::Checked(Err(AuthError::AuthError)));
    let mut response = match action {
        LoginAction::Respond(response) => response,
        _ => panic!("expected a reply"),
    };
    assert!(response.status.code() == 401);
    assert!(response.content_type == None);
    assert!(response.body.poll_frame() == Some(Chunk::Static(b"Unauthorized")));
}

#[test]
fn login_with_empty_body_is_refused() {
    let (state, _) = login_begin();
    assert!(step(state, LoginEvent::EndOfBody) == refusal());
    let (state, _) = login_begin();
    let (state, _) = step(state, LoginEvent::Data(Vec::new()));
    assert!(step(state, LoginEvent::EndOfBody) == refusal());
}

#[test]
fn login_with_malformed_body_is_refused() {
    let (state, _) = login_begin();
    let (state, _) = step(state, LoginEvent::Data(b"not json".to_vec()));
    let (state, action) = step(state, LoginEvent::EndOfBody);
    assert!(action == LoginAction::Parse(b"not json".to_vec()));
    assert!(step(state, LoginEvent::Parsed(None)) == refusal());
}

#[test]
fn login_with_oversized_body_is_refused() {
    let (state, _) = login_begin();
    assert!(step(state, LoginEvent::Data(vec![b'x'; 4097])) == refusal());

    let (state, _) = login_begin();
    let (state, action) = step(state, LoginEvent::Data(vec![b'x'; 4096]));
    assert!(action == LoginAction::ReadFrame);
    assert!(step(state, LoginEvent::Data(vec![b'x'; 1])) == refusal());
}

#[test]
fn login_with_body_of_exactly_the_limit_goes_on() {
    let (state, _) = login_begin();
    let (state, _) = step(state, LoginEvent::Data(vec![b'x'; 4096]));
    let (state, action) = step(state, LoginEvent::EndOfBody);
    assert!(state == LoginState::Parsing);
    assert!(action == LoginAction::Parse(vec![b'x'; 4096]));
}

#[test]
fn login_whose_body_cannot_be_read_is_given_up() {
    let (state, _) = login_begin();
    let (state, _) = step(state, LoginEvent::Data(BODY.to_vec()));
    assert!(step(state, LoginEvent::ReadFailed) == (LoginState::Done, LoginAction::Fail(AuthError::IOError)));
}

#[test]
fn unexpected_events_give_the_login_up() {
    let given_up = (LoginState::Done, LoginAction::Fail(AuthError::IOError));
    assert!(step(reading(b"x"), LoginEvent::Parsed(None)) == given_up);
    assert!(step(reading(b"x"), LoginEvent::Checked(Ok(()))) == given_up);
    assert!(step(LoginState::Parsing, LoginEvent::Data(vec![1])) == given_up);
    assert!(step(LoginState::Parsing, LoginEvent::Checked(Ok(()))) == given_up);
    assert!(step(run_until_check(), LoginEvent::EndOfBody) == given_up);
    assert!(step(run_until_check(), LoginEvent::Parsed(Some(credentials()))) == given_up);
    assert!(step(LoginState::Done, LoginEvent::Checked(Ok(()))) == given_up);
    assert!(step(LoginState::Done, LoginEvent::ReadFailed) == given_up);
}

#[test]
fn token_is_issued_for_the_user_of_the_request_at_the_time_of_the_step() {
    let state = LoginState::Verifying(String::from("bob"));
    let (_, action) = login_step(state, LoginEvent::Checked(Ok(())), b"k", 50);
    let expected = auth_gateway::token::generate_jwt("bob", b"k", 50).unwrap();
    assert!(action == LoginAction::Respond(Response::token(expected)));
}
