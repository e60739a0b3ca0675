use star_realms::{
    check_status, Action, Bootstrap, Error, Event, Phase, Request, Token, CORE_VERSION_END,
    FIRST_CORE_VERSION,
};

fn login_token() -> Token {
    Token {
        username: "player".to_string(),
        id: 1234,
        token1: "secret".to_string(),
        token2: "bearer".to_string(),
        purchases: vec!["p-1".to_string(), "p-2".to_string()],
    }
}

fn expect_probe(a: &Action, auth: &str, version: usize) {
    match a {
        Action::Send(Request::Activity { auth: x, core_version }) => {
            assert_eq!(x, auth);
            assert_eq!(*core_version, version);
        }
        _ => panic!("expected a probe of version {}", version),
    }
}

#[test]
fn check_status_accepts_only_200() {
    assert!(check_status(200).is_ok());
    match check_status(401) {
        Err(Error::InvalidAPIResponse(t)) => assert_eq!(t, "401 Unauthorized"),
        _ => panic!("expected an API rejection"),
    }
    match check_status(204) {
        Err(Error::InvalidAPIResponse(t)) => assert!(t.starts_with("204")),
        _ => panic!("expected an API rejection"),
    }
}

#[test]
fn login_then_probe_until_accepted() {
    let (mut b, a) = Bootstrap::with_credentials("player", "pw", FIRST_CORE_VERSION, CORE_VERSION_END);
    match a {
        Action::Send(Request::Login { username, password }) => {
            assert_eq!(username, "player");
            assert_eq!(password, "pw");
        }
        _ => panic!("expected the login request"),
    }
    assert_eq!(b.phase(), Phase::Login);
    assert!(matches!(b.step(Event::Status(200)), Action::ReadToken));
    let a = b.step(Event::Token(login_token()));
    expect_probe(&a, "bearer", 45);
    let a = b.step(Event::Status(500));
    expect_probe(&a, "bearer", 46);
    match b.step(Event::Status(200)) {
        Action::Done(sr) => {
            assert_eq!(sr.core_version(), 46);
            assert_eq!(sr.token.username, "player");
            assert_eq!(sr.token.id, 1234);
            assert_eq!(sr.token.token1, "secret");
            assert!(!sr.token.token2.is_empty());
            assert_eq!(sr.token.purchases, vec!["p-1".to_string(), "p-2".to_string()]);
            match sr.activity_request() {
                Request::Activity { auth, core_version } => {
                    assert_eq!(auth, "bearer");
                    assert_eq!(core_version, 46);
                }
                _ => panic!("expected the activity request"),
            }
            assert!(sr.activity_status(200).is_ok());
            assert!(matches!(sr.activity_status(403), Err(Error::InvalidAPIResponse(_))));
        }
        _ => panic!("expected a session"),
    }
    assert_eq!(b.phase(), Phase::Found(46));
}

#[test]
fn rejected_login_fails_and_never_probes() {
    let (mut b, _) = Bootstrap::with_credentials("fakeuser123", "fakepass123", FIRST_CORE_VERSION, CORE_VERSION_END);
    match b.step(Event::Status(401)) {
        Action::Fail(Error::InvalidAPIResponse(t)) => assert_eq!(t, "401 Unauthorized"),
        _ => panic!("expected an API rejection"),
    }
    assert_eq!(b.phase(), Phase::Failed);
    assert!(matches!(b.step(Event::Status(200)), Action::Fail(Error::Unknown)));
    assert!(matches!(b.step(Event::Token(login_token())), Action::Fail(Error::Unknown)));
    assert_eq!(b.phase(), Phase::Failed);
}

#[test]
fn refused_probes_exhaust_the_range() {
    let (mut b, a) = Bootstrap::with_token(login_token(), 45, 48);
    expect_probe(&a, "bearer", 45);
    expect_probe(&b.step(Event::Status(404)), "bearer", 46);
    expect_probe(&b.step(Event::Status(400)), "bearer", 47);
    assert!(matches!(b.step(Event::Status(404)), Action::Fail(Error::UnknownCoreVersion())));
    assert_eq!(b.phase(), Phase::Exhausted);
}

#[test]
fn empty_range_is_an_unknown_version() {
    let (b, a) = Bootstrap::with_token2_str("abc", 50, 50);
    assert!(matches!(a, Action::Fail(Error::UnknownCoreVersion())));
    assert_eq!(b.phase(), Phase::Exhausted);
}

#[test]
fn bearer_value_alone_starts_probing() {
    let (mut b, a) = Bootstrap::with_token2_str("abc", FIRST_CORE_VERSION, CORE_VERSION_END);
    expect_probe(&a, "abc", 45);
    match b.step(Event::Status(200)) {
        Action::Done(sr) => {
            assert_eq!(sr.core_version(), 45);
            assert_eq!(sr.token.token2, "abc");
            assert!(sr.token.username.is_empty());
        }
        _ => panic!("expected a session"),
    }
}

#[test]
fn last_version_of_range_can_be_accepted() {
    let (mut b, a) = Bootstrap::with_token(login_token(), 98, 100);
    expect_probe(&a, "bearer", 98);
    expect_probe(&b.step(Event::Status(426)), "bearer", 99);
    match b.step(Event::Status(200)) {
        Action::Done(sr) => assert_eq!(sr.core_version(), 99),
        _ => panic!("expected a session"),
    }
}

#[test]
fn transport_failure_aborts_probing() {
    let (mut b, _) = Bootstrap::with_token(login_token(), 45, 100);
    match b.step(Event::Transport("connection refused".to_string())) {
        Action::Fail(Error::ReqwestError(m)) => assert_eq!(m, "connection refused"),
        _ => panic!("expected a transport error"),
    }
    assert_eq!(b.phase(), Phase::Failed);
}

#[test]
fn transport_failure_while_reading_token() {
    let (mut b, _) = Bootstrap::with_credentials("u", "p", 45, 100);
    assert!(matches!(b.step(Event::Status(200)), Action::ReadToken));
    assert!(matches!(b.step(Event::Transport("bad body".to_string())), Action::Fail(Error::ReqwestError(_))));
    assert_eq!(b.phase(), Phase::Failed);
}
