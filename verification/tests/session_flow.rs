use webrcon::message::Package;
use webrcon::session::{Action, ErrorStage, Outcome, Session};

fn packages_for(commands: &[&str]) -> Vec<Package> {
    let mut v = Vec::new();
    for c in commands {
        v.push(Package::new_command(c.to_string()));
    }
    v
}

#[test]
fn scenario_single_command() {
    let mut s = Session::new("1.2.3.4", 28016, "pw", packages_for(&["say hello"]), false);

    assert_eq!(s.next_action(), Action::OpenConnection("ws://1.2.3.4:28016/pw".to_string()));
    s.record(Outcome::Succeeded);

    assert_eq!(
        s.next_action(),
        Action::Transmit(
            "{\"Identifier\":-1,\"Message\":\"say hello\",\"Name\":\"WebRcon\"}".to_string()
        )
    );
    s.record(Outcome::Succeeded);

    assert_eq!(s.next_action(), Action::CloseConnection);
    s.record(Outcome::Succeeded);

    assert_eq!(s.next_action(), Action::Finish(Ok(())));
    assert_eq!(s.sent_count(), 1);
}

#[test]
fn frames_go_out_in_command_order() {
    let mut s = Session::new("host", 28016, "pw", packages_for(&["a", "b", "c"]), false);
    s.record(Outcome::Succeeded);
    let mut seen = Vec::new();
    loop {
        match s.next_action() {
            Action::Transmit(f) => {
                seen.push(f);
                s.record(Outcome::Succeeded);
            }
            Action::CloseConnection => {
                s.record(Outcome::Succeeded);
            }
            Action::Finish(r) => {
                assert_eq!(r, Ok(()));
                break;
            }
            Action::OpenConnection(_) => panic!("connection must be opened at most once"),
        }
    }
    assert_eq!(
        seen,
        vec![
            "{\"Identifier\":-1,\"Message\":\"a\",\"Name\":\"WebRcon\"}".to_string(),
            "{\"Identifier\":-1,\"Message\":\"b\",\"Name\":\"WebRcon\"}".to_string(),
            "{\"Identifier\":-1,\"Message\":\"c\",\"Name\":\"WebRcon\"}".to_string(),
        ]
    );
    assert_eq!(s.sent_count(), 3);
}

#[test]
fn empty_sequence_closes_immediately() {
    let mut s = Session::new("host", 28016, "pw", Vec::new(), false);
    assert_eq!(s.next_action(), Action::OpenConnection("ws://host:28016/pw".to_string()));
    s.record(Outcome::Succeeded);
    assert_eq!(s.next_action(), Action::CloseConnection);
    s.record(Outcome::Succeeded);
    assert_eq!(s.next_action(), Action::Finish(Ok(())));
    assert_eq!(s.sent_count(), 0);
}

#[test]
fn connect_failure_transmits_nothing() {
    let mut s = Session::new("host", 28016, "pw", packages_for(&["a", "b"]), false);
    assert_eq!(s.next_action(), Action::OpenConnection("ws://host:28016/pw".to_string()));
    s.record(Outcome::Failed);
    assert_eq!(s.next_action(), Action::Finish(Err(ErrorStage::ConnectFailed)));
    assert_eq!(s.sent_count(), 0);
}

#[test]
fn send_failure_stops_after_prefix() {
    let mut s = Session::new("host", 28016, "pw", packages_for(&["a", "b", "c"]), false);
    s.record(Outcome::Succeeded);
    match s.next_action() {
        Action::Transmit(_) => s.record(Outcome::Succeeded),
        other => panic!("expected a transmit, got {:?}", other),
    }
    match s.next_action() {
        Action::Transmit(_) => s.record(Outcome::Failed),
        other => panic!("expected a transmit, got {:?}", other),
    }
    assert_eq!(s.next_action(), Action::Finish(Err(ErrorStage::SendFailed)));
    assert_eq!(s.sent_count(), 1);
    assert_eq!(s.next_action(), Action::Finish(Err(ErrorStage::SendFailed)));
}

#[test]
fn close_failure_after_all_sends() {
    let mut s = Session::new("host", 28016, "pw", packages_for(&["a"]), false);
    s.record(Outcome::Succeeded);
    match s.next_action() {
        Action::Transmit(_) => s.record(Outcome::Succeeded),
        other => panic!("expected a transmit, got {:?}", other),
    }
    assert_eq!(s.next_action(), Action::CloseConnection);
    s.record(Outcome::Failed);
    assert_eq!(s.next_action(), Action::Finish(Err(ErrorStage::CloseFailed)));
    assert_eq!(s.sent_count(), 1);
}

#[test]
fn bad_endpoint_fails_before_connecting() {
    let mut s = Session::new("exa mple", 28016, "pw", packages_for(&["a"]), false);
    assert_eq!(s.next_action(), Action::Finish(Err(ErrorStage::BadEndpoint)));
    s.record(Outcome::Succeeded);
    assert_eq!(s.next_action(), Action::Finish(Err(ErrorStage::BadEndpoint)));
    assert_eq!(s.sent_count(), 0);
}

#[test]
fn ssl_scenario_uses_secure_scheme() {
    let mut s = Session::new("example.com", 28017, "secret", packages_for(&["env.time 9"]), true);
    assert_eq!(
        s.next_action(),
        Action::OpenConnection("wss://example.com:28017/secret".to_string())
    );
    s.record(Outcome::Failed);
    assert_eq!(s.next_action(), Action::Finish(Err(ErrorStage::ConnectFailed)));
}
