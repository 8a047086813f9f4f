use es_wifi::command::{encode_command, Command};
use es_wifi::connection::{
    classify_status, ConnectionManager, Join, JoinAction, JoinPhase, WifiState, MAX_STATUS_POLLS,
    POLL_INTERVAL_MS,
};
use es_wifi::error::ProtocolError;

/// Runs a join, answering each configuration command with `setup(i)` and
/// each status query with the next scripted payload (an empty one once the
/// script runs out). Returns the outcome and every request text, in order.
fn run_join(
    join: &mut Join,
    setup: impl Fn(usize) -> Result<Vec<u8>, ProtocolError>,
    statuses: &[&[u8]],
) -> (Result<(), ProtocolError>, Vec<Vec<u8>>) {
    let mut sent: Vec<Vec<u8>> = Vec::new();
    let mut polls = 0usize;
    let mut request = join.request().expect("a new join makes a request");
    loop {
        sent.push(request.text.clone());
        let reply = if request.text == b"C?\r" {
            assert_eq!(request.delay_ms, POLL_INTERVAL_MS);
            let payload = statuses.get(polls).map(|p| p.to_vec()).unwrap_or_default();
            polls += 1;
            Ok(payload)
        } else {
            assert_eq!(request.delay_ms, 0);
            setup(sent.len() - 1)
        };
        match join.on_reply(reply) {
            JoinAction::Send(next) => request = next,
            JoinAction::Done(outcome) => return (outcome, sent),
        }
    }
}

fn all_ok(_: usize) -> Result<Vec<u8>, ProtocolError> {
    Ok(Vec::new())
}

fn setup_texts() -> Vec<Vec<u8>> {
    vec![
        b"CD\r".to_vec(),
        b"CB=2\r".to_vec(),
        b"C1=Subway\r".to_vec(),
        b"C2=5$FootLong\r".to_vec(),
        b"C3=4\r".to_vec(),
        b"C0\r".to_vec(),
    ]
}

fn polls_in(sent: &[Vec<u8>]) -> usize {
    sent.iter().filter(|t| t.as_slice() == b"C?\r").count()
}

#[test]
fn address_on_fourth_poll_connects() {
    let mut manager = ConnectionManager::new();
    let mut join = manager.connect_to_network(b"Subway", b"5$FootLong");
    let statuses: [&[u8]; 4] = [b"0.0.0.0", b"0.0.0.0", b"0.0.0.0", b"192.168.1.42"];
    let (outcome, sent) = run_join(&mut join, all_ok, &statuses);
    assert_eq!(outcome, Ok(()));
    assert_eq!(polls_in(&sent), 4);
    assert_eq!(sent.len(), 10);
    assert_eq!(join.current_phase(), JoinPhase::Joined);
    manager.finish_join(&outcome);
    assert_eq!(manager.state(), WifiState::Connected);
}

#[test]
fn failure_on_first_poll_stops_polling() {
    let mut manager = ConnectionManager::new();
    let mut join = manager.connect_to_network(b"Subway", b"5$FootLong");
    let statuses: [&[u8]; 3] = [b"Join Failed", b"192.168.1.42", b"192.168.1.42"];
    let (outcome, sent) = run_join(&mut join, all_ok, &statuses);
    assert_eq!(outcome, Err(ProtocolError::ConnectionFailed));
    assert_eq!(polls_in(&sent), 1);
    assert!(join.request().is_none());
    manager.finish_join(&outcome);
    assert_eq!(manager.state(), WifiState::Disconnected);
}

#[test]
fn empty_statuses_time_out_after_twenty_polls() {
    let manager = ConnectionManager::new();
    let mut join = manager.connect_to_network(b"Subway", b"5$FootLong");
    let (outcome, sent) = run_join(&mut join, all_ok, &[]);
    assert_eq!(outcome, Err(ProtocolError::ConnectionTimeout));
    assert_eq!(polls_in(&sent), 20);
    assert_eq!(MAX_STATUS_POLLS, 20);
    assert_eq!(join.current_phase(), JoinPhase::Abandoned);
}

#[test]
fn status_errors_count_as_inconclusive() {
    let mut join = Join::new(b"net", b"pw");
    let mut polls = 0;
    let mut action = None;
    for _ in 0..6 {
        action = Some(join.on_reply(Ok(Vec::new())));
    }
    while let Some(JoinAction::Send(_)) = action {
        polls += 1;
        action = Some(join.on_reply(Err(ProtocolError::ResponseMalformed)));
    }
    assert_eq!(polls, 20);
    assert_eq!(action, Some(JoinAction::Done(Err(ProtocolError::ConnectionTimeout))));
}

#[test]
fn rejoin_after_failure_repeats_setup_sequence() {
    let mut manager = ConnectionManager::new();
    let mut first = manager.connect_to_network(b"Subway", b"5$FootLong");
    let (outcome, sent_first) = run_join(&mut first, all_ok, &[b"Failed"]);
    assert_eq!(outcome, Err(ProtocolError::ConnectionFailed));
    manager.finish_join(&outcome);
    let mut second = manager.connect_to_network(b"Subway", b"5$FootLong");
    let (_, sent_second) = run_join(&mut second, all_ok, &[b"10.0.0.7"]);
    assert_eq!(sent_first[..6].to_vec(), setup_texts());
    assert_eq!(sent_second[..6].to_vec(), setup_texts());
}

#[test]
fn setup_failure_aborts_with_its_error() {
    let mut join = Join::new(b"Subway", b"5$FootLong");
    let fail_at_ssid = |i: usize| {
        if i == 2 {
            Err(ProtocolError::CommandFailed(b"-1".to_vec()))
        } else {
            Ok(Vec::new())
        }
    };
    let (outcome, sent) = run_join(&mut join, fail_at_ssid, &[]);
    assert_eq!(outcome, Err(ProtocolError::CommandFailed(b"-1".to_vec())));
    assert_eq!(sent, setup_texts()[..3].to_vec());
    assert_eq!(join.current_phase(), JoinPhase::Abandoned);
}

#[test]
fn transport_failure_in_setup_aborts() {
    let mut join = Join::new(b"a", b"b");
    assert!(matches!(join.on_reply(Ok(Vec::new())), JoinAction::Send(_)));
    assert_eq!(join.on_reply(Err(ProtocolError::Transport)), JoinAction::Done(Err(ProtocolError::Transport)));
}

#[test]
fn classify_recognises_private_ranges() {
    assert_eq!(classify_status(b"IP 192.168.0.3"), Some(true));
    assert_eq!(classify_status(b"10.1.2.3"), Some(true));
    assert_eq!(classify_status(b"172.16.0.1"), Some(true));
    assert_eq!(classify_status(b"Failed"), Some(false));
    assert_eq!(classify_status(b"0.0.0.0"), None);
    assert_eq!(classify_status(b""), None);
    assert_eq!(classify_status(b"192.168"), None);
}

#[test]
fn address_wins_over_failure_word() {
    assert_eq!(classify_status(b"Failed 10.0.0.1"), Some(true));
}

#[test]
fn manager_starts_disconnected() {
    assert_eq!(ConnectionManager::new().state(), WifiState::Disconnected);
}

#[test]
fn command_texts_follow_vocabulary() {
    assert_eq!(encode_command(Command::Disconnect, b""), b"CD\r".to_vec());
    assert_eq!(encode_command(Command::QueryStatus, b"ignored"), b"C?\r".to_vec());
    assert_eq!(encode_command(Command::GetMac, b""), b"Z5\r".to_vec());
    assert_eq!(encode_command(Command::GetVersion, b""), b"MR\r".to_vec());
    assert_eq!(encode_command(Command::SetVerbosity, b""), b"MT=1\r".to_vec());
    assert_eq!(encode_command(Command::SetPassphrase, b"pw"), b"C2=pw\r".to_vec());
    assert_eq!(encode_command(Command::SetSsid, b""), b"C1=\r".to_vec());
}
