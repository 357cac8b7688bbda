use knock_knock::error::KnockKnockError;
use knock_knock::record::{Event, EventAction, RegistrationRecord};
use knock_knock::report::{domain_header, DomainReport};
use knock_knock::resolver::{conclude, select_server, QueryFailure};
use knock_knock::retry::{Action, RetryState};
use knock_knock::tier::DurationTier;
use knock_knock::time::Timestamp;
use rdap_client::bootstrap::Dns;

const NOW: Timestamp = Timestamp { millis: 1_700_000_000_000 };
const DAY: i64 = 86_400_000;

fn registry() -> Dns {
    let mut dns = Dns::new();
    dns.insert(vec![String::from("https://rdap.registry.test/com/v1/")], vec![String::from("com")]);
    dns
}

/// Runs a batch over `domains`. A query to the server of a domain is
/// answered by the next entry of `answers`; the lines that a terminal
/// would show are returned, with the servers that were asked.
fn run_batch(
    dns: &Dns,
    domains: &[&str],
    answers: &[Result<RegistrationRecord, QueryFailure>],
    show_full_time: bool,
) -> (Vec<String>, Vec<String>) {
    let mut lines: Vec<String> = Vec::new();
    let mut asked: Vec<String> = Vec::new();
    let mut answered = 0;
    let mut state = RetryState::new(domains.len());
    while let Action::Attempt { index, announce } = state.next_action() {
        if announce {
            lines.push(domain_header(domains[index]));
        }
        let outcome = match select_server(dns, domains[index]) {
            Ok(server) => {
                asked.push(server);
                answered += 1;
                conclude(answers[answered - 1])
            }
            Err(error) => Err(error),
        };
        if let Some(report) = state.finish_attempt(outcome, NOW) {
            lines.push(report.status_line(show_full_time));
        }
    }
    (lines, asked)
}

#[test]
fn a_registered_domain_shows_the_time_left() {
    let events = vec![
        Event { action: EventAction::Registration, date: Timestamp { millis: NOW.millis - 300 * DAY } },
        Event { action: EventAction::Expiration, date: Timestamp { millis: NOW.millis + 10 * DAY } },
    ];
    let record = RegistrationRecord::from_events(true, &events);
    let (lines, asked) = run_batch(&registry(), &["example.com"], &[Ok(record)], false);
    assert_eq!(asked, vec![String::from("https://rdap.registry.test/com/v1/")]);
    assert_eq!(
        lines,
        vec![
            String::from("example.com:"),
            String::from("\x1b[33m    Domain name will expire in 10 days\x1b[0m"),
        ]
    );
}

#[test]
fn a_registered_domain_shows_the_full_time_left() {
    let expiration = NOW.millis + 10 * DAY + 5 * 3_600_000 + 42 * 60_000 + 7_000 + 250;
    let record = RegistrationRecord { is_registered: true, expiration: Some(Timestamp { millis: expiration }) };
    let (lines, _) = run_batch(&registry(), &["example.com"], &[Ok(record)], true);
    assert_eq!(
        lines,
        vec![
            String::from("example.com:"),
            String::from(
                "\x1b[33m    Domain name will expire in 10 days, 5 hours, 42 minutes, 7 seconds\x1b[0m"
            ),
        ]
    );
}

#[test]
fn ten_days_left_call_for_a_warning_and_five_weeks_for_none() {
    let mut state = RetryState::new(2);
    state.next_action();
    let soon = RegistrationRecord { is_registered: true, expiration: Some(Timestamp { millis: NOW.millis + 10 * DAY }) };
    let report = state.finish_attempt(Ok(soon), NOW);
    assert_eq!(report.and_then(|report| report.tier()), Some(DurationTier::Warning));
    state.next_action();
    let late = RegistrationRecord { is_registered: true, expiration: Some(Timestamp { millis: NOW.millis + 35 * DAY }) };
    let report = state.finish_attempt(Ok(late), NOW);
    assert_eq!(report.and_then(|report| report.tier()), Some(DurationTier::Normal));
    assert_eq!(
        report.map(|report| report.status_line(false)),
        Some(String::from("\x1b[32m    Domain name will expire in 35 days\x1b[0m"))
    );
}

#[test]
fn a_domain_without_bootstrap_entry_fails_and_the_batch_goes_on() {
    let record = RegistrationRecord { is_registered: true, expiration: Some(Timestamp { millis: NOW.millis + 40 * DAY }) };
    let (lines, asked) = run_batch(&registry(), &["nosuchtld.zzz", "example.com"], &[Ok(record)], false);
    assert_eq!(
        select_server(&registry(), "nosuchtld.zzz"),
        Err(KnockKnockError::UnableToRetrieveListOfServers)
    );
    assert_eq!(asked, vec![String::from("https://rdap.registry.test/com/v1/")]);
    assert_eq!(
        lines,
        vec![
            String::from("nosuchtld.zzz:"),
            String::from("\x1b[31m    ERROR: Unable to retrieve domain name info\x1b[0m"),
            String::from("example.com:"),
            String::from("\x1b[32m    Domain name will expire in 40 days\x1b[0m"),
        ]
    );
}

#[test]
fn a_lone_domain_without_bootstrap_entry_is_reported_as_failed() {
    let mut state = RetryState::new(1);
    let mut attempts = 0;
    let mut reports: Vec<DomainReport> = Vec::new();
    while let Action::Attempt { .. } = state.next_action() {
        attempts += 1;
        let outcome = match select_server(&registry(), "nosuchtld.zzz") {
            Ok(_) => unreachable!(),
            Err(error) => Err(error),
        };
        if let Some(report) = state.finish_attempt(outcome, NOW) {
            reports.push(report);
        }
    }
    assert_eq!(attempts, 3);
    assert_eq!(
        reports,
        vec![DomainReport::LookupFailed { error: KnockKnockError::UnableToRetrieveListOfServers }]
    );
}

#[test]
fn a_domain_that_is_not_found_is_asked_once() {
    let (lines, asked) = run_batch(
        &registry(),
        &["free-name.com"],
        &[Err(QueryFailure::Status(404))],
        false,
    );
    assert_eq!(asked.len(), 1);
    assert_eq!(
        lines,
        vec![
            String::from("free-name.com:"),
            String::from("\x1b[32m    Domain name not registered\x1b[0m"),
        ]
    );
}

#[test]
fn a_glitching_server_is_asked_three_times() {
    let glitch: Result<RegistrationRecord, QueryFailure> = Err(QueryFailure::Transport);
    let record = RegistrationRecord { is_registered: true, expiration: None };
    let (lines, asked) = run_batch(
        &registry(),
        &["flaky.com", "steady.com"],
        &[glitch, glitch, glitch, Ok(record)],
        false,
    );
    assert_eq!(asked.len(), 4);
    assert_eq!(
        lines,
        vec![
            String::from("flaky.com:"),
            String::from("\x1b[31m    ERROR: Unable to retrieve domain name info\x1b[0m"),
            String::from("steady.com:"),
            String::from("\x1b[31m    ERROR: Unable to obtain domain name expiration date\x1b[0m"),
        ]
    );
}

#[test]
fn a_server_that_recovers_is_reported_by_its_answer() {
    let record = RegistrationRecord { is_registered: true, expiration: Some(Timestamp { millis: NOW.millis - DAY }) };
    let (lines, asked) = run_batch(
        &registry(),
        &["late.com"],
        &[Err(QueryFailure::Status(503)), Err(QueryFailure::Decode), Ok(record)],
        false,
    );
    assert_eq!(asked.len(), 3);
    assert_eq!(
        lines,
        vec![
            String::from("late.com:"),
            String::from("\x1b[31m    Domain name has expired 1 day ago\x1b[0m"),
        ]
    );
}

#[test]
fn an_unregistered_record_is_not_an_error() {
    let record = RegistrationRecord::from_events(false, &Vec::new());
    let (lines, _) = run_batch(&registry(), &["unused.com"], &[Ok(record)], true);
    assert_eq!(
        lines,
        vec![
            String::from("unused.com:"),
            String::from("\x1b[32m    Domain name not registered\x1b[0m"),
        ]
    );
}

#[test]
fn every_domain_gets_one_header_and_one_status_line() {
    let glitch: Result<RegistrationRecord, QueryFailure> = Err(QueryFailure::Transport);
    let record = RegistrationRecord { is_registered: true, expiration: None };
    let domains = ["a.com", "missing.zzz", "b.com", "c.com"];
    let answers = [glitch, Ok(record), glitch, glitch, glitch, Err(QueryFailure::Status(404))];
    let (lines, _) = run_batch(&registry(), &domains, &answers, false);
    assert_eq!(lines.len(), 2 * domains.len());
    for (position, name) in domains.iter().enumerate() {
        assert_eq!(lines[2 * position], format!("{}:", name));
        assert!(lines[2 * position + 1].starts_with('\x1b'));
    }
}

#[test]
fn a_batch_of_no_domains_shows_nothing() {
    let (lines, asked) = run_batch(&registry(), &[], &[], false);
    assert!(lines.is_empty());
    assert!(asked.is_empty());
}
