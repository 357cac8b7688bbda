use knock_knock::record::{expiration_date, Event, EventAction, RegistrationRecord};
use knock_knock::time::Timestamp;

fn event(action: EventAction, millis: i64) -> Event {
    Event { action, date: Timestamp { millis } }
}

#[test]
fn the_expiration_event_gives_the_date() {
    let events = vec![
        event(EventAction::Registration, 1_000),
        event(EventAction::Expiration, 9_000),
        event(EventAction::LastChanged, 5_000),
    ];
    assert_eq!(expiration_date(&events), Some(Timestamp { millis: 9_000 }));
}

#[test]
fn the_first_of_several_expiration_events_counts() {
    let events = vec![
        event(EventAction::LastChanged, 5_000),
        event(EventAction::Expiration, 7_000),
        event(EventAction::Expiration, 3_000),
    ];
    assert_eq!(expiration_date(&events), Some(Timestamp { millis: 7_000 }));
}

#[test]
fn without_an_expiration_event_there_is_no_date() {
    let events = vec![
        event(EventAction::Registration, 1_000),
        event(EventAction::RegistrarExpiration, 9_000),
        event(EventAction::SoftExpiration, 9_500),
        event(EventAction::EnumValidationExpiration, 9_700),
    ];
    assert_eq!(expiration_date(&events), None);
    assert_eq!(expiration_date(&Vec::new()), None);
}

#[test]
fn only_the_expiration_action_is_an_expiration() {
    let others = vec![
        EventAction::Registration,
        EventAction::Reregistration,
        EventAction::LastChanged,
        EventAction::Deletion,
        EventAction::Reinstantiation,
        EventAction::Transfer,
        EventAction::Locked,
        EventAction::Unlocked,
        EventAction::LastUpdateOfRdapDatabase,
        EventAction::RegistrarExpiration,
        EventAction::EnumValidationExpiration,
        EventAction::DelegationSignCheck,
        EventAction::SoftExpiration,
        EventAction::LastCorrectDelegationSignCheck,
    ];
    for action in others {
        assert_eq!(expiration_date(&vec![event(action, 1)]), None);
    }
    assert_eq!(
        expiration_date(&vec![event(EventAction::Expiration, 1)]),
        Some(Timestamp { millis: 1 })
    );
}

#[test]
fn a_registered_domain_has_the_date_of_its_events() {
    let events = vec![event(EventAction::Expiration, 9_000)];
    assert_eq!(
        RegistrationRecord::from_events(true, &events),
        RegistrationRecord { is_registered: true, expiration: Some(Timestamp { millis: 9_000 }) }
    );
    assert_eq!(
        RegistrationRecord::from_events(true, &Vec::new()),
        RegistrationRecord { is_registered: true, expiration: None }
    );
}

#[test]
fn an_unregistered_domain_has_no_expiration_date() {
    let events = vec![event(EventAction::Expiration, 9_000)];
    assert_eq!(
        RegistrationRecord::from_events(false, &events),
        RegistrationRecord { is_registered: false, expiration: None }
    );
}
