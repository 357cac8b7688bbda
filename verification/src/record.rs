//! What a successful query tells about a domain.

use vstd::prelude::*;
use crate::time::Timestamp;

verus! {

/// What happened to a registration at the date of an event.
#[derive(Debug, Clone, Copy, PartialEq, Eq, Structural)]
pub enum EventAction {
    Registration,
    Reregistration,
    LastChanged,
    Expiration,
    Deletion,
    Reinstantiation,
    Transfer,
    Locked,
    Unlocked,
    LastUpdateOfRdapDatabase,
    RegistrarExpiration,
    EnumValidationExpiration,
    DelegationSignCheck,
    SoftExpiration,
    LastCorrectDelegationSignCheck,
}

/// One dated event of a registration.
#[derive(Debug, Clone, Copy, PartialEq, Eq, Structural)]
pub struct Event {
    pub action: EventAction,
    pub date: Timestamp,
}

/// The result of a successful query. A domain that is not registered has
/// no expiration date; one that is registered has none where the response
/// held no expiration event.
#[derive(Debug, Clone, Copy, PartialEq, Eq)]
pub struct RegistrationRecord {
    pub is_registered: bool,
    pub expiration: Option<Timestamp>,
}

/// The date of the first expiration event among `events`, if there is one.
pub open spec fn first_expiration(events: Seq<Event>) -> Option<Timestamp>
    decreases events.len(),
{
    if events.len() == 0 {
        None
    } else if events[0].action == EventAction::Expiration {
        Some(events[0].date)
    } else {
        first_expiration(events.skip(1))
    }
}

/// Finds the date of the first expiration event among `events`.
pub fn expiration_date(events: &Vec<Event>) -> (date: Option<Timestamp>)
    ensures
        date == first_expiration(events@),
{
    let mut i: usize = 0;
    assert(events@.skip(0) =~= events@);
    while i < events.len()
        invariant
            i <= events.len(),
            first_expiration(events@) == first_expiration(events@.skip(i as int)),
        decreases events.len() - i,
    {
        let ghost rest = events@.skip(i as int);
        if matches!(events[i].action, EventAction::Expiration) {
            return Some(events[i].date);
        }
        assert(rest.skip(1) =~= events@.skip(i + 1));
        i = i + 1;
    }
    None
}

impl RegistrationRecord {
    /// Whether the record keeps the rule that only a registered domain
    /// has an expiration date.
    pub open spec fn well_formed(self) -> bool {
        !self.is_registered ==> self.expiration is None
    }

    /// The record of a domain with these events: its expiration date is
    /// that of the first expiration event, if the domain is registered.
    pub fn from_events(is_registered: bool, events: &Vec<Event>) -> (record: RegistrationRecord)
        ensures
            record.is_registered == is_registered,
            record.expiration == (if is_registered {
                first_expiration(events@)
            } else {
                None
            }),
            record.well_formed(),
    {
        let expiration = if is_registered {
            expiration_date(events)
        } else {
            None
        };
        RegistrationRecord { is_registered, expiration }
    }
}

/// The expiration date found is that of an expiration event before which
/// no other expiration event stands; none is found only where there is no
/// expiration event at all.
pub proof fn first_expiration_is_earliest_listed(events: Seq<Event>)
    ensures
        match first_expiration(events) {
            Some(date) => exists|i: int|
                0 <= i < events.len() && (#[trigger] events[i]).action == EventAction::Expiration
                    && events[i].date == date && forall|j: int|
                    0 <= j < i ==> (#[trigger] events[j]).action != EventAction::Expiration,
            None => forall|i: int|
                0 <= i < events.len() ==> (#[trigger] events[i]).action != EventAction::Expiration,
        },
    decreases events.len(),
{
    if events.len() > 0 && events[0].action != EventAction::Expiration {
        let rest = events.skip(1);
        first_expiration_is_earliest_listed(rest);
        match first_expiration(rest) {
            Some(date) => {
                let i = choose|i: int|
                    0 <= i < rest.len() && (#[trigger] rest[i]).action == EventAction::Expiration
                        && rest[i].date == date && forall|j: int|
                        0 <= j < i ==> (#[trigger] rest[j]).action != EventAction::Expiration;
                assert forall|j: int| 0 <= j < i + 1 implies (#[trigger] events[j]).action
                    != EventAction::Expiration by {
                    if j > 0 {
                        assert(events[j] == rest[j - 1]);
                    }
                }
            },
            None => {
                assert forall|i: int| 0 <= i < events.len() implies (#[trigger] events[i]).action
                    != EventAction::Expiration by {
                    if i > 0 {
                        assert(events[i] == rest[i - 1]);
                    }
                }
            },
        }
    } else if events.len() > 0 {
    }
}

} // verus!
