//! The solar events that a run can report or wait for.

use vstd::prelude::*;

use crate::errors::{ConfigErrorKind, HeliocronError};
use crate::text::{chars_of, spells};

verus! {

/// A moment of the day that is set by the position of the sun.
#[derive(Debug, Clone, Copy, PartialEq, Eq, Structural)]
pub enum Event {
    Sunrise,
    Sunset,
    CivilDawn,
    CivilDusk,
    NauticalDawn,
    NauticalDusk,
    AstronomicalDawn,
    AstronomicalDusk,
}

impl Event {
    /// The name by which the event is chosen.
    pub open spec fn name(self) -> Seq<char> {
        match self {
            Event::Sunrise => "sunrise"@,
            Event::Sunset => "sunset"@,
            Event::CivilDawn => "civil_dawn"@,
            Event::CivilDusk => "civil_dusk"@,
            Event::NauticalDawn => "nautical_dawn"@,
            Event::NauticalDusk => "nautical_dusk"@,
            Event::AstronomicalDawn => "astronomical_dawn"@,
            Event::AstronomicalDusk => "astronomical_dusk"@,
        }
    }

    /// The event whose name is exactly `name`, if there is one.
    pub open spec fn named(name: Seq<char>) -> Option<Event> {
        if exists|event: Event| event.name() == name {
            Some(choose|event: Event| event.name() == name)
        } else {
            None
        }
    }

    /// The error that an unknown name ends in.
    pub open spec fn unknown() -> HeliocronError {
        HeliocronError::Config(ConfigErrorKind::InvalidEvent)
    }

    /// The name by which the event is chosen.
    pub fn as_str(self) -> (name: &'static str)
        ensures
            name@ == self.name(),
    {
        match self {
            Event::Sunrise => "sunrise",
            Event::Sunset => "sunset",
            Event::CivilDawn => "civil_dawn",
            Event::CivilDusk => "civil_dusk",
            Event::NauticalDawn => "nautical_dawn",
            Event::NauticalDusk => "nautical_dusk",
            Event::AstronomicalDawn => "astronomical_dawn",
            Event::AstronomicalDusk => "astronomical_dusk",
        }
    }

    /// Reads an event name. Only the eight names are accepted, spelled
    /// exactly, in lower case.
    pub fn new(name: &str) -> (r: Result<Event, HeliocronError>)
        ensures
            r == match Event::named(name@) {
                Some(event) => Ok::<Event, HeliocronError>(event),
                None => Err(Event::unknown()),
            },
    {
        let chars = chars_of(name);
        let found = if spells(&chars, "sunrise") {
            Some(Event::Sunrise)
        } else if spells(&chars, "sunset") {
            Some(Event::Sunset)
        } else if spells(&chars, "civil_dawn") {
            Some(Event::CivilDawn)
        } else if spells(&chars, "civil_dusk") {
            Some(Event::CivilDusk)
        } else if spells(&chars, "nautical_dawn") {
            Some(Event::NauticalDawn)
        } else if spells(&chars, "nautical_dusk") {
            Some(Event::NauticalDusk)
        } else if spells(&chars, "astronomical_dawn") {
            Some(Event::AstronomicalDawn)
        } else if spells(&chars, "astronomical_dusk") {
            Some(Event::AstronomicalDusk)
        } else {
            None
        };
        proof {
            match found {
                Some(event) => {
                    assert(event.name() == name@);
                    Event::lemma_names_differ(event, choose|other: Event| other.name() == name@);
                },
                None => {
                    assert forall|event: Event| event.name() != name@ by {
                        match event {
                            Event::Sunrise => {},
                            Event::Sunset => {},
                            Event::CivilDawn => {},
                            Event::CivilDusk => {},
                            Event::NauticalDawn => {},
                            Event::NauticalDusk => {},
                            Event::AstronomicalDawn => {},
                            Event::AstronomicalDusk => {},
                        }
                    }
                },
            }
        }
        match found {
            Some(event) => Ok(event),
            None => Err(HeliocronError::Config(ConfigErrorKind::InvalidEvent)),
        }
    }

    /// No two events share a name.
    pub proof fn lemma_names_differ(a: Event, b: Event)
        requires
            a.name() == b.name(),
        ensures
            a == b,
    {
        reveal_strlit("sunrise");
        reveal_strlit("sunset");
        reveal_strlit("civil_dawn");
        reveal_strlit("civil_dusk");
        reveal_strlit("nautical_dawn");
        reveal_strlit("nautical_dusk");
        reveal_strlit("astronomical_dawn");
        reveal_strlit("astronomical_dusk");
        // two names differ in length, or in the third letter from the end
        let name = a.name();
        let other = b.name();
        assert(name.len() == other.len());
        assert(name.len() == 10 ==> name[7] == other[7]);
        assert(name.len() == 13 ==> name[10] == other[10]);
        assert(name.len() == 17 ==> name[14] == other[14]);
    }

    /// Every event is found again under its own name, and a name that
    /// finds an event is that event's name: the eight names are accepted and
    /// nothing else.
    pub proof fn lemma_names_exact(event: Event, name: Seq<char>)
        ensures
            Event::named(event.name()) == Some(event),
            Event::named(name) == Some(event) <==> name == event.name(),
    {
        let found = choose|other: Event| other.name() == event.name();
        Event::lemma_names_differ(found, event);
        if name == event.name() {
        } else if Event::named(name) is Some {
            let other = choose|other: Event| other.name() == name;
            assert(other.name() == name);
        }
    }
}

} // verus!
