//! The five-event power-state machine: a defeated character can be revived.
//!
//! States and events are closed enumerations with stable, contiguous,
//! zero-based integer codes. [`transition`] is the total transition table.

use vstd::prelude::*;

verus! {

/// The largest integer code of a state.
pub const MAX_STATE_CODE: u32 = 4;

/// The largest integer code of an event; every larger integer is no event.
pub const MAX_EVENT_CODE: u32 = 4;

/// The conditions Dario can be in.
///
/// `Regular` is the neutral condition, `Super` the boosted one, `Fire` the
/// empowered one, `Cape` the shielded one and `GameOver` the defeated one.
#[derive(Clone, Copy, Debug, PartialEq, Eq, Structural)]
pub enum DarioState {
    Regular,
    Super,
    Fire,
    Cape,
    GameOver,
}

/// The events that can change Dario's state.
///
/// `Espresso` boosts, `ChiliPepper` empowers, `TableClothCape` shields,
/// `TakeDamage` damages and `Revive` brings a defeated Dario back.
#[derive(Clone, Copy, Debug, PartialEq, Eq, Structural)]
pub enum Event {
    Espresso,
    ChiliPepper,
    TableClothCape,
    TakeDamage,
    Revive,
}

impl DarioState {
    /// The integer code of a state: its position in the enumeration.
    pub open spec fn spec_code(self) -> u32 {
        match self {
            DarioState::Regular => 0,
            DarioState::Super => 1,
            DarioState::Fire => 2,
            DarioState::Cape => 3,
            DarioState::GameOver => 4,
        }
    }

    /// The state with a given code, if there is one.
    pub open spec fn spec_from_code(code: u32) -> Option<DarioState> {
        if code == 0 {
            Some(DarioState::Regular)
        } else if code == 1 {
            Some(DarioState::Super)
        } else if code == 2 {
            Some(DarioState::Fire)
        } else if code == 3 {
            Some(DarioState::Cape)
        } else if code == 4 {
            Some(DarioState::GameOver)
        } else {
            None
        }
    }

    /// Returns the integer code of the state.
    #[verifier::when_used_as_spec(spec_code)]
    pub fn code(self) -> (code: u32)
        ensures
            code == self.spec_code(),
            code <= MAX_STATE_CODE,
    {
        match self {
            DarioState::Regular => 0,
            DarioState::Super => 1,
            DarioState::Fire => 2,
            DarioState::Cape => 3,
            DarioState::GameOver => 4,
        }
    }

    /// Decodes an integer code: `Some` exactly for the codes up to
    /// [`MAX_STATE_CODE`].
    #[verifier::when_used_as_spec(spec_from_code)]
    pub fn from_code(code: u32) -> (state: Option<DarioState>)
        ensures
            state == DarioState::spec_from_code(code),
            state is Some <==> code <= MAX_STATE_CODE,
            state matches Some(s) ==> s.spec_code() == code,
    {
        match code {
            0 => Some(DarioState::Regular),
            1 => Some(DarioState::Super),
            2 => Some(DarioState::Fire),
            3 => Some(DarioState::Cape),
            4 => Some(DarioState::GameOver),
            _ => None,
        }
    }
}

impl Event {
    /// The integer code of an event: its position in the enumeration.
    pub open spec fn spec_code(self) -> u32 {
        match self {
            Event::Espresso => 0,
            Event::ChiliPepper => 1,
            Event::TableClothCape => 2,
            Event::TakeDamage => 3,
            Event::Revive => 4,
        }
    }

    /// The event with a given code, if there is one.
    pub open spec fn spec_from_code(code: u32) -> Option<Event> {
        if code == 0 {
            Some(Event::Espresso)
        } else if code == 1 {
            Some(Event::ChiliPepper)
        } else if code == 2 {
            Some(Event::TableClothCape)
        } else if code == 3 {
            Some(Event::TakeDamage)
        } else if code == 4 {
            Some(Event::Revive)
        } else {
            None
        }
    }

    /// Returns the integer code of the event.
    #[verifier::when_used_as_spec(spec_code)]
    pub fn code(self) -> (code: u32)
        ensures
            code == self.spec_code(),
            code <= MAX_EVENT_CODE,
    {
        match self {
            Event::Espresso => 0,
            Event::ChiliPepper => 1,
            Event::TableClothCape => 2,
            Event::TakeDamage => 3,
            Event::Revive => 4,
        }
    }

    /// Validates and decodes a raw event code in one step: `Some` exactly for
    /// the codes up to [`MAX_EVENT_CODE`], `None` for every larger integer.
    #[verifier::when_used_as_spec(spec_from_code)]
    pub fn from_code(code: u32) -> (event: Option<Event>)
        ensures
            event == Event::spec_from_code(code),
            event is Some <==> code <= MAX_EVENT_CODE,
            event matches Some(e) ==> e.spec_code() == code,
    {
        match code {
            0 => Some(Event::Espresso),
            1 => Some(Event::ChiliPepper),
            2 => Some(Event::TableClothCape),
            3 => Some(Event::TakeDamage),
            4 => Some(Event::Revive),
            _ => None,
        }
    }
}

/// The transition table, read event by event.
///
/// - `Espresso` lifts `Regular` to `Super`.
/// - `ChiliPepper` gives `Fire` to every living Dario.
/// - `TableClothCape` gives `Cape` to every living Dario.
/// - `TakeDamage` defeats a `Regular` Dario and strips a powered one back to
///   `Regular`.
/// - `Revive` returns a defeated Dario to `Regular`.
///
/// Every other pair leaves the state as it is.
pub open spec fn next_state(state: DarioState, event: Event) -> DarioState {
    match event {
        Event::Espresso => if state is Regular {
            DarioState::Super
        } else {
            state
        },
        Event::ChiliPepper => if state is GameOver {
            state
        } else {
            DarioState::Fire
        },
        Event::TableClothCape => if state is GameOver {
            state
        } else {
            DarioState::Cape
        },
        Event::TakeDamage => if state is Regular || state is GameOver {
            DarioState::GameOver
        } else {
            DarioState::Regular
        },
        Event::Revive => if state is GameOver {
            DarioState::Regular
        } else {
            state
        },
    }
}

/// Computes Dario's next state from the current state and an event.
///
/// Total: every pair has a result, and a pair without a rule keeps the
/// current state.
pub fn transition(state: DarioState, event: Event) -> (next: DarioState)
    ensures
        next == next_state(state, event),
        next.spec_code() <= MAX_STATE_CODE,
{
    match (state, event) {
        (DarioState::Regular, Event::Espresso) => DarioState::Super,
        (DarioState::Regular, Event::ChiliPepper) => DarioState::Fire,
        (DarioState::Regular, Event::TableClothCape) => DarioState::Cape,
        (DarioState::Super, Event::ChiliPepper) => DarioState::Fire,
        (DarioState::Super, Event::TableClothCape) => DarioState::Cape,
        (DarioState::Fire, Event::TableClothCape) => DarioState::Cape,
        (DarioState::Cape, Event::ChiliPepper) => DarioState::Fire,
        (DarioState::Regular, Event::TakeDamage) => DarioState::GameOver,
        (DarioState::Super, Event::TakeDamage)
        | (DarioState::Fire, Event::TakeDamage)
        | (DarioState::Cape, Event::TakeDamage) => DarioState::Regular,
        (DarioState::GameOver, Event::Revive) => DarioState::Regular,
        (current_state, _) => current_state,
    }
}

/// Codes and states name each other: decoding the code of a state gives the
/// state back, and every code up to [`MAX_STATE_CODE`] is the code of the
/// state it decodes to.
pub proof fn lemma_state_codes_round_trip(state: DarioState, code: u32)
    ensures
        state.spec_code() <= MAX_STATE_CODE,
        DarioState::spec_from_code(state.spec_code()) == Some(state),
        DarioState::spec_from_code(code) is Some <==> code <= MAX_STATE_CODE,
        DarioState::spec_from_code(code) matches Some(decoded) ==> decoded.spec_code() == code,
{
}

/// Codes and events name each other: decoding the code of an event gives
/// the event back, and every code up to [`MAX_EVENT_CODE`] is the code of
/// the event it decodes to.
pub proof fn lemma_event_codes_round_trip(event: Event, code: u32)
    ensures
        event.spec_code() <= MAX_EVENT_CODE,
        Event::spec_from_code(event.spec_code()) == Some(event),
        Event::spec_from_code(code) is Some <==> code <= MAX_EVENT_CODE,
        Event::spec_from_code(code) matches Some(decoded) ==> decoded.spec_code() == code,
{
}

/// The table is total: whatever the state and the event, the next state is
/// a state of the domain, with a code of its own.
pub proof fn lemma_transition_stays_in_domain(state: DarioState, event: Event)
    ensures
        next_state(state, event).spec_code() <= MAX_STATE_CODE,
        DarioState::spec_from_code(next_state(state, event).spec_code()) == Some(
            next_state(state, event),
        ),
{
}

/// Only `Revive` leads out of `GameOver`, and it leads to `Regular`.
pub proof fn lemma_only_revive_leaves_game_over(event: Event)
    ensures
        next_state(DarioState::GameOver, event) != DarioState::GameOver <==> event is Revive,
        next_state(DarioState::GameOver, Event::Revive) == DarioState::Regular,
{
}

/// `Revive` changes nothing for a living Dario.
pub proof fn lemma_revive_keeps_the_living(state: DarioState)
    requires
        state != DarioState::GameOver,
    ensures
        next_state(state, Event::Revive) == state,
{
}

} // verus!
