//! The four-event power-state machine: defeat is final.
//!
//! States and events are closed enumerations with stable, contiguous,
//! zero-based integer codes. [`transition`] is the total transition table.

use vstd::prelude::*;

verus! {

/// The largest integer code of a state.
pub const MAX_STATE_CODE: u32 = 4;

/// The largest integer code of an event; every larger integer is no event.
pub const MAX_EVENT_CODE: u32 = 3;

/// The conditions Mario can be in.
///
/// `Regular` is the neutral condition, `Super` the boosted one, `Fire` the
/// empowered one, `Cape` the shielded one and `GameOver` the defeated one.
#[derive(Clone, Copy, Debug, PartialEq, Eq, Structural)]
pub enum MarioState {
    Regular,
    Super,
    Fire,
    Cape,
    GameOver,
}

/// The events that can change Mario's state.
///
/// `Mushroom` boosts, `FireFlower` empowers, `CapeFeather` shields and
/// `TakeDamage` damages.
#[derive(Clone, Copy, Debug, PartialEq, Eq, Structural)]
pub enum Event {
    Mushroom,
    FireFlower,
    CapeFeather,
    TakeDamage,
}

impl MarioState {
    /// The integer code of a state: its position in the enumeration.
    pub open spec fn spec_code(self) -> u32 {
        match self {
            MarioState::Regular => 0,
            MarioState::Super => 1,
            MarioState::Fire => 2,
            MarioState::Cape => 3,
            MarioState::GameOver => 4,
        }
    }

    /// The state with a given code, if there is one.
    pub open spec fn spec_from_code(code: u32) -> Option<MarioState> {
        if code == 0 {
            Some(MarioState::Regular)
        } else if code == 1 {
            Some(MarioState::Super)
        } else if code == 2 {
            Some(MarioState::Fire)
        } else if code == 3 {
            Some(MarioState::Cape)
        } else if code == 4 {
            Some(MarioState::GameOver)
        } else {
            None
        }
    }

    /// Returns the integer code of the state.
    #[verifier::when_used_as_spec(spec_code)]
    pub fn code(self) -> (code: u32)
        ensures
            code == self.spec_code(),
            code <= MAX_STATE_CODE,
    {
        match self {
            MarioState::Regular => 0,
            MarioState::Super => 1,
            MarioState::Fire => 2,
            MarioState::Cape => 3,
            MarioState::GameOver => 4,
        }
    }

    /// Decodes an integer code: `Some` exactly for the codes up to
    /// [`MAX_STATE_CODE`].
    #[verifier::when_used_as_spec(spec_from_code)]
    pub fn from_code(code: u32) -> (state: Option<MarioState>)
        ensures
            state == MarioState::spec_from_code(code),
            state is Some <==> code <= MAX_STATE_CODE,
            state matches Some(s) ==> s.spec_code() == code,
    {
        match code {
            0 => Some(MarioState::Regular),
            1 => Some(MarioState::Super),
            2 => Some(MarioState::Fire),
            3 => Some(MarioState::Cape),
            4 => Some(MarioState::GameOver),
            _ => None,
        }
    }
}

impl Event {
    /// The integer code of an event: its position in the enumeration.
    pub open spec fn spec_code(self) -> u32 {
        match self {
            Event::Mushroom => 0,
            Event::FireFlower => 1,
            Event::CapeFeather => 2,
            Event::TakeDamage => 3,
        }
    }

    /// The event with a given code, if there is one.
    pub open spec fn spec_from_code(code: u32) -> Option<Event> {
        if code == 0 {
            Some(Event::Mushroom)
        } else if code == 1 {
            Some(Event::FireFlower)
        } else if code == 2 {
            Some(Event::CapeFeather)
        } else if code == 3 {
            Some(Event::TakeDamage)
        } else {
            None
        }
    }

    /// Returns the integer code of the event.
    #[verifier::when_used_as_spec(spec_code)]
    pub fn code(self) -> (code: u32)
        ensures
            code == self.spec_code(),
            code <= MAX_EVENT_CODE,
    {
        match self {
            Event::Mushroom => 0,
            Event::FireFlower => 1,
            Event::CapeFeather => 2,
            Event::TakeDamage => 3,
        }
    }

    /// Validates and decodes a raw event code in one step: `Some` exactly for
    /// the codes up to [`MAX_EVENT_CODE`], `None` for every larger integer.
    #[verifier::when_used_as_spec(spec_from_code)]
    pub fn from_code(code: u32) -> (event: Option<Event>)
        ensures
            event == Event::spec_from_code(code),
            event is Some <==> code <= MAX_EVENT_CODE,
            event matches Some(e) ==> e.spec_code() == code,
    {
        match code {
            0 => Some(Event::Mushroom),
            1 => Some(Event::FireFlower),
            2 => Some(Event::CapeFeather),
            3 => Some(Event::TakeDamage),
            _ => None,
        }
    }
}

/// The transition table, read event by event.
///
/// - `Mushroom` lifts `Regular` to `Super`.
/// - `FireFlower` gives `Fire` to every living Mario.
/// - `CapeFeather` gives `Cape` to every living Mario.
/// - `TakeDamage` defeats a `Regular` Mario and strips a powered one back to
///   `Regular`.
///
/// Every other pair leaves the state as it is; in particular nothing leads
/// out of `GameOver`.
pub open spec fn next_state(state: MarioState, event: Event) -> MarioState {
    match event {
        Event::Mushroom => if state is Regular {
            MarioState::Super
        } else {
            state
        },
        Event::FireFlower => if state is GameOver {
            state
        } else {
            MarioState::Fire
        },
        Event::CapeFeather => if state is GameOver {
            state
        } else {
            MarioState::Cape
        },
        Event::TakeDamage => if state is Regular || state is GameOver {
            MarioState::GameOver
        } else {
            MarioState::Regular
        },
    }
}

/// Computes Mario's next state from the current state and an event.
///
/// Total: every pair has a result, and a pair without a rule keeps the
/// current state.
pub fn transition(state: MarioState, event: Event) -> (next: MarioState)
    ensures
        next == next_state(state, event),
        next.spec_code() <= MAX_STATE_CODE,
{
    match (state, event) {
        (MarioState::Regular, Event::Mushroom) => MarioState::Super,
        (MarioState::Regular, Event::FireFlower) => MarioState::Fire,
        (MarioState::Regular, Event::CapeFeather) => MarioState::Cape,
        (MarioState::Super, Event::FireFlower) => MarioState::Fire,
        (MarioState::Super, Event::CapeFeather) => MarioState::Cape,
        (MarioState::Fire, Event::CapeFeather) => MarioState::Cape,
        (MarioState::Cape, Event::FireFlower) => MarioState::Fire,
        (MarioState::Regular, Event::TakeDamage) => MarioState::GameOver,
        (MarioState::Super, Event::TakeDamage)
        | (MarioState::Fire, Event::TakeDamage)
        | (MarioState::Cape, Event::TakeDamage) => MarioState::Regular,
        (current_state, _) => current_state,
    }
}

/// Codes and states name each other: decoding the code of a state gives the
/// state back, and every code up to [`MAX_STATE_CODE`] is the code of the
/// state it decodes to.
pub proof fn lemma_state_codes_round_trip(state: MarioState, code: u32)
    ensures
        state.spec_code() <= MAX_STATE_CODE,
        MarioState::spec_from_code(state.spec_code()) == Some(state),
        MarioState::spec_from_code(code) is Some <==> code <= MAX_STATE_CODE,
        MarioState::spec_from_code(code) matches Some(decoded) ==> decoded.spec_code() == code,
{
}

/// Codes and events name each other: decoding the code of an event gives
/// the event back, and every code up to [`MAX_EVENT_CODE`] is the code of
/// the event it decodes to.
pub proof fn lemma_event_codes_round_trip(event: Event, code: u32)
    ensures
        event.spec_code() <= MAX_EVENT_CODE,
        Event::spec_from_code(event.spec_code()) == Some(event),
        Event::spec_from_code(code) is Some <==> code <= MAX_EVENT_CODE,
        Event::spec_from_code(code) matches Some(decoded) ==> decoded.spec_code() == code,
{
}

/// The table is total: whatever the state and the event, the next state is
/// a state of the domain, with a code of its own.
pub proof fn lemma_transition_stays_in_domain(state: MarioState, event: Event)
    ensures
        next_state(state, event).spec_code() <= MAX_STATE_CODE,
        MarioState::spec_from_code(next_state(state, event).spec_code()) == Some(
            next_state(state, event),
        ),
{
}

/// `GameOver` is absorbing: no event leads out of it.
pub proof fn lemma_game_over_is_absorbing(event: Event)
    ensures
        next_state(MarioState::GameOver, event) == MarioState::GameOver,
{
}

} // verus!
