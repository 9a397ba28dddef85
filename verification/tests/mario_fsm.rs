use character_fsm::dario_fsm;
use character_fsm::mario_fsm::{transition, Event, MarioState, MAX_EVENT_CODE, MAX_STATE_CODE};

const STATES: [MarioState; 5] = [
    MarioState::Regular,
    MarioState::Super,
    MarioState::Fire,
    MarioState::Cape,
    MarioState::GameOver,
];

const EVENTS: [Event; 4] =
    [Event::Mushroom, Event::FireFlower, Event::CapeFeather, Event::TakeDamage];

#[test]
fn mario_mushroom_and_fire_flower_from_regular() {
    let current_state = MarioState::Regular;
    let new_state = transition(current_state, Event::Mushroom);
    assert_eq!(new_state, MarioState::Super);

    let new_state = transition(current_state, Event::FireFlower);
    assert_eq!(new_state, MarioState::Fire);
}

#[test]
fn mario_table_from_regular() {
    assert_eq!(transition(MarioState::Regular, Event::Mushroom), MarioState::Super);
    assert_eq!(transition(MarioState::Regular, Event::FireFlower), MarioState::Fire);
    assert_eq!(transition(MarioState::Regular, Event::CapeFeather), MarioState::Cape);
    assert_eq!(transition(MarioState::Regular, Event::TakeDamage), MarioState::GameOver);
}

#[test]
fn mario_table_from_super() {
    assert_eq!(transition(MarioState::Super, Event::Mushroom), MarioState::Super);
    assert_eq!(transition(MarioState::Super, Event::FireFlower), MarioState::Fire);
    assert_eq!(transition(MarioState::Super, Event::CapeFeather), MarioState::Cape);
    assert_eq!(transition(MarioState::Super, Event::TakeDamage), MarioState::Regular);
}

#[test]
fn mario_table_from_fire() {
    assert_eq!(transition(MarioState::Fire, Event::Mushroom), MarioState::Fire);
    assert_eq!(transition(MarioState::Fire, Event::FireFlower), MarioState::Fire);
    assert_eq!(transition(MarioState::Fire, Event::CapeFeather), MarioState::Cape);
    assert_eq!(transition(MarioState::Fire, Event::TakeDamage), MarioState::Regular);
}

#[test]
fn mario_table_from_cape() {
    assert_eq!(transition(MarioState::Cape, Event::Mushroom), MarioState::Cape);
    assert_eq!(transition(MarioState::Cape, Event::FireFlower), MarioState::Fire);
    assert_eq!(transition(MarioState::Cape, Event::CapeFeather), MarioState::Cape);
    assert_eq!(transition(MarioState::Cape, Event::TakeDamage), MarioState::Regular);
}

#[test]
fn mario_game_over_is_absorbing() {
    for event in EVENTS {
        assert_eq!(transition(MarioState::GameOver, event), MarioState::GameOver);
    }
}

#[test]
fn mario_transition_is_total_and_repeatable() {
    for state in STATES {
        for event in EVENTS {
            let next = transition(state, event);
            assert!(next.code() <= MAX_STATE_CODE);
            assert_eq!(MarioState::from_code(next.code()), Some(next));
            assert_eq!(transition(state, event), next);
        }
    }
}

#[test]
fn mario_state_codes_are_the_ordinals() {
    assert_eq!(MarioState::Regular.code(), 0);
    assert_eq!(MarioState::Super.code(), 1);
    assert_eq!(MarioState::Fire.code(), 2);
    assert_eq!(MarioState::Cape.code(), 3);
    assert_eq!(MarioState::GameOver.code(), 4);
    assert_eq!(MAX_STATE_CODE, 4);
}

#[test]
fn mario_event_codes_are_the_ordinals() {
    assert_eq!(Event::Mushroom.code(), 0);
    assert_eq!(Event::FireFlower.code(), 1);
    assert_eq!(Event::CapeFeather.code(), 2);
    assert_eq!(Event::TakeDamage.code(), 3);
    assert_eq!(MAX_EVENT_CODE, 3);
}

#[test]
fn mario_codes_decode_to_what_they_encode() {
    for state in STATES {
        assert_eq!(MarioState::from_code(state.code()), Some(state));
    }
    for event in EVENTS {
        assert_eq!(Event::from_code(event.code()), Some(event));
    }
}

#[test]
fn mario_codes_above_the_maximum_decode_to_nothing() {
    assert_eq!(MarioState::from_code(4), Some(MarioState::GameOver));
    assert_eq!(MarioState::from_code(5), None);
    assert_eq!(Event::from_code(3), Some(Event::TakeDamage));
    assert_eq!(Event::from_code(4), None);
    assert_eq!(Event::from_code(u32::MAX), None);
}

#[test]
fn mario_and_dario_share_one_table() {
    for state in STATES {
        for event in EVENTS {
            let dario_state = dario_fsm::DarioState::from_code(state.code()).unwrap();
            let dario_event = dario_fsm::Event::from_code(event.code()).unwrap();
            assert_eq!(
                transition(state, event).code(),
                dario_fsm::transition(dario_state, dario_event).code()
            );
        }
    }
}
