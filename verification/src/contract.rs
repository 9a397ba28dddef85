//! State holders: the single mutable instance a contract host drives.
//!
//! A holder owns the current state (and, for Dario, the number of revivals).
//! The host reads it with `read_state` and submits raw event codes with
//! `handle_event`, which validates the code, runs the transition table and
//! hands back the one notification the host has to emit.

use vstd::prelude::*;
use crate::dario_fsm;
use crate::dario_fsm::DarioState;
use crate::mario_fsm;
use crate::mario_fsm::MarioState;
use crate::wire::{le_bytes, to_le_bytes};

verus! {

/// The topic under which every state notification is emitted.
pub const STATE_TOPIC: &'static str = "state";

/// Why a call into a holder was rejected.
#[derive(Clone, Copy, Debug, PartialEq, Eq, Structural)]
pub enum FsmError {
    /// The event code is larger than the largest code of the event domain.
    InvalidEvent,
}

impl FsmError {
    /// A short description of the error, for the host to abort the call with.
    pub fn message(&self) -> (text: &'static str)
        ensures
            text@ == "Invalid event number passed"@,
    {
        match self {
            FsmError::InvalidEvent => "Invalid event number passed",
        }
    }
}

/// The message a holder hands out after it has handled an event: the topic
/// [`STATE_TOPIC`] and the code of the state the holder is now in.
#[derive(Clone, Copy, Debug, PartialEq, Eq, Structural)]
pub struct Notification {
    /// The code of the state after the event.
    pub payload: u32,
}

impl Notification {
    /// The topic of the notification: always [`STATE_TOPIC`].
    pub fn topic(&self) -> (topic: &'static str)
        ensures
            topic@ == STATE_TOPIC@,
    {
        STATE_TOPIC
    }

    /// The payload as it goes on the wire: a little-endian 32-bit integer.
    pub fn data(&self) -> (bytes: Vec<u8>)
        ensures
            bytes@ == le_bytes(self.payload),
    {
        to_le_bytes(self.payload)
    }
}

/// What a Dario holder holds, as a plain value.
pub struct DarioModel {
    /// The current state.
    pub state: DarioState,
    /// How often a defeated Dario has been revived, capped at `u32::MAX`.
    pub revive_count: u32,
}

impl DarioModel {
    /// A fresh holder: `Regular`, never revived.
    pub open spec fn initial() -> DarioModel {
        DarioModel { state: DarioState::Regular, revive_count: 0 }
    }

    /// Whether `event` revives the character: only `Revive` on `GameOver` does.
    pub open spec fn revived_by(self, event: dario_fsm::Event) -> bool {
        self.state is GameOver && event is Revive
    }

    /// The holder after a valid event: the state follows the transition
    /// table, and a revival adds one to the counter unless it is at its cap.
    pub open spec fn step(self, event: dario_fsm::Event) -> DarioModel {
        DarioModel {
            state: dario_fsm::next_state(self.state, event),
            revive_count: if self.revived_by(event) && self.revive_count < u32::MAX {
                (self.revive_count + 1) as u32
            } else {
                self.revive_count
            },
        }
    }

    /// The outcome of submitting a raw event code: the next holder, or
    /// `InvalidEvent` when the code is no event.
    pub open spec fn apply(self, code: u32) -> Result<DarioModel, FsmError> {
        match dario_fsm::Event::spec_from_code(code) {
            Some(event) => Ok(self.step(event)),
            None => Err(FsmError::InvalidEvent),
        }
    }

    /// The holder after a whole history of raw event codes, submitted in
    /// order; a rejected code leaves it as it was.
    pub open spec fn run(self, codes: Seq<u32>) -> DarioModel
        decreases codes.len(),
    {
        if codes.len() == 0 {
            self
        } else {
            let before = self.run(codes.drop_last());
            match before.apply(codes.last()) {
                Ok(after) => after,
                Err(_) => before,
            }
        }
    }
}

/// The holder of Dario's state and of his revival counter.
pub struct DarioFSM {
    current_state: DarioState,
    revive_count: u32,
}

impl View for DarioFSM {
    type V = DarioModel;

    closed spec fn view(&self) -> DarioModel {
        DarioModel { state: self.current_state, revive_count: self.revive_count }
    }
}

impl DarioFSM {
    /// Creates the holder in its initial condition.
    pub fn new() -> (fsm: DarioFSM)
        ensures
            fsm@ == DarioModel::initial(),
    {
        DarioFSM { current_state: DarioState::Regular, revive_count: 0 }
    }

    /// Returns the code of the current state.
    pub fn read_state(&self) -> (code: u32)
        ensures
            code == self@.state.spec_code(),
            code <= dario_fsm::MAX_STATE_CODE,
    {
        self.current_state.code()
    }

    /// Returns the number of revivals so far.
    pub fn revive_count(&self) -> (count: u32)
        ensures
            count == self@.revive_count,
    {
        self.revive_count
    }

    /// Handles a raw event code.
    ///
    /// A code above [`dario_fsm::MAX_EVENT_CODE`] is rejected with
    /// `InvalidEvent` and leaves the holder untouched. Any other code is
    /// decoded, the state moves as the transition table says, a revival is
    /// counted, and the call returns the new state's code together with the
    /// one notification that carries it.
    pub fn handle_event(&mut self, event: u32) -> (result: Result<(u32, Notification), FsmError>)
        ensures
            result is Err <==> event > dario_fsm::MAX_EVENT_CODE,
            match old(self)@.apply(event) {
                Ok(post) => {
                    &&& final(self)@ == post
                    &&& result == Ok::<(u32, Notification), FsmError>(
                        (post.state.spec_code(), Notification { payload: post.state.spec_code() }),
                    )
                },
                Err(error) => {
                    &&& *final(self) == *old(self)
                    &&& result == Err::<(u32, Notification), FsmError>(error)
                },
            },
    {
        match dario_fsm::Event::from_code(event) {
            None => Err(FsmError::InvalidEvent),
            Some(decoded) => {
                let before = self.current_state;
                let after = dario_fsm::transition(before, decoded);
                if before == DarioState::GameOver && decoded == dario_fsm::Event::Revive {
                    self.revive_count = self.revive_count.saturating_add(1);
                }
                self.current_state = after;
                let code = after.code();
                Ok((code, Notification { payload: code }))
            },
        }
    }
}

/// The holder of Mario's state.
pub struct MarioFSM {
    current_state: MarioState,
}

impl View for MarioFSM {
    type V = MarioState;

    closed spec fn view(&self) -> MarioState {
        self.current_state
    }
}

/// The outcome of submitting a raw event code to a Mario holder in state
/// `state`: the next state, or `InvalidEvent` when the code is no event.
pub open spec fn mario_apply(state: MarioState, code: u32) -> Result<MarioState, FsmError> {
    match mario_fsm::Event::spec_from_code(code) {
        Some(event) => Ok(mario_fsm::next_state(state, event)),
        None => Err(FsmError::InvalidEvent),
    }
}

impl MarioFSM {
    /// Creates the holder in its initial state, `Regular`.
    pub fn new() -> (fsm: MarioFSM)
        ensures
            fsm@ == MarioState::Regular,
    {
        MarioFSM { current_state: MarioState::Regular }
    }

    /// Returns the code of the current state.
    pub fn read_state(&self) -> (code: u32)
        ensures
            code == self@.spec_code(),
            code <= mario_fsm::MAX_STATE_CODE,
    {
        self.current_state.code()
    }

    /// Handles a raw event code.
    ///
    /// A code above [`mario_fsm::MAX_EVENT_CODE`] is rejected with
    /// `InvalidEvent` and leaves the holder untouched. Any other code is
    /// decoded, the state moves as the transition table says, and the call
    /// returns the new state's code together with the one notification that
    /// carries it.
    pub fn handle_event(&mut self, event: u32) -> (result: Result<(u32, Notification), FsmError>)
        ensures
            result is Err <==> event > mario_fsm::MAX_EVENT_CODE,
            match mario_apply(old(self)@, event) {
                Ok(post) => {
                    &&& final(self)@ == post
                    &&& result == Ok::<(u32, Notification), FsmError>(
                        (post.spec_code(), Notification { payload: post.spec_code() }),
                    )
                },
                Err(error) => {
                    &&& *final(self) == *old(self)
                    &&& result == Err::<(u32, Notification), FsmError>(error)
                },
            },
    {
        match mario_fsm::Event::from_code(event) {
            None => Err(FsmError::InvalidEvent),
            Some(decoded) => {
                let after = mario_fsm::transition(self.current_state, decoded);
                self.current_state = after;
                let code = after.code();
                Ok((code, Notification { payload: code }))
            },
        }
    }
}

/// A Dario holder rejects exactly the codes above the largest event code,
/// and it rejects them as `InvalidEvent`.
pub proof fn lemma_dario_rejects_exactly_invalid_codes(pre: DarioModel, code: u32)
    ensures
        pre.apply(code) is Err <==> code > dario_fsm::MAX_EVENT_CODE,
        pre.apply(code) is Err ==> pre.apply(code) == Err::<DarioModel, FsmError>(
            FsmError::InvalidEvent,
        ),
{
}

/// A Mario holder rejects exactly the codes above the largest event code,
/// and it rejects them as `InvalidEvent`.
pub proof fn lemma_mario_rejects_exactly_invalid_codes(state: MarioState, code: u32)
    ensures
        mario_apply(state, code) is Err <==> code > mario_fsm::MAX_EVENT_CODE,
        mario_apply(state, code) is Err ==> mario_apply(state, code) == Err::<
            MarioState,
            FsmError,
        >(FsmError::InvalidEvent),
{
}

/// Submitting the code of an event moves a Dario holder as the transition
/// table says for the state it was in.
pub proof fn lemma_dario_state_follows_table(pre: DarioModel, event: dario_fsm::Event)
    ensures
        pre.apply(event.spec_code()) matches Ok(post) && post.state == dario_fsm::next_state(
            pre.state,
            event,
        ),
{
}

/// Submitting the code of an event moves a Mario holder as the transition
/// table says for the state it was in.
pub proof fn lemma_mario_state_follows_table(state: MarioState, event: mario_fsm::Event)
    ensures
        mario_apply(state, event.spec_code()) == Ok::<MarioState, FsmError>(
            mario_fsm::next_state(state, event),
        ),
{
}

/// One handled event never lowers the revival counter and never raises it
/// by more than one; it leaves the counter alone unless the event is
/// `Revive` on `GameOver`.
pub proof fn lemma_revive_count_step(pre: DarioModel, code: u32)
    ensures
        pre.apply(code) matches Ok(post) ==> {
            &&& pre.revive_count <= post.revive_count <= pre.revive_count + 1
            &&& post.revive_count != pre.revive_count ==> pre.state is GameOver && code
                == dario_fsm::Event::Revive.spec_code()
        },
{
}

/// Below its cap the revival counter goes up by exactly one if and only if
/// the holder was in `GameOver` and the event is `Revive`.
pub proof fn lemma_revive_counted_exactly(pre: DarioModel, code: u32)
    requires
        pre.revive_count < u32::MAX,
    ensures
        pre.apply(code) matches Ok(post) ==> (post.revive_count == pre.revive_count + 1 <==> (
            pre.state is GameOver && code == dario_fsm::Event::Revive.spec_code())),
{
}

/// Over any history of submitted codes the revival counter never decreases.
pub proof fn lemma_revive_count_never_decreases(pre: DarioModel, codes: Seq<u32>)
    ensures
        pre.revive_count <= pre.run(codes).revive_count,
    decreases codes.len(),
{
    if codes.len() > 0 {
        lemma_revive_count_never_decreases(pre, codes.drop_last());
        lemma_revive_count_step(pre.run(codes.drop_last()), codes.last());
    }
}

/// A revival brings the holder back to `Regular`.
pub proof fn lemma_revival_returns_to_regular(pre: DarioModel, event: dario_fsm::Event)
    requires
        pre.revived_by(event),
    ensures
        pre.step(event).state == DarioState::Regular,
{
}

/// A defeated Mario stays defeated, whatever code is submitted.
pub proof fn lemma_mario_stays_defeated(code: u32)
    ensures
        mario_apply(MarioState::GameOver, code) matches Ok(post) ==> post == MarioState::GameOver,
{
}

/// The two tables are one: on states and events with the same codes, Mario
/// and Dario move to states with the same code.
pub proof fn lemma_tables_agree(
    mario: MarioState,
    mario_event: mario_fsm::Event,
    dario: DarioState,
    dario_event: dario_fsm::Event,
)
    requires
        mario.spec_code() == dario.spec_code(),
        mario_event.spec_code() == dario_event.spec_code(),
    ensures
        mario_fsm::next_state(mario, mario_event).spec_code() == dario_fsm::next_state(
            dario,
            dario_event,
        ).spec_code(),
{
}

} // verus!
