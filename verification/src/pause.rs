//! The pause menu: when the game may pause, and the ring of cards.

use vstd::prelude::*;
use crate::mode_state::{GameModeState, PauseMenuState};
use crate::player::DungeonPlayerMovementState;

verus! {

/// The number of cards in the ring.
pub const CARD_COUNT: usize = 5;

/// The animations that one turn of the ring starts: four for each of the
/// four cards that shift, and one for the card that wraps around.
pub const CARD_ROTATION_TWEENS: u16 = 17;

/// The way the ring of cards turns.
#[derive(Clone, Copy, Debug, PartialEq, Eq, PartialOrd, Ord, Structural)]
pub enum RotationDirection {
    Clockwise,
    Counterclockwise,
}

/// What a card of the menu does when it is chosen.
#[derive(Clone, Copy, Debug, PartialEq, Eq, Structural)]
pub enum PauseMenuCardType {
    Resume,
    Exit,
    Options,
}

/// The count of the animations that have to end before the mode changes.
#[derive(Clone, Copy, Debug, PartialEq, Eq, Structural)]
pub struct ExitTweenValues {
    pub count: u16,
    pub max: u16,
}

impl Default for ExitTweenValues {
    /// Nothing counted, nothing awaited.
    fn default() -> (values: Self)
        ensures
            values == (ExitTweenValues { count: 0, max: 0 }),
    {
        ExitTweenValues { count: 0, max: 0 }
    }
}

impl ExitTweenValues {
    /// Counts `completed` more animations as ended. When the count thereby
    /// reaches the awaited number exactly, the mode is to change and the
    /// count starts over; else the count is kept.
    pub fn step_state_when_tweens_completed(&mut self, completed: u16) -> (advance: bool)
        requires
            old(self).count + completed <= u16::MAX,
        ensures
            advance == (old(self).count + completed == old(self).max),
            final(self).max == old(self).max,
            final(self).count == if advance {
                0
            } else {
                old(self).count + completed
            },
    {
        self.count = self.count + completed;
        if self.count == self.max {
            self.count = 0;
            true
        } else {
            false
        }
    }
}

/// Where a card of the ring goes in one turn.
#[derive(Clone, Copy, Debug, PartialEq, Eq, Structural)]
pub enum CardMove {
    /// The card at the end of the ring swings around to the other end.
    Wrap { from: usize, to: usize },
    /// The card moves to the slot next to its own.
    Shift { from: usize, to: usize },
}

/// The move of the card in slot `slot` when the ring turns: clockwise every
/// card moves one slot up and the last wraps to the first; counterclockwise
/// every card moves one slot down and the first wraps to the last.
pub open spec fn spec_card_move(slot: int, rotation_direction: RotationDirection) -> CardMove {
    match rotation_direction {
        RotationDirection::Clockwise => if slot == CARD_COUNT - 1 {
            CardMove::Wrap { from: slot as usize, to: 0 }
        } else {
            CardMove::Shift { from: slot as usize, to: (slot + 1) as usize }
        },
        RotationDirection::Counterclockwise => if slot == 0 {
            CardMove::Wrap { from: 0, to: (CARD_COUNT - 1) as usize }
        } else {
            CardMove::Shift { from: slot as usize, to: (slot - 1) as usize }
        },
    }
}

/// The slot that the card in slot `slot` ends in when the ring turns.
pub open spec fn slot_after(slot: int, rotation_direction: RotationDirection) -> int {
    match rotation_direction {
        RotationDirection::Clockwise => (slot + 1) % (CARD_COUNT as int),
        RotationDirection::Counterclockwise => (slot + CARD_COUNT - 1) % (CARD_COUNT as int),
    }
}

/// The cards of the menu and their captions, by slot. The card in the
/// middle slot is the one that is chosen.
#[derive(Clone, Copy, Debug, PartialEq, Eq)]
pub struct PauseMenuCardTracker {
    pub cards: [u64; 5],
    pub text_nodes: [u64; 5],
}

/// What a turn of the ring asks of whoever animates it.
#[derive(Clone, Copy, Debug, PartialEq, Eq)]
pub struct CardRotation {
    /// The move of the card in each slot, by the slot it leaves.
    pub moves: [CardMove; 5],
    /// The state the menu is in while the cards move.
    pub next_state: PauseMenuState,
}

impl PauseMenuCardTracker {
    /// The move of the card in slot `slot` when the ring turns.
    pub fn card_move(slot: usize, rotation_direction: RotationDirection) -> (step: CardMove)
        requires
            slot < CARD_COUNT,
        ensures
            step == spec_card_move(slot as int, rotation_direction),
    {
        match rotation_direction {
            RotationDirection::Clockwise => {
                if slot == CARD_COUNT - 1 {
                    CardMove::Wrap { from: slot, to: 0 }
                } else {
                    CardMove::Shift { from: slot, to: slot + 1 }
                }
            },
            RotationDirection::Counterclockwise => {
                if slot == 0 {
                    CardMove::Wrap { from: 0, to: CARD_COUNT - 1 }
                } else {
                    CardMove::Shift { from: slot, to: slot - 1 }
                }
            },
        }
    }

    /// Turns the ring by one slot. Every card, and its caption with it, ends
    /// in the slot next to its own, the one at the end in the slot at the
    /// other end. The number of animations to await is set, the count of
    /// those that have ended is kept, and the menu is to enter the state of
    /// a turning ring.
    pub fn rotate(
        &mut self,
        rotation_direction: RotationDirection,
        exit_tween_values: &mut ExitTweenValues,
    ) -> (rotation: CardRotation)
        ensures
            forall|slot: int|
                0 <= slot < CARD_COUNT ==> #[trigger] rotation.moves@[slot] == spec_card_move(
                    slot,
                    rotation_direction,
                ),
            rotation.next_state == PauseMenuState::RotatingCard,
            forall|slot: int|
                0 <= slot < CARD_COUNT ==> final(self).cards@[slot_after(slot, rotation_direction)]
                    == #[trigger] old(self).cards@[slot],
            forall|slot: int|
                0 <= slot < CARD_COUNT ==> final(self).text_nodes@[slot_after(
                    slot,
                    rotation_direction,
                )] == #[trigger] old(self).text_nodes@[slot],
            *final(exit_tween_values) == (ExitTweenValues {
                count: old(exit_tween_values).count,
                max: CARD_ROTATION_TWEENS,
            }),
    {
        let moves = [
            Self::card_move(0, rotation_direction),
            Self::card_move(1, rotation_direction),
            Self::card_move(2, rotation_direction),
            Self::card_move(3, rotation_direction),
            Self::card_move(4, rotation_direction),
        ];
        exit_tween_values.max = CARD_ROTATION_TWEENS;
        let cards = self.cards;
        let text_nodes = self.text_nodes;
        match rotation_direction {
            RotationDirection::Clockwise => {
                self.cards = [cards[4], cards[0], cards[1], cards[2], cards[3]];
                self.text_nodes = [
                    text_nodes[4],
                    text_nodes[0],
                    text_nodes[1],
                    text_nodes[2],
                    text_nodes[3],
                ];
            },
            RotationDirection::Counterclockwise => {
                self.cards = [cards[1], cards[2], cards[3], cards[4], cards[0]];
                self.text_nodes = [
                    text_nodes[1],
                    text_nodes[2],
                    text_nodes[3],
                    text_nodes[4],
                    text_nodes[0],
                ];
            },
        }
        CardRotation { moves, next_state: PauseMenuState::RotatingCard }
    }
}

/// Whether the game pauses in this tick, and if so the mode to come back
/// to. It pauses when the pause key was just pressed, unless there is a
/// player and it is moving.
pub fn check_pause(
    pause_pressed: bool,
    movement_state: Option<DungeonPlayerMovementState>,
    current_state: GameModeState,
) -> (previous_state: Option<GameModeState>)
    ensures
        previous_state == if pause_pressed && (movement_state.is_none() || movement_state
            == Some(DungeonPlayerMovementState::Stationary)) {
            Some(current_state)
        } else {
            None
        },
{
    if let Some(state) = movement_state {
        match state {
            DungeonPlayerMovementState::Stationary => {},
            _ => {
                return None;
            },
        }
    }
    if pause_pressed {
        Some(current_state)
    } else {
        None
    }
}

/// A turn one way and a turn back leave every card in its slot.
pub proof fn lemma_turn_and_back(slot: int)
    requires
        0 <= slot < CARD_COUNT,
    ensures
        slot_after(
            slot_after(slot, RotationDirection::Clockwise),
            RotationDirection::Counterclockwise,
        ) == slot,
        slot_after(
            slot_after(slot, RotationDirection::Counterclockwise),
            RotationDirection::Clockwise,
        ) == slot,
{
}

/// Every card moves to the slot that its move names, and no two cards to
/// the same slot.
pub proof fn lemma_moves_permute_the_slots(
    a: int,
    b: int,
    rotation_direction: RotationDirection,
)
    requires
        0 <= a < CARD_COUNT,
        0 <= b < CARD_COUNT,
    ensures
        0 <= slot_after(a, rotation_direction) < CARD_COUNT,
        spec_card_move(a, rotation_direction) matches CardMove::Wrap { from, to } ==> from == a
            && to == slot_after(a, rotation_direction),
        spec_card_move(a, rotation_direction) matches CardMove::Shift { from, to } ==> from == a
            && to == slot_after(a, rotation_direction),
        slot_after(a, rotation_direction) == slot_after(b, rotation_direction) ==> a == b,
{
}

} // verus!
