//! Translates window-system input into the per-frame input record of an
//! immediate-mode UI: key-down slots, modifier flags, mouse position and
//! buttons, wheel motion and frame timing.

mod event;
mod input;
mod keys;
mod laws;

pub use event::{ElementState, Event, MouseButton, ScrollDelta, TouchPhase, UiAction};
pub use input::{
    ButtonStates, InputState, MouseReport, clock_after, elapsed, key_action, scroll_amount,
};
pub use keys::{
    KeyRole, Modifier, VirtualKey, index_of_role, key_index, key_table, modifier_of,
    modifier_of_key, role_of, role_of_key, KEY_COUNT,
};
pub use laws::{
    lemma_frame_deltas, lemma_key_press_release, lemma_latest_scroll_wins, lemma_modifier_keys,
    lemma_scroll_outside_moved_phase, lemma_second_move_wins, lemma_slots_distinct,
    lemma_unmapped_key_sets_no_slot,
};
