use vstd::prelude::*;
use crate::event::{ElementState, Event, ScrollDelta, TouchPhase, UiAction};
use crate::input::{InputState, clock_after, elapsed, scroll_amount};
use crate::keys::{KeyRole, Modifier, VirtualKey, KEY_COUNT, index_of_role, modifier_of_key, role_of_key};

verus! {

/// Pressing a mapped key sets exactly the slot of its role, and releasing it
/// clears that slot; the held state does not change either way.
pub proof fn lemma_key_press_release(s: InputState, k: VirtualKey)
    requires
        role_of_key(k) is Some,
    ensures
        index_of_role(role_of_key(k)->0) < KEY_COUNT,
        s.next(Event::KeyboardInput { state: ElementState::Pressed, key: Some(k) }) == (s, UiAction::SetKey {
            index: index_of_role(role_of_key(k)->0) as u8,
            pressed: true,
        }),
        s.next(Event::KeyboardInput { state: ElementState::Released, key: Some(k) }) == (s, UiAction::SetKey {
            index: index_of_role(role_of_key(k)->0) as u8,
            pressed: false,
        }),
{
}

/// No two roles share a slot, so a role's key events touch no other role's slot.
pub proof fn lemma_slots_distinct(r1: KeyRole, r2: KeyRole)
    ensures
        index_of_role(r1) == index_of_role(r2) ==> r1 == r2,
{
}

/// A key outside the table, or an event without a key, sets no slot and
/// leaves the held state as it was.
pub proof fn lemma_unmapped_key_sets_no_slot(s: InputState, state: ElementState, key: Option<VirtualKey>)
    requires
        key is None || role_of_key(key->0) is None,
    ensures
        !(s.next(Event::KeyboardInput { state, key }).1 is SetKey),
        s.next(Event::KeyboardInput { state, key }).0 == s,
{
}

/// The left and the right key of Control, Shift, Alt and the system key drive
/// the same single flag, which a press sets and a release clears.
pub proof fn lemma_modifier_keys(s: InputState, k: VirtualKey)
    requires
        modifier_of_key(k) is Some,
    ensures
        s.next(Event::KeyboardInput { state: ElementState::Pressed, key: Some(k) }) == (s, UiAction::SetModifier {
            modifier: modifier_of_key(k)->0,
            pressed: true,
        }),
        s.next(Event::KeyboardInput { state: ElementState::Released, key: Some(k) }) == (s, UiAction::SetModifier {
            modifier: modifier_of_key(k)->0,
            pressed: false,
        }),
        modifier_of_key(VirtualKey::LControl) == Some(Modifier::Ctrl),
        modifier_of_key(VirtualKey::RControl) == Some(Modifier::Ctrl),
        modifier_of_key(VirtualKey::LShift) == Some(Modifier::Shift),
        modifier_of_key(VirtualKey::RShift) == Some(Modifier::Shift),
        modifier_of_key(VirtualKey::LAlt) == Some(Modifier::Alt),
        modifier_of_key(VirtualKey::RAlt) == Some(Modifier::Alt),
        modifier_of_key(VirtualKey::LWin) == Some(Modifier::Super),
        modifier_of_key(VirtualKey::RWin) == Some(Modifier::Super),
{
}

/// Of two cursor moves the second wins: the state is the one that the second
/// move alone would give, so nothing of the first reaches a flush.
pub proof fn lemma_second_move_wins(s: InputState, x1: i32, y1: i32, x2: i32, y2: i32)
    ensures
        s.next(Event::MouseMoved { x: x1, y: y1 }).0.next(Event::MouseMoved { x: x2, y: y2 }).0
            == s.next(Event::MouseMoved { x: x2, y: y2 }).0,
        s.next(Event::MouseMoved { x: x2, y: y2 }).0.mouse_x == x2,
        s.next(Event::MouseMoved { x: x2, y: y2 }).0.mouse_y == y2,
{
}

/// A scroll event outside the moving phase of its gesture changes nothing.
pub proof fn lemma_scroll_outside_moved_phase(s: InputState, d: ScrollDelta, phase: TouchPhase)
    requires
        phase != TouchPhase::Moved,
    ensures
        s.next(Event::MouseWheel { delta: d, phase }) == (s, UiAction::Nothing),
{
}

/// Scroll samples overwrite one another: of two in the moving phase only the
/// second survives until the next flush.
pub proof fn lemma_latest_scroll_wins(s: InputState, d1: ScrollDelta, d2: ScrollDelta)
    ensures
        s.next(Event::MouseWheel { delta: d1, phase: TouchPhase::Moved }).0.next(
            Event::MouseWheel { delta: d2, phase: TouchPhase::Moved },
        ).0.wheel_bits == scroll_amount(d2),
{
}

/// Frame deltas add up to the time elapsed over consecutive frames, and the
/// kept frame-start reading never moves back.
pub proof fn lemma_frame_deltas(t0: u64, t1: u64, t2: u64)
    ensures
        t0 <= t1 <= t2 ==> elapsed(t0, t1) + elapsed(t1, t2) == t2 - t0,
        clock_after(t0, t1) >= t0,
        clock_after(clock_after(t0, t1), t2) >= clock_after(t0, t1),
{
}

} // verus!
