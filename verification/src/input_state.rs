//! The sticky input state and its two families of transitions: event
//! ingestion, applied as platform events arrive, and the per-tick reset,
//! applied once after every completed redraw tick. Each transition is
//! described by a relational predicate that the exec methods ensure, and the
//! laws at the bottom are proved from those predicates alone.

use vstd::prelude::*;

use crate::inputs::{btn_index, btn_slot, classify_wheel, wheel_direction, Input, Mouse, MouseBtn,
    MouseWheel};
use crate::keycodes::Keycodes;
use crate::keys::{key_eq_at, Key, KeySet};

verus! {

/// The sticky input state of the engine: pressed, held and released key
/// sets, and the mouse.
#[derive(Debug)]
pub struct InputState {
    /// Keys that went down since the last reset.
    pub k_pressed: KeySet,
    /// Keys currently held down.
    pub k_held: KeySet,
    /// Keys that went up since the last reset.
    pub k_released: KeySet,
    /// The mouse buttons, cursor and wheel.
    pub mouse: Mouse,
}

/// What the per-tick reset does to one mouse button slot: `released` and
/// `pressed` are cleared, and a button that was pressed becomes held.
pub open spec fn button_after_reset(b: Input) -> Input {
    Input { pressed: false, held: b.held || b.pressed, released: false }
}

/// The per-tick reset: pressed keys move into held, the pressed and
/// released sets are cleared, each mouse button slot is reset, the wheel
/// returns to no-scroll, and the cursor stays where it was.
pub open spec fn resets_to(pre: InputState, post: InputState) -> bool {
    &&& post.k_pressed@.len() == 0
    &&& post.k_released@.len() == 0
    &&& forall|x: Key| #![all_triggers]
        post.k_held.contains_key(x) == (pre.k_held.contains_key(x)
            || pre.k_pressed.contains_key(x))
    &&& forall|c: Keycodes| #![all_triggers]
        post.k_held.has_code(c) == (pre.k_held.has_code(c) || pre.k_pressed.has_code(c))
    &&& forall|i: int| 0 <= i < 3 ==> post.mouse.buttons[i] == button_after_reset(
        pre.mouse.buttons[i],
    )
    &&& post.mouse.wheel == MouseWheel::NoScroll
    &&& post.mouse.pos == pre.mouse.pos
}

/// Ingestion of a key-down event: if some key with the same keycode is
/// already held — whatever modifiers it was seen with — nothing changes;
/// otherwise the key joins the pressed set and nothing else moves.
pub open spec fn ingests_key_down(pre: InputState, post: InputState, k: Key) -> bool {
    if pre.k_held.has_code(k.key) {
        post == pre
    } else {
        &&& forall|x: Key| #![all_triggers]
            post.k_pressed.contains_key(x) == (pre.k_pressed.contains_key(x) || key_eq_at(x, k))
        &&& forall|c: Keycodes| #![all_triggers]
            post.k_pressed.has_code(c) == (pre.k_pressed.has_code(c) || c == k.key)
        &&& post.k_held == pre.k_held
        &&& post.k_released == pre.k_released
        &&& post.mouse == pre.mouse
    }
}

/// Ingestion of a key-up event: the key — by full equality — leaves the
/// pressed and held sets and joins the released set.
pub open spec fn ingests_key_up(pre: InputState, post: InputState, k: Key) -> bool {
    &&& forall|x: Key| #![all_triggers]
        post.k_pressed.contains_key(x) == (pre.k_pressed.contains_key(x) && !key_eq_at(x, k))
    &&& forall|x: Key| #![all_triggers]
        post.k_held.contains_key(x) == (pre.k_held.contains_key(x) && !key_eq_at(x, k))
    &&& forall|x: Key| #![all_triggers]
        post.k_released.contains_key(x) == (pre.k_released.contains_key(x) || key_eq_at(x, k))
    &&& post.k_released.has_code(k.key)
    &&& post.mouse == pre.mouse
}

/// The logical cursor coordinate: the physical coordinate divided by the
/// pixel scale, truncated, and capped at the largest representable value.
pub open spec fn logical_coord(v: u64, scale: u32) -> u32 {
    let q = (v as int) / (scale as int);
    if q > u32::MAX {
        u32::MAX as u32
    } else {
        q as u32
    }
}

impl InputState {
    /// No keycode is both pressed and held: at steady state an active key
    /// is in exactly one of the two sets.
    pub open spec fn exclusive(self) -> bool {
        forall|c: Keycodes| #![all_triggers] !(self.k_pressed.has_code(c) && self.k_held.has_code(c))
    }

    /// The three key sets are deduplicated, and no keycode is pressed and
    /// held at once.
    pub open spec fn wf(self) -> bool {
        &&& self.k_pressed.distinct()
        &&& self.k_held.distinct()
        &&& self.k_released.distinct()
        &&& self.exclusive()
    }

    /// A fresh input state: no key anywhere, mouse at the origin.
    pub fn new() -> (r: InputState)
        ensures
            r.wf(),
            r.k_pressed@.len() == 0,
            r.k_held@.len() == 0,
            r.k_released@.len() == 0,
            forall|i: int|
                0 <= i < 3 ==> r.mouse.buttons[i] == (Input {
                    pressed: false,
                    held: false,
                    released: false,
                }),
            r.mouse.pos == (0u32, 0u32),
            r.mouse.wheel == MouseWheel::NoScroll,
    {
        InputState {
            k_pressed: KeySet::new(),
            k_held: KeySet::new(),
            k_released: KeySet::new(),
            mouse: Mouse::new(),
        }
    }

    /// The per-tick reset step, applied once after each completed redraw.
    pub fn reset_tick(&mut self)
        requires
            old(self).wf(),
        ensures
            final(self).wf(),
            resets_to(*old(self), *final(self)),
    {
        self.k_held.insert_all(&self.k_pressed);
        self.k_pressed.clear();
        self.k_released.clear();
        let b0 = reset_button(self.mouse.buttons[0]);
        let b1 = reset_button(self.mouse.buttons[1]);
        let b2 = reset_button(self.mouse.buttons[2]);
        self.mouse.buttons = [b0, b1, b2];
        self.mouse.wheel = MouseWheel::NoScroll;
        proof {
            assert(self.mouse.buttons[0] == button_after_reset(old(self).mouse.buttons[0]));
            assert(self.mouse.buttons[1] == button_after_reset(old(self).mouse.buttons[1]));
            assert(self.mouse.buttons[2] == button_after_reset(old(self).mouse.buttons[2]));
        }
    }

    /// Ingest a key-down event.
    pub fn key_down(&mut self, k: Key)
        requires
            old(self).wf(),
        ensures
            final(self).wf(),
            ingests_key_down(*old(self), *final(self), k),
    {
        if !self.k_held.has(k.key) {
            self.k_pressed.insert(k);
        }
    }

    /// Ingest a key-up event.
    pub fn key_up(&mut self, k: Key)
        requires
            old(self).wf(),
        ensures
            final(self).wf(),
            ingests_key_up(*old(self), *final(self), k),
    {
        self.k_pressed.remove(&k);
        self.k_held.remove(&k);
        self.k_released.insert(k);
    }

    /// Ingest a mouse-button-down event: the slot's `pressed` flag goes up.
    pub fn mouse_down(&mut self, btn: MouseBtn)
        requires
            old(self).wf(),
        ensures
            final(self).wf(),
            final(self).k_pressed == old(self).k_pressed,
            final(self).k_held == old(self).k_held,
            final(self).k_released == old(self).k_released,
            final(self).mouse.pos == old(self).mouse.pos,
            final(self).mouse.wheel == old(self).mouse.wheel,
            final(self).mouse.buttons[btn_slot(btn)] == (Input {
                pressed: true,
                ..old(self).mouse.buttons[btn_slot(btn)]
            }),
            forall|i: int|
                0 <= i < 3 && i != btn_slot(btn) ==> final(self).mouse.buttons[i] == old(
                    self,
                ).mouse.buttons[i],
    {
        let i = btn_index(btn);
        let mut b = self.mouse.buttons[i];
        b.pressed = true;
        let updated = set_button(self.mouse.buttons, i, b);
        self.mouse.buttons = updated;
    }

    /// Ingest a mouse-button-up event: the slot's `released` flag goes up
    /// and its `held` flag goes down; `pressed` is left for the reset step.
    pub fn mouse_up(&mut self, btn: MouseBtn)
        requires
            old(self).wf(),
        ensures
            final(self).wf(),
            final(self).k_pressed == old(self).k_pressed,
            final(self).k_held == old(self).k_held,
            final(self).k_released == old(self).k_released,
            final(self).mouse.pos == old(self).mouse.pos,
            final(self).mouse.wheel == old(self).mouse.wheel,
            final(self).mouse.buttons[btn_slot(btn)] == (Input {
                held: false,
                released: true,
                ..old(self).mouse.buttons[btn_slot(btn)]
            }),
            forall|i: int|
                0 <= i < 3 && i != btn_slot(btn) ==> final(self).mouse.buttons[i] == old(
                    self,
                ).mouse.buttons[i],
    {
        let i = btn_index(btn);
        let mut b = self.mouse.buttons[i];
        b.released = true;
        b.held = false;
        let updated = set_button(self.mouse.buttons, i, b);
        self.mouse.buttons = updated;
    }

    /// Ingest a cursor-move event, given in physical pixels: both
    /// coordinates are scaled down to logical pixels.
    pub fn cursor_moved(&mut self, x: u64, y: u64, scale: u32)
        requires
            old(self).wf(),
            scale >= 1,
        ensures
            final(self).wf(),
            final(self).k_pressed == old(self).k_pressed,
            final(self).k_held == old(self).k_held,
            final(self).k_released == old(self).k_released,
            final(self).mouse.buttons == old(self).mouse.buttons,
            final(self).mouse.wheel == old(self).mouse.wheel,
            final(self).mouse.pos == (logical_coord(x, scale), logical_coord(y, scale)),
    {
        self.mouse.pos = (scale_coord(x, scale), scale_coord(y, scale));
    }

    /// Ingest a wheel event with the given delta.
    pub fn wheel_moved(&mut self, dx: i64, dy: i64)
        requires
            old(self).wf(),
        ensures
            final(self).wf(),
            final(self).k_pressed == old(self).k_pressed,
            final(self).k_held == old(self).k_held,
            final(self).k_released == old(self).k_released,
            final(self).mouse.buttons == old(self).mouse.buttons,
            final(self).mouse.pos == old(self).mouse.pos,
            final(self).mouse.wheel == wheel_direction(dx as int, dy as int),
    {
        self.mouse.wheel = classify_wheel(dx, dy);
    }

    /// The tri-state snapshot of a key, by keycode: pressed, held and
    /// released membership of the three sticky sets.
    pub fn get_key(&self, keycode: Keycodes) -> (r: Input)
        ensures
            r.pressed == self.k_pressed.has_code(keycode),
            r.held == self.k_held.has_code(keycode),
            r.released == self.k_released.has_code(keycode),
    {
        Input::new(
            self.k_pressed.has(keycode),
            self.k_held.has(keycode),
            self.k_released.has(keycode),
        )
    }

    /// The snapshot of a mouse button.
    pub fn get_mouse_btn(&self, btn: MouseBtn) -> (r: Input)
        ensures
            r == self.mouse.buttons[btn_slot(btn)],
    {
        self.mouse.buttons[btn_index(btn)]
    }
}

/// Apply the reset rule to one button slot.
fn reset_button(b: Input) -> (r: Input)
    ensures
        r == button_after_reset(b),
{
    Input { pressed: false, held: b.held || b.pressed, released: false }
}

/// Replace one slot of the button array.
fn set_button(buttons: [Input; 3], i: usize, b: Input) -> (r: [Input; 3])
    requires
        i < 3,
    ensures
        r[i as int] == b,
        forall|j: int| 0 <= j < 3 && j != i ==> r[j] == buttons[j],
{
    if i == 0 {
        [b, buttons[1], buttons[2]]
    } else if i == 1 {
        [buttons[0], b, buttons[2]]
    } else {
        [buttons[0], buttons[1], b]
    }
}

/// Truncating scale-down of one physical coordinate, capped at the largest
/// representable logical coordinate.
fn scale_coord(v: u64, scale: u32) -> (r: u32)
    requires
        scale >= 1,
    ensures
        r == logical_coord(v, scale),
{
    let q = v / (scale as u64);
    if q > u32::MAX as u64 {
        u32::MAX
    } else {
        q as u32
    }
}

/// Pressing a key whose keycode is already held — with any combination of
/// modifiers — changes nothing: `pressed` is not re-triggered and the key
/// stays continuously held.
pub proof fn lemma_held_key_stability(pre: InputState, post: InputState, k: Key)
    requires
        pre.k_held.has_code(k.key),
        ingests_key_down(pre, post, k),
    ensures
        post == pre,
        post.k_held.has_code(k.key),
{
}

/// A chain of states, each reached from the last by ingesting one key-down.
pub open spec fn ingests_key_down_chain(states: Seq<InputState>, keys: Seq<Key>) -> bool {
    &&& states.len() == keys.len() + 1
    &&& forall|i: int|
        0 <= i < keys.len() ==> ingests_key_down(states[i], states[i + 1], keys[i])
}

/// Every state of such a chain equals the first, as long as the first
/// already holds the keycode of every key-down in the chain: however many
/// key-down events arrive for a held keycode, with whatever modifier bits,
/// `pressed` is never re-triggered and the key stays continuously held.
pub proof fn lemma_held_key_stability_chain(states: Seq<InputState>, keys: Seq<Key>, c: Keycodes)
    requires
        ingests_key_down_chain(states, keys),
        states[0].k_held.has_code(c),
        forall|i: int| 0 <= i < keys.len() ==> keys[i].key == c,
    ensures
        forall|i: int| 0 <= i < states.len() ==> #[trigger] states[i] == states[0],
        forall|i: int| 0 <= i < states.len() ==> (#[trigger] states[i]).k_held.has_code(c),
{
    assert forall|i: int| 0 <= i < states.len() implies #[trigger] states[i] == states[0] by {
        lemma_chain_prefix_stable(states, keys, c, i);
    }
}

/// Induction step for [`lemma_held_key_stability_chain`]: state `i` of the
/// chain equals the first state.
proof fn lemma_chain_prefix_stable(states: Seq<InputState>, keys: Seq<Key>, c: Keycodes, i: int)
    requires
        ingests_key_down_chain(states, keys),
        states[0].k_held.has_code(c),
        forall|j: int| 0 <= j < keys.len() ==> keys[j].key == c,
        0 <= i < states.len(),
    ensures
        states[i] == states[0],
    decreases i,
{
    if i > 0 {
        lemma_chain_prefix_stable(states, keys, c, i - 1);
        assert(ingests_key_down(states[i - 1], states[i], keys[i - 1]));
        assert(states[i - 1].k_held.has_code(keys[i - 1].key));
    }
}

/// The reset step never drops a held keycode, and carries every pressed
/// keycode into the held set.
pub proof fn lemma_reset_keeps_held_codes(pre: InputState, post: InputState, c: Keycodes)
    requires
        resets_to(pre, post),
        pre.k_held.has_code(c) || pre.k_pressed.has_code(c),
    ensures
        post.k_held.has_code(c),
{
}

/// One-tick deferral of a key event. Take the state `s0` seen by the
/// callback at some tick; the boundary reset yields `s1`; a key-down that
/// arrived during that callback is ingested only now, yielding `s2`, the
/// state the next callback sees; the following boundary reset yields `s3`.
/// The key is visible as pressed exactly at the next callback, and at the
/// one after that it has moved into the held set and the pressed set is
/// clear again.
pub proof fn lemma_one_tick_deferral(
    s0: InputState,
    s1: InputState,
    s2: InputState,
    s3: InputState,
    k: Key,
)
    requires
        resets_to(s0, s1),
        ingests_key_down(s1, s2, k),
        resets_to(s2, s3),
        !s1.k_held.has_code(k.key),
    ensures
        s2.k_pressed.contains_key(k),
        s2.k_pressed.has_code(k.key),
        s3.k_pressed@.len() == 0,
        s3.k_held.has_code(k.key),
{
    assert(key_eq_at(k, k));
}

} // verus!
