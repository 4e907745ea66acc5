//! The engine core: the aggregate that owns the framebuffer, the sticky
//! input state, the decal registry and the frame-timing counters, together
//! with the frame-loop state machine. A host drives the platform event
//! loop; each iteration it calls [`Engine::begin_iteration`], feeds every
//! pending platform event through [`Engine::process_event`], and, when a
//! redraw is wanted, runs one tick: [`Engine::begin_redraw`], the user
//! callback, then [`Engine::complete_redraw`], performing the returned
//! [`TickAction`]s in order. GPU work requested during a tick accumulates
//! in [`Engine::pending`] as [`GpuCommand`]s for the host to perform.

use vstd::prelude::*;

use crate::input_state::{ingests_key_down, ingests_key_up, logical_coord, resets_to, InputState};
use crate::inputs::{btn_slot, wheel_direction, Input, MouseBtn, MouseWheel};
use crate::keycodes::Keycodes;
use crate::keys::Key;
use crate::screen::Screen;

verus! {

/// Microseconds in one second: the frame counter window.
pub const MICROS_PER_SECOND: u64 = 1_000_000;

/// A handle to a GPU-resident copy of a sprite. Whether it may still be
/// drawn is recorded in the engine's decal registry, so every clone of a
/// handle observes a destroy immediately.
#[derive(Debug, Clone, Copy, PartialEq, Eq)]
pub struct Decal {
    /// The registry slot of this decal.
    pub id: usize,
    /// Width of the uploaded sprite, in pixels.
    pub width: u32,
    /// Height of the uploaded sprite, in pixels.
    pub height: u32,
}

/// GPU work the engine asks its host to perform, in order.
#[derive(Debug)]
pub enum GpuCommand {
    /// Upload a sprite's pixels into a new texture for decal `id`.
    CreateTexture { id: usize, width: u32, height: u32, pixels: Vec<u8> },
    /// Tear down the texture and bind group of decal `id`.
    DestroyTexture { id: usize },
    /// Draw decal `id` this frame.
    DrawDecal { id: usize },
}

/// A platform event, translated to plain values by the host.
#[derive(Debug, Clone, Copy)]
pub enum Event {
    /// A key went down, with the modifiers active at that moment.
    KeyDown(Key),
    /// A key went up.
    KeyUp(Key),
    /// The cursor moved, in physical pixels.
    CursorMoved { x: u64, y: u64 },
    /// The scroll wheel moved by this delta.
    Wheel { dx: i64, dy: i64 },
    /// A mouse button went down.
    MouseDown(MouseBtn),
    /// A mouse button went up.
    MouseUp(MouseBtn),
    /// The window was asked to close.
    CloseRequested,
    /// The platform says the window should redraw.
    RedrawRequested,
    /// The platform drained its event queue for this iteration.
    MainEventsCleared,
    /// Any other platform event; ignored.
    Other,
}

/// What the host should do right after handing one event in.
#[derive(Debug, Clone, Copy, PartialEq, Eq, Structural)]
pub enum EventAction {
    /// Nothing; keep pumping events.
    Proceed,
    /// Ask the platform for a redraw of the window.
    RequestRedraw,
}

/// What the user callback reported for this tick.
#[derive(Debug, Clone, Copy, PartialEq, Eq, Structural)]
pub enum CallbackResult {
    /// Keep running.
    Continue,
    /// Stop cleanly.
    Stop,
    /// The callback failed; the host logs it and the loop stops.
    Failed,
}

/// One step the host performs at the end of a redraw tick, in order.
#[derive(Debug, Clone, Copy, PartialEq, Eq, Structural)]
pub enum TickAction {
    /// Hand the framebuffer bytes to the presentation backend.
    UploadFrame,
    /// Issue the full-screen quad draw and swap the display buffer.
    Present,
    /// Leave the event loop; the engine is shutting down.
    Exit,
}

/// The actions that end a tick: the frame is always uploaded and presented,
/// and only then, on a terminal condition, does the loop exit.
pub open spec fn tick_actions(exit: bool) -> Seq<TickAction> {
    if exit {
        seq![TickAction::UploadFrame, TickAction::Present, TickAction::Exit]
    } else {
        seq![TickAction::UploadFrame, TickAction::Present]
    }
}

/// A tick is terminal when the callback failed, asked to stop, or a close
/// request arrived since the last tick.
pub open spec fn tick_exits(outcome: CallbackResult, force_exit: bool) -> bool {
    outcome == CallbackResult::Failed || outcome == CallbackResult::Stop || force_exit
}

/// Decal `d` may still be drawn: its registry slot is live.
pub open spec fn decal_alive(e: Engine, d: Decal) -> bool {
    d.id < e.decals@.len() && e.decals@[d.id as int]
}

/// The engine: the aggregate root of the frame loop.
#[derive(Debug)]
pub struct Engine {
    /// The window title; the host appends the frame rate to it.
    pub title: String,
    /// Logical size: (width, height, pixel scale).
    pub size: (u32, u32, u32),
    /// Wall-clock time between the last two ticks, in microseconds.
    pub elapsed_us: u64,
    /// The wall-clock instant of the previous tick, in microseconds.
    pub timer_us: u64,
    /// Frames counted since the frame timer last wrapped a second.
    pub frame_count: u64,
    /// The frame timer: accumulated elapsed time, in microseconds.
    pub frame_timer_us: u64,
    /// The logical framebuffer the callback draws into.
    pub screen: Screen,
    /// The sticky input state.
    pub input: InputState,
    /// Liveness of every decal ever created, by id.
    pub decals: Vec<bool>,
    /// The cached text-sheet decal, destroyed at teardown.
    pub textsheet: Decal,
    /// GPU commands accumulated for the host, in order.
    pub pending: Vec<GpuCommand>,
    /// The platform event source has been claimed by a run loop.
    pub event_source_taken: bool,
    /// A close request arrived; honoured when the current tick completes.
    pub force_exit: bool,
    /// The next iteration should perform a redraw tick.
    pub redraw: bool,
    /// The previous iteration completed a redraw tick, so the input reset
    /// step is still owed.
    pub redraw_last_frame: bool,
}

/// The window title and logical size are unchanged.
pub open spec fn same_identity(a: Engine, b: Engine) -> bool {
    a.title == b.title && a.size == b.size
}

/// The timing state is unchanged.
pub open spec fn same_timing(a: Engine, b: Engine) -> bool {
    &&& a.elapsed_us == b.elapsed_us
    &&& a.timer_us == b.timer_us
    &&& a.frame_count == b.frame_count
    &&& a.frame_timer_us == b.frame_timer_us
}

/// The framebuffer, the decal registry, the text sheet and the pending GPU
/// commands are unchanged.
pub open spec fn same_gpu(a: Engine, b: Engine) -> bool {
    &&& a.screen == b.screen
    &&& a.decals == b.decals
    &&& a.textsheet == b.textsheet
    &&& a.pending == b.pending
}

/// The loop flags are unchanged.
pub open spec fn same_flags(a: Engine, b: Engine) -> bool {
    &&& a.event_source_taken == b.event_source_taken
    &&& a.force_exit == b.force_exit
    &&& a.redraw == b.redraw
    &&& a.redraw_last_frame == b.redraw_last_frame
}

/// The input state is unchanged.
pub open spec fn same_input(a: Engine, b: Engine) -> bool {
    a.input == b.input
}

impl Engine {
    /// The engine invariant: valid input sets, a framebuffer of the logical
    /// size, a positive pixel scale, and a registered text sheet.
    pub open spec fn wf(self) -> bool {
        &&& self.input.wf()
        &&& self.screen.wf()
        &&& self.screen.width == self.size.0
        &&& self.screen.height == self.size.1
        &&& self.size.2 >= 1
        &&& self.textsheet.id < self.decals@.len()
    }

    /// Build an engine: a black framebuffer of the logical size, empty
    /// input state, zeroed timers, and the text-sheet sprite uploaded as
    /// the first decal. The host creates the window and the presentation
    /// backend around it.
    pub fn new(title: String, size: (u32, u32, u32), textsheet: &Screen) -> (r: Engine)
        requires
            size.2 >= 1,
            size.0 * size.1 * 4 <= usize::MAX,
            textsheet.wf(),
        ensures
            r.wf(),
            r.title == title,
            r.size == size,
            r.elapsed_us == 0,
            r.timer_us == 0,
            r.frame_count == 0,
            r.frame_timer_us == 0,
            r.screen.width == size.0,
            r.screen.height == size.1,
            forall|x: int, y: int|
                0 <= x < size.0 && 0 <= y < size.1 ==> r.screen.pixel(x, y) == (
                    0u8,
                    0u8,
                    0u8,
                    255u8,
                ),
            r.input.k_pressed@.len() == 0,
            r.input.k_held@.len() == 0,
            r.input.k_released@.len() == 0,
            r.input.mouse.pos == (0u32, 0u32),
            r.input.mouse.wheel == MouseWheel::NoScroll,
            r.decals@ =~= seq![true],
            r.textsheet.id == 0,
            r.textsheet.width == textsheet.width,
            r.textsheet.height == textsheet.height,
            r.pending@.len() == 1,
            (r.pending@[0] matches GpuCommand::CreateTexture { id, width, height, pixels }
                && id == 0 && width == textsheet.width && height == textsheet.height && pixels@
                == textsheet.data@),
            !r.event_source_taken,
            !r.force_exit,
            r.redraw,
            !r.redraw_last_frame,
    {
        let screen = Screen::new(size.0, size.1);
        let mut decals: Vec<bool> = Vec::new();
        decals.push(true);
        let mut pending: Vec<GpuCommand> = Vec::new();
        pending.push(
            GpuCommand::CreateTexture {
                id: 0,
                width: textsheet.width,
                height: textsheet.height,
                pixels: textsheet.data.clone(),
            },
        );
        let textsheet_decal = Decal { id: 0, width: textsheet.width, height: textsheet.height };
        proof {
            assert(decals@ =~= seq![true]);
        }
        Engine {
            title,
            size,
            elapsed_us: 0,
            timer_us: 0,
            frame_count: 0,
            frame_timer_us: 0,
            screen,
            input: InputState::new(),
            decals,
            textsheet: textsheet_decal,
            pending,
            event_source_taken: false,
            force_exit: false,
            redraw: true,
            redraw_last_frame: false,
        }
    }

    /// The logical size of the target, in pixels.
    pub fn size(&self) -> (r: (u32, u32))
        ensures
            r == (self.size.0, self.size.1),
    {
        (self.size.0, self.size.1)
    }

    /// The status of a key, by keycode.
    pub fn get_key(&self, keycode: Keycodes) -> (r: Input)
        ensures
            r.pressed == self.input.k_pressed.has_code(keycode),
            r.held == self.input.k_held.has_code(keycode),
            r.released == self.input.k_released.has_code(keycode),
    {
        self.input.get_key(keycode)
    }

    /// The status of a mouse button.
    pub fn get_mouse_btn(&self, btn: MouseBtn) -> (r: Input)
        ensures
            r == self.input.mouse.buttons[btn_slot(btn)],
    {
        self.input.get_mouse_btn(btn)
    }

    /// The cursor location in logical pixels; (0, 0) until the first
    /// cursor event.
    pub fn get_mouse_location(&self) -> (r: (u32, u32))
        ensures
            r == self.input.mouse.pos,
    {
        self.input.mouse.pos
    }

    /// The scroll direction seen during this tick, if any.
    pub fn get_mouse_wheel(&self) -> (r: MouseWheel)
        ensures
            r == self.input.mouse.wheel,
    {
        self.input.mouse.wheel
    }

    /// The distinct keycodes pressed during this tick.
    pub fn get_pressed(&self) -> (r: Vec<Keycodes>)
        ensures
            forall|c: Keycodes| #![all_triggers] r@.contains(c) == self.input.k_pressed.has_code(c),
            forall|i: int, j: int| 0 <= i < j < r@.len() ==> r@[i] != r@[j],
    {
        self.input.k_pressed.codes()
    }

    /// How many decals have ever been registered.
    pub fn decal_count(&self) -> (n: usize)
        ensures
            n == self.decals@.len(),
    {
        self.decals.len()
    }

    /// Whether a decal may still be drawn.
    pub fn is_decal_alive(&self, d: &Decal) -> (r: bool)
        ensures
            r == decal_alive(*self, *d),
    {
        d.id < self.decals.len() && self.decals[d.id]
    }

    /// Register a GPU copy of a sprite: the new decal is live, and the host
    /// is asked to upload the sprite's pixels into a texture for it.
    pub fn create_decal(&mut self, sprite: &Screen) -> (d: Decal)
        requires
            old(self).wf(),
            sprite.wf(),
        ensures
            final(self).wf(),
            d.id == old(self).decals@.len(),
            d.width == sprite.width,
            d.height == sprite.height,
            final(self).decals@ == old(self).decals@.push(true),
            decal_alive(*final(self), d),
            final(self).pending@.len() == old(self).pending@.len() + 1,
            final(self).pending@.subrange(0, old(self).pending@.len() as int) == old(self).pending@,
            (final(self).pending@.last() matches GpuCommand::CreateTexture {
                id,
                width,
                height,
                pixels,
            } && id == d.id && width == sprite.width && height == sprite.height && pixels@
                == sprite.data@),
            same_identity(*old(self), *final(self)),
            same_timing(*old(self), *final(self)),
            same_input(*old(self), *final(self)),
            same_flags(*old(self), *final(self)),
            final(self).screen == old(self).screen,
            final(self).textsheet == old(self).textsheet,
    {
        let id = self.decals.len();
        self.decals.push(true);
        self.pending.push(
            GpuCommand::CreateTexture {
                id,
                width: sprite.width,
                height: sprite.height,
                pixels: sprite.data.clone(),
            },
        );
        proof {
            assert(self.pending@.subrange(0, old(self).pending@.len() as int) =~= old(self).pending@);
        }
        Decal { id, width: sprite.width, height: sprite.height }
    }

    /// Destroy a decal: the host is asked to tear down its GPU texture, and
    /// its registry slot goes dead, so every handle to it stops drawing.
    /// Destroying an already-dead decal asks for the teardown again; the
    /// liveness flag only gates future draws.
    pub fn destroy_decal(&mut self, d: &Decal)
        requires
            old(self).wf(),
            d.id < old(self).decals@.len(),
        ensures
            final(self).wf(),
            final(self).decals@ == old(self).decals@.update(d.id as int, false),
            !decal_alive(*final(self), *d),
            final(self).pending@.len() == old(self).pending@.len() + 1,
            final(self).pending@.subrange(0, old(self).pending@.len() as int) == old(self).pending@,
            (final(self).pending@.last() matches GpuCommand::DestroyTexture { id } && id == d.id),
            same_identity(*old(self), *final(self)),
            same_timing(*old(self), *final(self)),
            same_input(*old(self), *final(self)),
            same_flags(*old(self), *final(self)),
            final(self).screen == old(self).screen,
            final(self).textsheet == old(self).textsheet,
    {
        self.decals[d.id] = false;
        self.pending.push(GpuCommand::DestroyTexture { id: d.id });
        proof {
            assert(self.pending@.subrange(0, old(self).pending@.len() as int) =~= old(self).pending@);
            assert(self.decals@ =~= old(self).decals@.update(d.id as int, false));
        }
    }

    /// Draw a decal this frame. Drawing a dead decal is not an error: it
    /// silently draws nothing and leaves the engine untouched.
    pub fn draw_decal(&mut self, d: &Decal) -> (drawn: bool)
        requires
            old(self).wf(),
        ensures
            final(self).wf(),
            drawn == decal_alive(*old(self), *d),
            !drawn ==> *final(self) == *old(self),
            drawn ==> final(self).pending@ == old(self).pending@.push(
                GpuCommand::DrawDecal { id: d.id },
            ),
            final(self).decals == old(self).decals,
            same_identity(*old(self), *final(self)),
            same_timing(*old(self), *final(self)),
            same_input(*old(self), *final(self)),
            same_flags(*old(self), *final(self)),
            final(self).screen == old(self).screen,
            final(self).textsheet == old(self).textsheet,
    {
        if d.id < self.decals.len() && self.decals[d.id] {
            self.pending.push(GpuCommand::DrawDecal { id: d.id });
            true
        } else {
            false
        }
    }

    /// Destroy the engine's own cached resources — the text-sheet decal —
    /// at teardown.
    pub fn teardown(&mut self)
        requires
            old(self).wf(),
        ensures
            final(self).wf(),
            final(self).decals@ == old(self).decals@.update(
                old(self).textsheet.id as int,
                false,
            ),
            !decal_alive(*final(self), final(self).textsheet),
            final(self).pending@.len() == old(self).pending@.len() + 1,
            (final(self).pending@.last() matches GpuCommand::DestroyTexture { id } && id == old(self).textsheet.id),
            same_identity(*old(self), *final(self)),
            same_input(*old(self), *final(self)),
            final(self).textsheet == old(self).textsheet,
    {
        let d = self.textsheet;
        self.destroy_decal(&d);
    }

    /// The framebuffer bytes to hand to the presentation backend: exactly
    /// `width * height * 4` bytes, RGBA8, row-major.
    pub fn frame_bytes(&self) -> (r: &Vec<u8>)
        requires
            self.wf(),
        ensures
            r@ == self.screen.data@,
            r@.len() == self.size.0 * self.size.1 * 4,
    {
        &self.screen.data
    }

    /// Hand the accumulated GPU commands to the host, in order, leaving the
    /// queue empty.
    pub fn take_pending(&mut self) -> (cmds: Vec<GpuCommand>)
        requires
            old(self).wf(),
        ensures
            final(self).wf(),
            cmds == old(self).pending,
            final(self).pending@.len() == 0,
            same_identity(*old(self), *final(self)),
            same_timing(*old(self), *final(self)),
            same_input(*old(self), *final(self)),
            same_flags(*old(self), *final(self)),
            final(self).screen == old(self).screen,
            final(self).decals == old(self).decals,
            final(self).textsheet == old(self).textsheet,
    {
        let mut cmds: Vec<GpuCommand> = Vec::new();
        std::mem::swap(&mut cmds, &mut self.pending);
        cmds
    }

    /// Claim the platform event source. It exists exactly once: a second
    /// run loop cannot be started.
    pub fn take_event_source(&mut self)
        requires
            old(self).wf(),
            !old(self).event_source_taken,
        ensures
            final(self).wf(),
            final(self).event_source_taken,
            same_identity(*old(self), *final(self)),
            same_timing(*old(self), *final(self)),
            same_input(*old(self), *final(self)),
            same_gpu(*old(self), *final(self)),
            final(self).force_exit == old(self).force_exit,
            final(self).redraw == old(self).redraw,
            final(self).redraw_last_frame == old(self).redraw_last_frame,
    {
        self.event_source_taken = true;
    }

    /// Whether the next loop iteration should run a redraw tick.
    pub fn wants_redraw(&self) -> (r: bool)
        ensures
            r == self.redraw,
    {
        self.redraw
    }

    /// Start one loop iteration: if the previous iteration completed a
    /// redraw tick, the owed input reset step runs now, before any new
    /// event is ingested.
    pub fn begin_iteration(&mut self)
        requires
            old(self).wf(),
        ensures
            final(self).wf(),
            old(self).redraw_last_frame ==> resets_to(old(self).input, final(self).input)
                && !final(self).redraw_last_frame,
            !old(self).redraw_last_frame ==> *final(self) == *old(self),
            same_identity(*old(self), *final(self)),
            same_timing(*old(self), *final(self)),
            same_gpu(*old(self), *final(self)),
            final(self).event_source_taken == old(self).event_source_taken,
            final(self).force_exit == old(self).force_exit,
            final(self).redraw == old(self).redraw,
            !final(self).redraw_last_frame,
    {
        if self.redraw_last_frame {
            self.input.reset_tick();
            self.redraw_last_frame = false;
        }
    }

    /// Ingest one platform event, already translated to plain values, and
    /// say what the host should do next. A close request only raises the
    /// force-exit flag — it is honoured when the in-flight tick completes,
    /// never mid-frame.
    pub fn process_event(&mut self, e: &Event) -> (a: EventAction)
        requires
            old(self).wf(),
        ensures
            final(self).wf(),
            a == (match *e {
                Event::MainEventsCleared => EventAction::RequestRedraw,
                _ => EventAction::Proceed,
            }),
            same_identity(*old(self), *final(self)),
            same_timing(*old(self), *final(self)),
            same_gpu(*old(self), *final(self)),
            final(self).event_source_taken == old(self).event_source_taken,
            final(self).redraw_last_frame == old(self).redraw_last_frame,
            match *e {
                Event::KeyDown(k) => ingests_key_down(old(self).input, final(self).input, k)
                    && same_flags(*old(self), *final(self)),
                Event::KeyUp(k) => ingests_key_up(old(self).input, final(self).input, k)
                    && same_flags(*old(self), *final(self)),
                Event::CursorMoved { x, y } => final(self).input.mouse.pos == (
                    logical_coord(x, old(self).size.2),
                    logical_coord(y, old(self).size.2),
                ) && final(self).input.k_pressed == old(self).input.k_pressed && final(self).input.k_held == old(self).input.k_held && final(self).input.k_released == old(self).input.k_released && final(self).input.mouse.buttons == old(self).input.mouse.buttons && final(self).input.mouse.wheel == old(self).input.mouse.wheel && same_flags(*old(self), *final(self)),
                Event::Wheel { dx, dy } => final(self).input.mouse.wheel == wheel_direction(
                    dx as int,
                    dy as int,
                ) && final(self).input.k_pressed == old(self).input.k_pressed && final(self).input.k_held == old(self).input.k_held && final(self).input.k_released == old(self).input.k_released && final(self).input.mouse.buttons == old(self).input.mouse.buttons && final(self).input.mouse.pos == old(self).input.mouse.pos
                    && same_flags(*old(self), *final(self)),
                Event::MouseDown(b) => final(self).input.mouse.buttons[btn_slot(b)] == (Input {
                    pressed: true,
                    ..old(self).input.mouse.buttons[btn_slot(b)]
                }) && (forall|i: int|
                    0 <= i < 3 && i != btn_slot(b) ==> final(self).input.mouse.buttons[i] == old(self).input.mouse.buttons[i]) && final(self).input.k_pressed == old(self).input.k_pressed && final(self).input.k_held == old(self).input.k_held && final(self).input.k_released == old(self).input.k_released && final(self).input.mouse.pos
                    == old(self).input.mouse.pos && final(self).input.mouse.wheel == old(self).input.mouse.wheel && same_flags(*old(self), *final(self)),
                Event::MouseUp(b) => final(self).input.mouse.buttons[btn_slot(b)] == (Input {
                    held: false,
                    released: true,
                    ..old(self).input.mouse.buttons[btn_slot(b)]
                }) && (forall|i: int|
                    0 <= i < 3 && i != btn_slot(b) ==> final(self).input.mouse.buttons[i] == old(self).input.mouse.buttons[i]) && final(self).input.k_pressed == old(self).input.k_pressed && final(self).input.k_held == old(self).input.k_held && final(self).input.k_released == old(self).input.k_released && final(self).input.mouse.pos
                    == old(self).input.mouse.pos && final(self).input.mouse.wheel == old(self).input.mouse.wheel && same_flags(*old(self), *final(self)),
                Event::CloseRequested => final(self).force_exit && same_input(
                    *old(self),
                    *final(self),
                ) && final(self).redraw == old(self).redraw,
                Event::RedrawRequested => final(self).redraw && same_input(
                    *old(self),
                    *final(self),
                ) && final(self).force_exit == old(self).force_exit,
                Event::MainEventsCleared => *final(self) == *old(self),
                Event::Other => *final(self) == *old(self),
            },
    {
        match e {
            Event::KeyDown(k) => {
                self.input.key_down(*k);
                EventAction::Proceed
            },
            Event::KeyUp(k) => {
                self.input.key_up(*k);
                EventAction::Proceed
            },
            Event::CursorMoved { x, y } => {
                let scale = self.size.2;
                self.input.cursor_moved(*x, *y, scale);
                EventAction::Proceed
            },
            Event::Wheel { dx, dy } => {
                self.input.wheel_moved(*dx, *dy);
                EventAction::Proceed
            },
            Event::MouseDown(b) => {
                self.input.mouse_down(*b);
                EventAction::Proceed
            },
            Event::MouseUp(b) => {
                self.input.mouse_up(*b);
                EventAction::Proceed
            },
            Event::CloseRequested => {
                self.force_exit = true;
                EventAction::Proceed
            },
            Event::RedrawRequested => {
                self.redraw = true;
                EventAction::Proceed
            },
            Event::MainEventsCleared => EventAction::RequestRedraw,
            Event::Other => EventAction::Proceed,
        }
    }

    /// Start a redraw tick at wall-clock instant `now_us`: the elapsed time
    /// is the delta since the previous tick, the frame counter advances,
    /// and once a whole second has accumulated the counter resets and the
    /// host is told the frame rate to put in the window title.
    pub fn begin_redraw(&mut self, now_us: u64) -> (fps: Option<u64>)
        requires
            old(self).wf(),
            now_us >= old(self).timer_us,
            old(self).frame_timer_us + (now_us - old(self).timer_us) <= u64::MAX,
            old(self).frame_count < u64::MAX,
        ensures
            final(self).wf(),
            final(self).elapsed_us == now_us - old(self).timer_us,
            final(self).timer_us == now_us,
            ({
                let ft = old(self).frame_timer_us + (now_us - old(self).timer_us);
                if ft > MICROS_PER_SECOND {
                    &&& final(self).frame_timer_us == ft - MICROS_PER_SECOND
                    &&& final(self).frame_count == 0
                    &&& fps == Some((old(self).frame_count + 1) as u64)
                } else {
                    &&& final(self).frame_timer_us == ft
                    &&& final(self).frame_count == old(self).frame_count + 1
                    &&& fps is None
                }
            }),
            same_identity(*old(self), *final(self)),
            same_gpu(*old(self), *final(self)),
            same_input(*old(self), *final(self)),
            same_flags(*old(self), *final(self)),
    {
        let elapsed = now_us - self.timer_us;
        self.elapsed_us = elapsed;
        self.timer_us = now_us;
        self.frame_timer_us = self.frame_timer_us + elapsed;
        self.frame_count = self.frame_count + 1;
        if self.frame_timer_us > MICROS_PER_SECOND {
            self.frame_timer_us = self.frame_timer_us - MICROS_PER_SECOND;
            let fps = self.frame_count;
            self.frame_count = 0;
            Some(fps)
        } else {
            None
        }
    }

    /// Finish a redraw tick, given what the callback reported. The frame in
    /// flight is always uploaded and presented — a close request or a stop
    /// never aborts it — and only after presenting does a terminal tick ask
    /// the host to leave the loop. The input reset step becomes owed for
    /// the next iteration.
    pub fn complete_redraw(&mut self, outcome: CallbackResult) -> (acts: Vec<TickAction>)
        requires
            old(self).wf(),
        ensures
            final(self).wf(),
            acts@ == tick_actions(tick_exits(outcome, old(self).force_exit)),
            !final(self).redraw,
            final(self).redraw_last_frame,
            same_identity(*old(self), *final(self)),
            same_timing(*old(self), *final(self)),
            same_gpu(*old(self), *final(self)),
            same_input(*old(self), *final(self)),
            final(self).force_exit == old(self).force_exit,
            final(self).event_source_taken == old(self).event_source_taken,
    {
        let exit = match outcome {
            CallbackResult::Continue => self.force_exit,
            CallbackResult::Stop => true,
            CallbackResult::Failed => true,
        };
        let mut acts: Vec<TickAction> = Vec::new();
        acts.push(TickAction::UploadFrame);
        acts.push(TickAction::Present);
        if exit {
            acts.push(TickAction::Exit);
        }
        self.redraw = false;
        self.redraw_last_frame = true;
        proof {
            assert(acts@ =~= tick_actions(tick_exits(outcome, old(self).force_exit)));
        }
        acts
    }
}

/// Shutdown ordering: every tick, terminal or not, uploads and presents the
/// in-flight frame first; an exit can only come after the present.
pub proof fn lemma_shutdown_ordering(exit: bool)
    ensures
        tick_actions(exit)[0] == TickAction::UploadFrame,
        tick_actions(exit)[1] == TickAction::Present,
        forall|i: int|
            0 <= i < tick_actions(exit).len() && tick_actions(exit)[i] == TickAction::Exit
                ==> i > 1,
{
    assert forall|i: int|
        0 <= i < tick_actions(exit).len() && tick_actions(exit)[i] == TickAction::Exit
            implies i > 1 by {
        assert(tick_actions(exit)[0] == TickAction::UploadFrame);
        assert(tick_actions(exit)[1] == TickAction::Present);
    }
}

} // verus!
