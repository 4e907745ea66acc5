use pixel_engine::engine::{CallbackResult, Engine, Event, EventAction, TickAction};
use pixel_engine::inputs::{MouseBtn, MouseWheel};
use pixel_engine::keycodes::Keycodes;
use pixel_engine::keys::Key;
use pixel_engine::screen::Screen;

fn plain(key: Keycodes) -> Key {
    Key { modifier: [false, false, false, false], key }
}

fn with_mods(key: Keycodes, shift: bool, ctrl: bool) -> Key {
    Key { modifier: [shift, ctrl, false, false], key }
}

fn fresh_engine() -> Engine {
    let textsheet = Screen::new(8, 8);
    Engine::new("demo".to_owned(), (16, 12, 2), &textsheet)
}

/// Run the tick that ends an iteration, as the host loop would.
fn run_tick(e: &mut Engine, outcome: CallbackResult) -> Vec<TickAction> {
    let acts = e.complete_redraw(outcome);
    e.begin_iteration();
    acts
}

#[test]
fn engine_new_is_quiescent() {
    let e = fresh_engine();
    assert_eq!(e.title, "demo");
    assert_eq!(e.size(), (16, 12));
    assert_eq!(e.frame_count, 0);
    assert!(e.redraw);
    assert!(!e.force_exit);
    assert!(!e.event_source_taken);
    assert!(!e.get_key(Keycodes::A).any());
    assert_eq!(e.get_mouse_location(), (0, 0));
    assert!(matches!(e.get_mouse_wheel(), MouseWheel::NoScroll));
}

#[test]
fn key_press_is_pressed_then_held() {
    let mut e = fresh_engine();
    e.process_event(&Event::KeyDown(plain(Keycodes::K)));
    let i = e.get_key(Keycodes::K);
    assert!(i.pressed && !i.held && !i.released);
    run_tick(&mut e, CallbackResult::Continue);
    let i = e.get_key(Keycodes::K);
    assert!(!i.pressed && i.held && !i.released);
}

#[test]
fn held_key_survives_modifier_changes() {
    let mut e = fresh_engine();
    e.process_event(&Event::KeyDown(plain(Keycodes::K)));
    run_tick(&mut e, CallbackResult::Continue);
    assert!(e.get_key(Keycodes::K).held);
    // Further key-downs for K with different modifier bits, before any
    // key-up: pressed is not re-triggered, K stays held.
    e.process_event(&Event::KeyDown(with_mods(Keycodes::K, true, false)));
    e.process_event(&Event::KeyDown(with_mods(Keycodes::K, false, true)));
    let i = e.get_key(Keycodes::K);
    assert!(!i.pressed && i.held);
    run_tick(&mut e, CallbackResult::Continue);
    let i = e.get_key(Keycodes::K);
    assert!(!i.pressed && i.held && !i.released);
}

#[test]
fn key_release_cycle() {
    let mut e = fresh_engine();
    e.process_event(&Event::KeyDown(plain(Keycodes::K)));
    run_tick(&mut e, CallbackResult::Continue);
    e.process_event(&Event::KeyUp(plain(Keycodes::K)));
    let i = e.get_key(Keycodes::K);
    assert!(!i.pressed && !i.held && i.released);
    run_tick(&mut e, CallbackResult::Continue);
    assert!(!e.get_key(Keycodes::K).any());
}

#[test]
fn input_events_defer_one_tick() {
    let mut e = fresh_engine();
    // Tick N runs; its callback saw no input.
    assert!(!e.get_key(Keycodes::P).any());
    let _ = e.complete_redraw(CallbackResult::Continue);
    // A key event that arrived during tick N's callback is ingested in the
    // next iteration, after the reset step.
    e.begin_iteration();
    e.process_event(&Event::KeyDown(plain(Keycodes::P)));
    // Tick N+1's callback is the first to see it, as pressed.
    let i = e.get_key(Keycodes::P);
    assert!(i.pressed && !i.held);
    let _ = e.complete_redraw(CallbackResult::Continue);
    e.begin_iteration();
    // At tick N+2 it has been reset into held.
    let i = e.get_key(Keycodes::P);
    assert!(!i.pressed && i.held);
}

#[test]
fn mouse_button_cycle() {
    let mut e = fresh_engine();
    e.process_event(&Event::MouseDown(MouseBtn::Left));
    let b = e.get_mouse_btn(MouseBtn::Left);
    assert!(b.pressed && !b.held && !b.released);
    run_tick(&mut e, CallbackResult::Continue);
    let b = e.get_mouse_btn(MouseBtn::Left);
    assert!(!b.pressed && b.held && !b.released);
    e.process_event(&Event::MouseUp(MouseBtn::Left));
    let b = e.get_mouse_btn(MouseBtn::Left);
    assert!(!b.held && b.released);
    run_tick(&mut e, CallbackResult::Continue);
    let b = e.get_mouse_btn(MouseBtn::Left);
    assert!(!b.pressed && !b.held && !b.released);
}

#[test]
fn wheel_resets_each_tick() {
    let mut e = fresh_engine();
    e.process_event(&Event::Wheel { dx: 0, dy: 5 });
    assert!(matches!(e.get_mouse_wheel(), MouseWheel::Down));
    run_tick(&mut e, CallbackResult::Continue);
    assert!(matches!(e.get_mouse_wheel(), MouseWheel::NoScroll));
}

#[test]
fn cursor_position_is_scaled_to_logical_pixels() {
    let mut e = fresh_engine();
    // Pixel scale is 2: physical (25, 13) lands on logical (12, 6).
    e.process_event(&Event::CursorMoved { x: 25, y: 13 });
    assert_eq!(e.get_mouse_location(), (12, 6));
}

#[test]
fn get_pressed_deduplicates_codes() {
    let mut e = fresh_engine();
    e.process_event(&Event::KeyDown(with_mods(Keycodes::A, true, false)));
    e.process_event(&Event::KeyDown(with_mods(Keycodes::A, false, true)));
    e.process_event(&Event::KeyDown(plain(Keycodes::B)));
    let pressed = e.get_pressed();
    assert_eq!(pressed.len(), 2);
    assert!(pressed.contains(&Keycodes::A));
    assert!(pressed.contains(&Keycodes::B));
}

#[test]
fn main_events_cleared_requests_redraw() {
    let mut e = fresh_engine();
    assert_eq!(e.process_event(&Event::MainEventsCleared), EventAction::RequestRedraw);
    assert_eq!(e.process_event(&Event::Other), EventAction::Proceed);
    assert_eq!(e.process_event(&Event::RedrawRequested), EventAction::Proceed);
    assert!(e.wants_redraw());
}

#[test]
fn frame_timer_reports_fps_once_per_second() {
    let mut e = fresh_engine();
    let fps = e.begin_redraw(400_000);
    assert_eq!(fps, None);
    assert_eq!(e.elapsed_us, 400_000);
    assert_eq!(e.frame_count, 1);
    let fps = e.begin_redraw(900_000);
    assert_eq!(fps, None);
    assert_eq!(e.elapsed_us, 500_000);
    // 1,100,000 us accumulated: the second wrapped; two frames ran in it.
    let fps = e.begin_redraw(1_100_000);
    assert_eq!(fps, Some(3));
    assert_eq!(e.frame_count, 0);
    assert_eq!(e.frame_timer_us, 100_000);
}

#[test]
fn ordinary_tick_uploads_and_presents() {
    let mut e = fresh_engine();
    let acts = e.complete_redraw(CallbackResult::Continue);
    assert_eq!(acts, vec![TickAction::UploadFrame, TickAction::Present]);
    assert!(!e.redraw);
    assert!(e.redraw_last_frame);
}

#[test]
fn close_request_mid_frame_still_presents_before_exit() {
    let mut e = fresh_engine();
    // The close request arrives while a frame is in flight: only the flag
    // moves, the tick is not aborted.
    e.process_event(&Event::CloseRequested);
    assert!(e.force_exit);
    assert!(e.redraw);
    let acts = e.complete_redraw(CallbackResult::Continue);
    assert_eq!(
        acts,
        vec![TickAction::UploadFrame, TickAction::Present, TickAction::Exit],
    );
    let present = acts.iter().position(|a| *a == TickAction::Present).unwrap();
    let exit = acts.iter().position(|a| *a == TickAction::Exit).unwrap();
    assert!(present < exit);
}

#[test]
fn callback_stop_and_failure_exit_after_presenting() {
    let mut e = fresh_engine();
    let acts = e.complete_redraw(CallbackResult::Stop);
    assert_eq!(
        acts,
        vec![TickAction::UploadFrame, TickAction::Present, TickAction::Exit],
    );
    let mut e = fresh_engine();
    let acts = e.complete_redraw(CallbackResult::Failed);
    assert_eq!(
        acts,
        vec![TickAction::UploadFrame, TickAction::Present, TickAction::Exit],
    );
}

#[test]
fn event_source_is_claimed_once() {
    let mut e = fresh_engine();
    assert!(!e.event_source_taken);
    e.take_event_source();
    assert!(e.event_source_taken);
}
