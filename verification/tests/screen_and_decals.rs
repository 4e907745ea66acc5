use pixel_engine::engine::{Engine, GpuCommand};
use pixel_engine::screen::Screen;

fn fresh_engine() -> Engine {
    let textsheet = Screen::new(4, 4);
    Engine::new("demo".to_owned(), (8, 8, 1), &textsheet)
}

#[test]
fn new_screen_is_opaque_black() {
    let s = Screen::new(3, 2);
    assert_eq!(s.data.len(), 3 * 2 * 4);
    for x in 0..3 {
        for y in 0..2 {
            assert_eq!(s.get_pixel(x, y), (0, 0, 0, 255));
        }
    }
}

#[test]
fn set_pixel_changes_only_its_pixel() {
    let mut s = Screen::new(3, 3);
    s.set_pixel(1, 2, (10, 20, 30, 40));
    assert_eq!(s.get_pixel(1, 2), (10, 20, 30, 40));
    for x in 0..3 {
        for y in 0..3 {
            if (x, y) != (1, 2) {
                assert_eq!(s.get_pixel(x, y), (0, 0, 0, 255));
            }
        }
    }
}

#[test]
fn engine_uploads_its_textsheet_at_birth() {
    let e = fresh_engine();
    assert_eq!(e.textsheet.id, 0);
    assert!(e.is_decal_alive(&e.textsheet.clone()));
    assert_eq!(e.pending.len(), 1);
    assert!(matches!(
        e.pending[0],
        GpuCommand::CreateTexture { id: 0, width: 4, height: 4, .. }
    ));
}

#[test]
fn create_decal_registers_a_live_handle() {
    let mut e = fresh_engine();
    let sprite = Screen::new(2, 5);
    let d = e.create_decal(&sprite);
    assert_eq!(d.id, 1);
    assert_eq!((d.width, d.height), (2, 5));
    assert!(e.is_decal_alive(&d));
    assert!(matches!(
        e.pending.last().unwrap(),
        GpuCommand::CreateTexture { id: 1, width: 2, height: 5, pixels } if pixels.len() == 2 * 5 * 4
    ));
}

#[test]
fn destroy_decal_kills_every_clone_of_the_handle() {
    let mut e = fresh_engine();
    let sprite = Screen::new(2, 2);
    let d = e.create_decal(&sprite);
    let d_clone = d.clone();
    e.destroy_decal(&d);
    assert!(!e.is_decal_alive(&d));
    assert!(!e.is_decal_alive(&d_clone));
    assert!(matches!(e.pending.last().unwrap(), GpuCommand::DestroyTexture { id: 1 }));
}

#[test]
fn draw_of_live_decal_emits_a_command() {
    let mut e = fresh_engine();
    let sprite = Screen::new(2, 2);
    let d = e.create_decal(&sprite);
    let before = e.pending.len();
    assert!(e.draw_decal(&d));
    assert_eq!(e.pending.len(), before + 1);
    assert!(matches!(e.pending.last().unwrap(), GpuCommand::DrawDecal { id: 1 }));
}

#[test]
fn draw_after_destroy_is_a_no_op() {
    let mut e = fresh_engine();
    let sprite = Screen::new(2, 2);
    let d = e.create_decal(&sprite);
    e.destroy_decal(&d);
    let before_pending = e.pending.len();
    let before_screen = e.screen.data.clone();
    assert!(!e.draw_decal(&d));
    assert_eq!(e.pending.len(), before_pending);
    assert_eq!(e.screen.data, before_screen);
}

#[test]
fn teardown_destroys_the_textsheet() {
    let mut e = fresh_engine();
    let sheet = e.textsheet.clone();
    e.teardown();
    assert!(!e.is_decal_alive(&sheet));
    assert!(matches!(e.pending.last().unwrap(), GpuCommand::DestroyTexture { id: 0 }));
}
