use rust_and_dungeons::engine::{
    handle_frame_error, handle_redraw, window_event_handler, EngineAction, GameEngine, WindowEvent,
};
use rust_and_dungeons::game::{GameController, FRAME_STEP};
use rust_and_dungeons::input::{Key, KeyState};
use rust_and_dungeons::render::{FrameError, SurfaceStatus};
use rust_and_dungeons::surface::SurfaceConfig;

fn engine() -> GameEngine {
    let surface = SurfaceConfig::negotiate(&vec![false, true], 1, 1, 800, 600).unwrap();
    GameEngine::new(surface, GameController::new())
}

#[test]
fn resize_event_reconfigures_unless_a_side_is_zero() {
    let mut e = engine();
    let a = window_event_handler(&mut e, WindowEvent::Resized { width: 1280, height: 720 });
    assert_eq!(a, EngineAction::Reconfigure);
    assert_eq!((e.surface.width, e.surface.height), (1280, 720));
    let a = window_event_handler(&mut e, WindowEvent::Resized { width: 0, height: 720 });
    assert_eq!(a, EngineAction::Nothing);
    assert_eq!((e.surface.width, e.surface.height), (1280, 720));
}

#[test]
fn close_request_exits() {
    let mut e = engine();
    assert_eq!(window_event_handler(&mut e, WindowEvent::CloseRequested), EngineAction::Exit);
    assert_eq!(window_event_handler(&mut e, WindowEvent::Other), EngineAction::Nothing);
}

#[test]
fn key_then_redraw_moves_player_and_draws() {
    let mut e = engine();
    let key = WindowEvent::KeyboardInput { key: Key::Character("d".to_string()), state: KeyState::Pressed };
    assert_eq!(window_event_handler(&mut e, key), EngineAction::RequestRedraw);
    let again = WindowEvent::KeyboardInput { key: Key::Character("d".to_string()), state: KeyState::Pressed };
    assert_eq!(window_event_handler(&mut e, again), EngineAction::Nothing);
    let other = WindowEvent::KeyboardInput { key: Key::Named, state: KeyState::Pressed };
    assert_eq!(window_event_handler(&mut e, other), EngineAction::Nothing);
    assert_eq!(window_event_handler(&mut e, WindowEvent::RedrawRequested), EngineAction::Draw);
    assert_eq!(e.game.players[0].position, [FRAME_STEP, 0]);
    let g = handle_redraw(&e, Ok(())).unwrap();
    assert_eq!(g.vertices[0].x, 2 * FRAME_STEP as i64 - 200);
    assert_eq!(g.index_count, 6);
}

#[test]
fn frame_errors_lead_to_their_recovery() {
    let mut e = engine();
    let before = e.surface;
    let err = handle_redraw(&e, Err(SurfaceStatus::Lost)).unwrap_err();
    assert_eq!(handle_frame_error(&mut e, &err), EngineAction::Reconfigure);
    assert_eq!(e.surface, before);
    let oom = FrameError::Surface(SurfaceStatus::OutOfMemory);
    assert_eq!(handle_frame_error(&mut e, &oom), EngineAction::Exit);
    let late = FrameError::Surface(SurfaceStatus::Timeout);
    assert_eq!(handle_frame_error(&mut e, &late), EngineAction::Nothing);
}
