//! The host loop's decisions: what each window event does to the game, the
//! input and the surface configuration, and what the host must then do.

use vstd::prelude::*;
use crate::game::{GameController, moved};
use crate::input::{GameInput, Key, KeyState, key_binding, with_direction};
use crate::render::{
    FrameError,
    FrameGeometry,
    Recovery,
    SurfaceStatus,
    plan_frame,
    recovery_for,
    recovery_of,
    is_player_geometry,
    QUAD_CAPACITY,
};
use crate::surface::SurfaceConfig;

verus! {

/// An event the window delivers.
#[derive(Debug)]
pub enum WindowEvent {
    Resized { width: u32, height: u32 },
    CloseRequested,
    RedrawRequested,
    KeyboardInput { key: Key, state: KeyState },
    Other,
}

/// What the host must do after an event.
#[derive(Clone, Copy, Debug, PartialEq, Eq, Structural)]
pub enum EngineAction {
    /// Configure the surface with the engine's configuration.
    Reconfigure,
    /// Leave the event loop.
    Exit,
    /// Acquire an image and draw a frame.
    Draw,
    /// Ask the window for a redraw.
    RequestRedraw,
    /// Nothing.
    Nothing,
}

/// The game, the keys held, and the surface configuration.
pub struct GameEngine {
    pub game: GameController,
    pub input: GameInput,
    pub surface: SurfaceConfig,
}

impl GameEngine {
    /// An engine with no key held.
    pub fn new(surface: SurfaceConfig, game: GameController) -> (r: Self)
        ensures
            r.surface == surface,
            r.game == game,
            r.input == (GameInput { up: false, down: false, left: false, right: false }),
    {
        GameEngine { game, input: GameInput::new(), surface }
    }
}

/// Handles one window event. A resize with both sides non-zero is stored and
/// asks for reconfiguration; a close request exits; a redraw moves every
/// player by the held keys and asks for a frame; a bound key updates the held
/// keys and asks for a redraw if that changed any of them. Anything else does
/// nothing.
pub fn window_event_handler(engine: &mut GameEngine, event: WindowEvent) -> (r: EngineAction)
    ensures
        match event {
            WindowEvent::Resized { width, height } => {
                &&& final(engine).surface == old(engine).surface.resized(width, height)
                &&& final(engine).game == old(engine).game
                &&& final(engine).input == old(engine).input
                &&& r == if width > 0 && height > 0 {
                    EngineAction::Reconfigure
                } else {
                    EngineAction::Nothing
                }
            },
            WindowEvent::CloseRequested => {
                &&& *final(engine) == *old(engine)
                &&& r == EngineAction::Exit
            },
            WindowEvent::RedrawRequested => {
                &&& final(engine).surface == old(engine).surface
                &&& final(engine).input == old(engine).input
                &&& final(engine).game.players@.len() == old(engine).game.players@.len()
                &&& forall|i: int|
                    0 <= i < old(engine).game.players@.len() ==> final(engine).game.players@[i]
                        == moved(#[trigger] old(engine).game.players@[i], old(engine).input)
                &&& r == EngineAction::Draw
            },
            WindowEvent::KeyboardInput { key, state } => {
                &&& final(engine).surface == old(engine).surface
                &&& final(engine).game == old(engine).game
                &&& match key_binding(key) {
                    Some(d) => final(engine).input == with_direction(
                        old(engine).input,
                        d,
                        state == KeyState::Pressed,
                    ),
                    None => final(engine).input == old(engine).input,
                }
                &&& r == if final(engine).input != old(engine).input {
                    EngineAction::RequestRedraw
                } else {
                    EngineAction::Nothing
                }
            },
            WindowEvent::Other => {
                &&& *final(engine) == *old(engine)
                &&& r == EngineAction::Nothing
            },
        },
{
    match event {
        WindowEvent::Resized { width, height } => {
            if engine.surface.resize(width, height) {
                EngineAction::Reconfigure
            } else {
                EngineAction::Nothing
            }
        },
        WindowEvent::CloseRequested => EngineAction::Exit,
        WindowEvent::RedrawRequested => {
            let input = engine.input;
            engine.game.update(&input);
            EngineAction::Draw
        },
        WindowEvent::KeyboardInput { key, state } => {
            if engine.input.update(key, state) {
                EngineAction::RequestRedraw
            } else {
                EngineAction::Nothing
            }
        },
        WindowEvent::Other => EngineAction::Nothing,
    }
}

/// Plans the frame of a redraw from the outcome of acquiring the surface
/// image: the players' geometry, or why nothing is drawn.
pub fn handle_redraw(engine: &GameEngine, acquired: Result<(), SurfaceStatus>) -> (r: Result<
    FrameGeometry,
    FrameError,
>)
    ensures
        acquired matches Err(s) ==> r == Err::<FrameGeometry, FrameError>(
            FrameError::Surface(s),
        ),
        acquired is Ok && engine.game.players@.len() > QUAD_CAPACITY ==> r == Err::<
            FrameGeometry,
            FrameError,
        >(
            FrameError::CapacityExceeded {
                entities: engine.game.players@.len() as usize,
                capacity: QUAD_CAPACITY,
            },
        ),
        acquired is Ok && engine.game.players@.len() <= QUAD_CAPACITY ==> (r matches Ok(g)
            && is_player_geometry(g, engine.game.players@)),
{
    plan_frame(acquired, &engine.game.players, QUAD_CAPACITY)
}

/// Recovers from a frame that was not drawn. A lost surface is resized to
/// its current sides and asks for reconfiguration; a lack of memory exits;
/// anything else does nothing and waits for the next frame.
pub fn handle_frame_error(engine: &mut GameEngine, e: &FrameError) -> (r: EngineAction)
    ensures
        *final(engine) == *old(engine),
        r == match recovery_of(*e) {
            Recovery::Reconfigure => EngineAction::Reconfigure,
            Recovery::Terminate => EngineAction::Exit,
            Recovery::SkipFrame => EngineAction::Nothing,
        },
{
    match recovery_for(e) {
        Recovery::Reconfigure => {
            let width = engine.surface.width;
            let height = engine.surface.height;
            engine.surface.resize(width, height);
            EngineAction::Reconfigure
        },
        Recovery::Terminate => EngineAction::Exit,
        Recovery::SkipFrame => EngineAction::Nothing,
    }
}

} // verus!
