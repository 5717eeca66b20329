use rust_and_dungeons::game::{GameController, Player};
use rust_and_dungeons::geometry::{Rgb, Vertex};
use rust_and_dungeons::render::{
    build_geometry, index_buffer_size, plan_frame, recovery_for, vertex_buffer_size, FrameError,
    Recovery, SurfaceStatus, QUAD_CAPACITY,
};
use rust_and_dungeons::surface::SurfaceConfig;

fn white(x: i64, y: i64) -> Vertex {
    Vertex { x, y, z: 0, color: Rgb { r: 255, g: 255, b: 255 } }
}

#[test]
fn lost_surface_skips_drawing_and_resize_reconfigures() {
    let game = GameController::new();
    let r = plan_frame(Err(SurfaceStatus::Lost), &game.players, QUAD_CAPACITY);
    assert!(matches!(r, Err(FrameError::Surface(SurfaceStatus::Lost))));
    let e = r.unwrap_err();
    assert_eq!(recovery_for(&e), Recovery::Reconfigure);
    let mut c = SurfaceConfig::negotiate(&vec![true], 1, 1, 800, 600).unwrap();
    let before = c;
    assert!(c.resize(c.width, c.height));
    assert_eq!(c, before);
}

#[test]
fn out_of_memory_terminates_without_geometry() {
    let game = GameController::new();
    let r = plan_frame(Err(SurfaceStatus::OutOfMemory), &game.players, QUAD_CAPACITY);
    assert!(matches!(r, Err(FrameError::Surface(SurfaceStatus::OutOfMemory))));
    assert_eq!(recovery_for(&r.unwrap_err()), Recovery::Terminate);
}

#[test]
fn outdated_and_timeout_wait_for_next_frame() {
    for s in [SurfaceStatus::Outdated, SurfaceStatus::Timeout] {
        let r = plan_frame(Err(s), &vec![], QUAD_CAPACITY);
        let e = r.unwrap_err();
        assert_eq!(e, FrameError::Surface(s));
        assert_eq!(recovery_for(&e), Recovery::SkipFrame);
    }
}

#[test]
fn too_many_players_exceed_capacity() {
    let players = vec![Player::new([0, 0]), Player::new([1, 1]), Player::new([2, 2])];
    let r = build_geometry(&players, 2);
    assert_eq!(r.unwrap_err(), FrameError::CapacityExceeded { entities: 3, capacity: 2 });
    let e = plan_frame(Ok(()), &players, 2).unwrap_err();
    assert_eq!(recovery_for(&e), Recovery::SkipFrame);
}

#[test]
fn players_at_capacity_fit() {
    let players = vec![Player::new([0, 0]), Player::new([1, 1])];
    let g = build_geometry(&players, 2).unwrap();
    assert_eq!(g.index_count, 12);
}

#[test]
fn geometry_holds_each_player_in_order() {
    let players = vec![
        Player { position: [0, 0], size: [200, 200], velocity: 0 },
        Player { position: [100, -50], size: [40, 20], velocity: 0 },
        Player { position: [-300, 250], size: [10, 60], velocity: 0 },
    ];
    let g = plan_frame(Ok(()), &players, QUAD_CAPACITY).unwrap();
    assert_eq!(g.vertices.len(), 12);
    assert_eq!(g.index_count, 18);
    assert_eq!(g.indices.len(), 18);
    for (k, p) in players.iter().enumerate() {
        let (x, y) = (2 * p.position[0] as i64, 2 * p.position[1] as i64);
        let (w, h) = (p.size[0] as i64, p.size[1] as i64);
        assert_eq!(
            &g.vertices[4 * k..4 * k + 4],
            &[white(x - w, y - h), white(x + w, y - h), white(x + w, y + h), white(x - w, y + h)]
        );
    }
    assert_eq!(&g.indices[12..], &[8, 9, 10, 8, 10, 11]);
}

#[test]
fn no_players_give_empty_geometry() {
    let g = build_geometry(&vec![], QUAD_CAPACITY).unwrap();
    assert!(g.vertices.is_empty());
    assert!(g.indices.is_empty());
    assert_eq!(g.index_count, 0);
}

#[test]
fn buffer_sizes_hold_capacity() {
    assert_eq!(vertex_buffer_size(1), 96);
    assert_eq!(index_buffer_size(1), 24);
    assert_eq!(vertex_buffer_size(16), 1536);
    assert_eq!(index_buffer_size(u32::MAX), 24 * u32::MAX as u64);
}
