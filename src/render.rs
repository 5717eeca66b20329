//! One frame: whether it is drawn, the geometry it uploads, the buffer sizes
//! it needs, and what the host does when it is not drawn.
//!
//! The host acquires the surface image, hands the outcome to `plan_frame`,
//! and on `Ok` uploads, records, submits and presents; on `Err` it follows
//! `recovery_for`.

use vstd::prelude::*;
use crate::game::Player;
use crate::geometry::{
    QuadBufferBuilder,
    Vertex,
    mesh_indices,
    mesh_vertices,
    player_rects,
    lemma_player_mesh_corners,
    MAX_BUILT_QUADS,
};

verus! {

/// Bytes in one vertex: a position and a colour of three 32-bit floats each.
pub const VERTEX_SIZE: u64 = 24;

/// Offset of the colour within a vertex, in bytes.
pub const VERTEX_COLOR_OFFSET: u64 = 12;

/// Bytes in one index.
pub const INDEX_SIZE: u64 = 4;

/// Quads the long-lived vertex and index buffers are made for.
pub const QUAD_CAPACITY: u32 = 16;

/// Frames the presentation engine may hold before the host waits.
pub const FRAME_LATENCY: u32 = 2;

/// Background colour the frame is cleared to, in thousandths per channel
/// (red, green, blue, alpha).
pub const CLEAR_COLOR_MILLIS: (u16, u16, u16, u16) = (100, 200, 300, 1000);

/// Why no image could be acquired from the surface.
#[derive(Clone, Copy, Debug, PartialEq, Eq, Structural)]
pub enum SurfaceStatus {
    Lost,
    Outdated,
    Timeout,
    OutOfMemory,
}

/// Why a frame was not drawn.
#[derive(Clone, Copy, Debug, PartialEq, Eq, Structural)]
pub enum FrameError {
    /// No surface image was acquired.
    Surface(SurfaceStatus),
    /// More players than the buffers hold quads.
    CapacityExceeded { entities: usize, capacity: u32 },
}

/// What the host does after a frame that was not drawn.
#[derive(Clone, Copy, Debug, PartialEq, Eq, Structural)]
pub enum Recovery {
    /// Configure the surface again with its current sides, then draw at the
    /// next redraw.
    Reconfigure,
    /// End the process.
    Terminate,
    /// Do nothing; the next frame is expected to draw.
    SkipFrame,
}

/// The geometry of one frame, ready to upload.
#[derive(Debug)]
pub struct FrameGeometry {
    pub vertices: Vec<Vertex>,
    pub indices: Vec<u32>,
    pub index_count: u32,
}

/// The recovery owed to each error: a lost surface is configured again, a
/// lack of memory ends the process, anything else waits for the next frame.
pub open spec fn recovery_of(e: FrameError) -> Recovery {
    match e {
        FrameError::Surface(SurfaceStatus::Lost) => Recovery::Reconfigure,
        FrameError::Surface(SurfaceStatus::OutOfMemory) => Recovery::Terminate,
        _ => Recovery::SkipFrame,
    }
}

/// The geometry is exactly the mesh of the players, in their order.
pub open spec fn is_player_geometry(g: FrameGeometry, players: Seq<Player>) -> bool {
    &&& g.vertices@ == mesh_vertices(player_rects(players))
    &&& g.indices@ == mesh_indices(players.len())
    &&& g.index_count as int == 6 * players.len()
}

/// Bytes of a vertex buffer that holds `quads` quads.
pub fn vertex_buffer_size(quads: u32) -> (r: u64)
    ensures
        r == 4 * VERTEX_SIZE * quads,
{
    assert(4 * VERTEX_SIZE * quads <= 96 * 0xffff_ffffu64) by (nonlinear_arith)
        requires
            quads <= 0xffff_ffffu32,
    ;
    4 * VERTEX_SIZE * quads as u64
}

/// Bytes of an index buffer that holds `quads` quads.
pub fn index_buffer_size(quads: u32) -> (r: u64)
    ensures
        r == 6 * INDEX_SIZE * quads,
{
    assert(6 * INDEX_SIZE * quads <= 24 * 0xffff_ffffu64) by (nonlinear_arith)
        requires
            quads <= 0xffff_ffffu32,
    ;
    6 * INDEX_SIZE * quads as u64
}

/// Builds the geometry of the players, one quad each in their order, if they
/// fit in `capacity` quads; else reports how many there are.
pub fn build_geometry(players: &Vec<Player>, capacity: u32) -> (r: Result<
    FrameGeometry,
    FrameError,
>)
    requires
        capacity <= MAX_BUILT_QUADS,
    ensures
        players@.len() > capacity <==> r == Err::<FrameGeometry, FrameError>(
            FrameError::CapacityExceeded { entities: players@.len() as usize, capacity },
        ),
        players@.len() <= capacity ==> (r matches Ok(g) && is_player_geometry(g, players@)),
{
    if players.len() > capacity as usize {
        return Err(FrameError::CapacityExceeded { entities: players.len(), capacity });
    }
    let mut builder = QuadBufferBuilder::new();
    let mut i: usize = 0;
    while i < players.len()
        invariant
            i <= players@.len() <= capacity <= MAX_BUILT_QUADS,
            builder.wf(),
            builder.quads() == player_rects(players@.subrange(0, i as int)),
        decreases players@.len() - i,
    {
        builder.push_player(&players[i]);
        proof {
            assert(player_rects(players@.subrange(0, i + 1)) =~= player_rects(
                players@.subrange(0, i as int),
            ).push(crate::geometry::player_rect(players@[i as int])));
        }
        i = i + 1;
    }
    proof {
        assert(players@.subrange(0, i as int) =~= players@);
    }
    let (vertices, indices, index_count) = builder.build();
    Ok(FrameGeometry { vertices, indices, index_count })
}

/// Decides a frame from the outcome of acquiring the surface image. A failed
/// acquisition ends the frame with its status and builds nothing; otherwise
/// the frame carries the players' geometry, or fails if it does not fit.
pub fn plan_frame(acquired: Result<(), SurfaceStatus>, players: &Vec<Player>, capacity: u32) -> (r:
    Result<FrameGeometry, FrameError>)
    requires
        capacity <= MAX_BUILT_QUADS,
    ensures
        acquired matches Err(s) ==> r == Err::<FrameGeometry, FrameError>(
            FrameError::Surface(s),
        ),
        acquired is Ok && players@.len() > capacity ==> r == Err::<FrameGeometry, FrameError>(
            FrameError::CapacityExceeded { entities: players@.len() as usize, capacity },
        ),
        acquired is Ok && players@.len() <= capacity ==> (r matches Ok(g) && is_player_geometry(
            g,
            players@,
        )),
{
    match acquired {
        Err(s) => Err(FrameError::Surface(s)),
        Ok(()) => build_geometry(players, capacity),
    }
}

/// The recovery owed to a frame that was not drawn.
pub fn recovery_for(e: &FrameError) -> (r: Recovery)
    ensures
        r == recovery_of(*e),
{
    match e {
        FrameError::Surface(SurfaceStatus::Lost) => Recovery::Reconfigure,
        FrameError::Surface(SurfaceStatus::OutOfMemory) => Recovery::Terminate,
        _ => Recovery::SkipFrame,
    }
}

/// Frame geometry built from a list of players holds, for each player in list
/// order, the four corners of its rectangle: its centre less and plus half its
/// size on each axis (in half steps, twice the centre less and plus the size).
pub proof fn lemma_frame_geometry_corners(g: FrameGeometry, players: Seq<Player>, i: int)
    requires
        is_player_geometry(g, players),
        0 <= i < players.len(),
    ensures
        g.vertices@.len() == 4 * players.len(),
        ({
            let v = g.vertices@;
            let p = players[i];
            &&& v[4 * i].x == 2 * p.position[0] - p.size[0]
            &&& v[4 * i].y == 2 * p.position[1] - p.size[1]
            &&& v[4 * i + 1].x == 2 * p.position[0] + p.size[0]
            &&& v[4 * i + 1].y == 2 * p.position[1] - p.size[1]
            &&& v[4 * i + 2].x == 2 * p.position[0] + p.size[0]
            &&& v[4 * i + 2].y == 2 * p.position[1] + p.size[1]
            &&& v[4 * i + 3].x == 2 * p.position[0] - p.size[0]
            &&& v[4 * i + 3].y == 2 * p.position[1] + p.size[1]
        }),
{
    lemma_player_mesh_corners(players, i);
}

} // verus!
