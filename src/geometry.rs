//! Quad geometry: one axis-aligned rectangle becomes four vertices and six
//! indices of a triangle list.
//!
//! Coordinates are fixed-point integers. Vertex coordinates count half
//! steps of the game grid (see `crate::game`), so that the corners of a
//! player of any size fall on the grid; the host scales them into clip space
//! when it uploads the vertices.

use vstd::prelude::*;
use crate::game::Player;

verus! {

/// Colour channel value of full intensity.
pub const FULL_CHANNEL: u8 = 255;

/// Half steps in one clip-space unit.
pub const HALF_STEPS_PER_UNIT: i64 = 2000;

/// The largest number of quads one builder can hold: every index must fit in
/// a `u32`.
pub const MAX_BUILDER_QUADS: u32 = 0x4000_0000;

/// The largest number of quads a builder can hand out: the number of indices
/// must fit in a `u32`.
pub const MAX_BUILT_QUADS: u32 = 0x2aaa_aaaa;

/// A colour with one byte per channel.
#[derive(Clone, Copy, Debug, PartialEq, Eq, Structural)]
pub struct Rgb {
    pub r: u8,
    pub g: u8,
    pub b: u8,
}

/// One vertex of the mesh: a position and a colour.
#[derive(Clone, Copy, Debug, PartialEq, Eq, Structural)]
pub struct Vertex {
    pub x: i64,
    pub y: i64,
    pub z: i64,
    pub color: Rgb,
}

/// An axis-aligned rectangle given by two opposite corners.
#[derive(Clone, Copy, Debug, PartialEq, Eq, Structural)]
pub struct Rect {
    pub min_x: i64,
    pub min_y: i64,
    pub max_x: i64,
    pub max_y: i64,
}

/// The white vertex at `(x, y, 0)`.
pub open spec fn white_vertex(x: i64, y: i64) -> Vertex {
    Vertex { x, y, z: 0, color: Rgb { r: FULL_CHANNEL, g: FULL_CHANNEL, b: FULL_CHANNEL } }
}

/// The four corners of a rectangle, counter-clockwise from its minimum corner.
pub open spec fn quad_vertices(r: Rect) -> Seq<Vertex> {
    seq![
        white_vertex(r.min_x, r.min_y),
        white_vertex(r.max_x, r.min_y),
        white_vertex(r.max_x, r.max_y),
        white_vertex(r.min_x, r.max_y),
    ]
}

/// The six indices of quad number `q`: two counter-clockwise triangles over
/// its four vertices.
pub open spec fn quad_indices(q: nat) -> Seq<u32> {
    let b = 4 * q;
    seq![b as u32, (b + 1) as u32, (b + 2) as u32, b as u32, (b + 2) as u32, (b + 3) as u32]
}

/// The rectangle of a player, in half steps: its centre less and plus half
/// its size on each axis.
pub open spec fn player_rect(p: Player) -> Rect {
    Rect {
        min_x: (2 * p.position[0] - p.size[0]) as i64,
        min_y: (2 * p.position[1] - p.size[1]) as i64,
        max_x: (2 * p.position[0] + p.size[0]) as i64,
        max_y: (2 * p.position[1] + p.size[1]) as i64,
    }
}

/// The rectangles of a sequence of players, in order.
pub open spec fn player_rects(players: Seq<Player>) -> Seq<Rect> {
    players.map_values(|p: Player| player_rect(p))
}

/// All vertices of a sequence of rectangles, in order.
pub open spec fn mesh_vertices(rects: Seq<Rect>) -> Seq<Vertex>
    decreases rects.len(),
{
    if rects.len() == 0 {
        Seq::empty()
    } else {
        mesh_vertices(rects.drop_last()) + quad_vertices(rects.last())
    }
}

/// All indices of the first `n` quads, in order.
pub open spec fn mesh_indices(n: nat) -> Seq<u32>
    decreases n,
{
    if n == 0 {
        Seq::empty()
    } else {
        mesh_indices((n - 1) as nat) + quad_indices((n - 1) as nat)
    }
}

/// Accumulates quads. `build` consumes the builder, so nothing can be
/// appended once the mesh has been taken out.
pub struct QuadBufferBuilder {
    vertex_data: Vec<Vertex>,
    index_data: Vec<u32>,
    current: u32,
    rects: Ghost<Seq<Rect>>,
}

impl QuadBufferBuilder {
    /// The rectangles pushed so far, in order.
    pub closed spec fn quads(&self) -> Seq<Rect> {
        self.rects@
    }

    /// The vertices accumulated so far.
    pub closed spec fn vertices(&self) -> Seq<Vertex> {
        self.vertex_data@
    }

    /// The indices accumulated so far.
    pub closed spec fn indices(&self) -> Seq<u32> {
        self.index_data@
    }

    /// The builder's arrays are exactly the mesh of its rectangles.
    pub closed spec fn wf(&self) -> bool {
        &&& self.current as int == self.rects@.len()
        &&& self.current <= MAX_BUILDER_QUADS
        &&& self.vertex_data@ == mesh_vertices(self.rects@)
        &&& self.index_data@ == mesh_indices(self.rects@.len())
    }

    /// An empty builder.
    pub fn new() -> (r: Self)
        ensures
            r.wf(),
            r.quads() == Seq::<Rect>::empty(),
            r.vertices() == Seq::<Vertex>::empty(),
            r.indices() == Seq::<u32>::empty(),
    {
        QuadBufferBuilder {
            vertex_data: Vec::new(),
            index_data: Vec::new(),
            current: 0,
            rects: Ghost(Seq::empty()),
        }
    }

    /// How many quads have been pushed.
    pub fn len(&self) -> (r: u32)
        requires
            self.wf(),
        ensures
            r as int == self.quads().len(),
    {
        self.current
    }

    /// Appends the quad with corners `(min_x, min_y)` and `(max_x, max_y)`.
    /// Inverted corners are accepted and give a flipped or degenerate quad.
    pub fn push_quad(&mut self, min_x: i64, min_y: i64, max_x: i64, max_y: i64)
        requires
            old(self).wf(),
            old(self).quads().len() < MAX_BUILDER_QUADS,
        ensures
            final(self).wf(),
            final(self).quads() == old(self).quads().push(
                Rect { min_x, min_y, max_x, max_y },
            ),
            final(self).vertices() == old(self).vertices() + quad_vertices(
                Rect { min_x, min_y, max_x, max_y },
            ),
            final(self).indices() == old(self).indices() + quad_indices(
                old(self).quads().len(),
            ),
            old(self).vertices().len() == 4 * old(self).quads().len(),
    {
        proof {
            lemma_mesh_lengths(self.rects@);
        }
        let ghost r = Rect { min_x, min_y, max_x, max_y };
        let ghost old_v = self.vertex_data@;
        let ghost old_i = self.index_data@;
        let white = Rgb { r: FULL_CHANNEL, g: FULL_CHANNEL, b: FULL_CHANNEL };
        self.vertex_data.push(Vertex { x: min_x, y: min_y, z: 0, color: white });
        self.vertex_data.push(Vertex { x: max_x, y: min_y, z: 0, color: white });
        self.vertex_data.push(Vertex { x: max_x, y: max_y, z: 0, color: white });
        self.vertex_data.push(Vertex { x: min_x, y: max_y, z: 0, color: white });

        let base: u32 = self.current * 4;
        self.index_data.push(base);
        self.index_data.push(base + 1);
        self.index_data.push(base + 2);
        self.index_data.push(base);
        self.index_data.push(base + 2);
        self.index_data.push(base + 3);

        self.current = self.current + 1;
        self.rects = Ghost(self.rects@.push(r));
        proof {
            let rs = self.rects@;
            assert(rs.drop_last() =~= old(self).rects@);
            assert(self.vertex_data@ =~= old_v + quad_vertices(r));
            assert(self.index_data@ =~= old_i + quad_indices(old(self).current as nat));
        }
    }

    /// Appends the quad of a player: centred at its position, with its size.
    pub fn push_player(&mut self, player: &Player)
        requires
            old(self).wf(),
            old(self).quads().len() < MAX_BUILDER_QUADS,
        ensures
            final(self).wf(),
            final(self).quads() == old(self).quads().push(player_rect(*player)),
            final(self).vertices() == old(self).vertices() + quad_vertices(player_rect(*player)),
            final(self).indices() == old(self).indices() + quad_indices(old(self).quads().len()),
    {
        let x = player.position[0] as i64;
        let y = player.position[1] as i64;
        let w = player.size[0] as i64;
        let h = player.size[1] as i64;
        self.push_quad(2 * x - w, 2 * y - h, 2 * x + w, 2 * y + h);
    }

    /// Ends accumulation and hands out the vertices, the indices and the
    /// number of indices.
    pub fn build(self) -> (r: (Vec<Vertex>, Vec<u32>, u32))
        requires
            self.wf(),
            self.quads().len() <= MAX_BUILT_QUADS,
        ensures
            r.0@ == self.vertices(),
            r.1@ == self.indices(),
            r.0@ == mesh_vertices(self.quads()),
            r.1@ == mesh_indices(self.quads().len()),
            r.2 as int == 6 * self.quads().len(),
    {
        proof {
            lemma_mesh_lengths(self.rects@);
        }
        let n: u32 = self.current * 6;
        (self.vertex_data, self.index_data, n)
    }
}

/// A mesh of `n` quads has `4 n` vertices and `6 n` indices.
pub proof fn lemma_mesh_lengths(rects: Seq<Rect>)
    ensures
        mesh_vertices(rects).len() == 4 * rects.len(),
        mesh_indices(rects.len()).len() == 6 * rects.len(),
    decreases rects.len(),
{
    if rects.len() > 0 {
        lemma_mesh_lengths(rects.drop_last());
    }
}

/// Each quad's six indices name its own four vertices and no other: every
/// index lies in `4 q ..= 4 q + 3`, and each of those four vertices is named.
pub proof fn lemma_quad_indices_own_vertices(q: nat)
    requires
        q < MAX_BUILDER_QUADS,
    ensures
        quad_indices(q).len() == 6,
        forall|k: int| 0 <= k < 6 ==> 4 * q <= #[trigger] quad_indices(q)[k] <= 4 * q + 3,
        forall|v: u32| 4 * q <= v <= 4 * q + 3 ==> #[trigger] quad_indices(q).contains(v),
{
    let s = quad_indices(q);
    assert forall|v: u32| 4 * q <= v <= 4 * q + 3 implies #[trigger] s.contains(v) by {
        if v == 4 * q {
            assert(s[0] == v);
        } else if v == 4 * q + 1 {
            assert(s[1] == v);
        } else if v == 4 * q + 2 {
            assert(s[2] == v);
        } else {
            assert(s[5] == v);
        }
    }
}

/// A mesh of `n` quads has `6 n` indices and `4 n` vertices, and every index
/// is below `4 n`: no index points past the vertices.
pub proof fn lemma_mesh_indices_in_bounds(rects: Seq<Rect>)
    requires
        rects.len() <= MAX_BUILDER_QUADS,
    ensures
        mesh_indices(rects.len()).len() == 6 * rects.len(),
        mesh_vertices(rects).len() == 4 * rects.len(),
        forall|i: int|
            0 <= i < 6 * rects.len() ==> #[trigger] mesh_indices(rects.len())[i] < 4
                * rects.len(),
    decreases rects.len(),
{
    lemma_mesh_lengths(rects);
    if rects.len() > 0 {
        let n = rects.len();
        let prev = rects.drop_last();
        lemma_mesh_indices_in_bounds(prev);
        lemma_quad_indices_own_vertices((n - 1) as nat);
        let all = mesh_indices(n);
        assert forall|i: int| 0 <= i < 6 * n implies #[trigger] all[i] < 4 * n by {
            if i < 6 * (n - 1) {
                assert(all[i] == mesh_indices(prev.len())[i]);
            } else {
                assert(all[i] == quad_indices((n - 1) as nat)[i - 6 * (n - 1)]);
            }
        }
    }
}

/// The four vertices of quad `i` of a mesh are the corners of rectangle `i`.
pub proof fn lemma_mesh_quad_at(rects: Seq<Rect>, i: int)
    requires
        0 <= i < rects.len(),
    ensures
        mesh_vertices(rects).subrange(4 * i, 4 * i + 4) == quad_vertices(rects[i]),
    decreases rects.len(),
{
    let prev = rects.drop_last();
    lemma_mesh_lengths(rects);
    lemma_mesh_lengths(prev);
    let m = mesh_vertices(rects);
    if i < rects.len() - 1 {
        lemma_mesh_quad_at(prev, i);
        assert(m.subrange(4 * i, 4 * i + 4) =~= mesh_vertices(prev).subrange(4 * i, 4 * i + 4));
    } else {
        assert(m.subrange(4 * i, 4 * i + 4) =~= quad_vertices(rects.last()));
    }
}

/// The mesh of a list of players holds, for each player in list order, its
/// four corners: centre less and plus half the size on each axis (in half
/// steps, twice the centre less and plus the size).
pub proof fn lemma_player_mesh_corners(players: Seq<Player>, i: int)
    requires
        0 <= i < players.len(),
    ensures
        mesh_vertices(player_rects(players)).len() == 4 * players.len(),
        ({
            let m = mesh_vertices(player_rects(players));
            let p = players[i];
            &&& m[4 * i].x == 2 * p.position[0] - p.size[0]
            &&& m[4 * i].y == 2 * p.position[1] - p.size[1]
            &&& m[4 * i + 1].x == 2 * p.position[0] + p.size[0]
            &&& m[4 * i + 1].y == 2 * p.position[1] - p.size[1]
            &&& m[4 * i + 2].x == 2 * p.position[0] + p.size[0]
            &&& m[4 * i + 2].y == 2 * p.position[1] + p.size[1]
            &&& m[4 * i + 3].x == 2 * p.position[0] - p.size[0]
            &&& m[4 * i + 3].y == 2 * p.position[1] + p.size[1]
        }),
{
    let rects = player_rects(players);
    lemma_mesh_lengths(rects);
    lemma_mesh_quad_at(rects, i);
    let m = mesh_vertices(rects);
    let q = quad_vertices(rects[i]);
    assert(m[4 * i] == m.subrange(4 * i, 4 * i + 4)[0]);
    assert(m[4 * i + 1] == m.subrange(4 * i, 4 * i + 4)[1]);
    assert(m[4 * i + 2] == m.subrange(4 * i, 4 * i + 4)[2]);
    assert(m[4 * i + 3] == m.subrange(4 * i, 4 * i + 4)[3]);
}

} // verus!
