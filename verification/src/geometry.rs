//! Procedural cube geometry: 36 unindexed vertices (6 faces, 2 triangles
//! each) for a cube spanning -1..1 on every axis, with one constant color
//! per face and outward triangle winding.
//!
//! Each face is named by an index `f` in `0..6`: its fixed axis is
//! `f % 3` (x, y, z) and the face sits on the negative side of that axis
//! for `f < 3`, on the positive side for `f >= 3`. The two varying
//! coordinates run over the square's corners in an order whose winding is
//! mirrored between the two sides, so every triangle's normal points away
//! from the cube's center.

use vstd::prelude::*;

verus! {

/// A cube corner: every coordinate is exactly -1 or 1.
#[derive(Clone, Copy, Debug, PartialEq, Eq, Structural)]
pub struct Vertex {
    pub x: i32,
    pub y: i32,
    pub z: i32,
}

/// An RGB color with one bit per channel (the renderer maps 1 to full
/// intensity).
#[derive(Clone, Copy, Debug, PartialEq, Eq, Structural)]
pub struct Color {
    pub r: u8,
    pub g: u8,
    pub b: u8,
}

/// The sign of a face's fixed axis: -1 for the first three faces, 1 for
/// the last three.
pub open spec fn face_sign(f: int) -> int {
    if f >= 3 {
        1
    } else {
        -1
    }
}

/// First varying coordinate of corner `s` of a positive face, `s` in
/// `0..6`: the corners (-1,-1), (1,-1), (1,1) of the first triangle, then
/// (-1,-1), (1,1), (-1,1) of the second, in counter-clockwise order.
pub open spec fn corner_u(s: int) -> int {
    if s == 1 || s == 2 || s == 4 {
        1
    } else {
        -1
    }
}

/// Second varying coordinate of corner `s` of a positive face.
pub open spec fn corner_v(s: int) -> int {
    if s == 2 || s == 4 || s == 5 {
        1
    } else {
        -1
    }
}

/// First varying coordinate of corner `s` of face `f`. Negative faces
/// swap the two varying coordinates, which mirrors the winding.
pub open spec fn face_u(f: int, s: int) -> int {
    if f >= 3 {
        corner_u(s)
    } else {
        corner_v(s)
    }
}

/// Second varying coordinate of corner `s` of face `f`.
pub open spec fn face_v(f: int, s: int) -> int {
    if f >= 3 {
        corner_v(s)
    } else {
        corner_u(s)
    }
}

/// Corner `s` of face `f`: the fixed axis `f % 3` carries the face's
/// sign; the varying coordinates go on the next two axes in cyclic order.
pub open spec fn face_vertex(f: int, s: int) -> Vertex {
    let u = face_u(f, s);
    let v = face_v(f, s);
    if f % 3 == 0 {
        Vertex { x: face_sign(f) as i32, y: u as i32, z: v as i32 }
    } else if f % 3 == 1 {
        Vertex { x: v as i32, y: face_sign(f) as i32, z: u as i32 }
    } else {
        Vertex { x: u as i32, y: v as i32, z: face_sign(f) as i32 }
    }
}

/// The color of face `f`: the three bits of `f + 1`, one per channel.
/// The offset of one keeps the first face from being black.
pub open spec fn face_color(f: int) -> Color {
    Color {
        r: ((f + 1) % 2) as u8,
        g: (((f + 1) / 2) % 2) as u8,
        b: (((f + 1) / 4) % 2) as u8,
    }
}

/// A vertex coordinate selected by axis index (0, 1, 2 for x, y, z).
pub open spec fn coord(p: Vertex, axis: int) -> int {
    if axis == 0 {
        p.x as int
    } else if axis == 1 {
        p.y as int
    } else {
        p.z as int
    }
}

/// X component of `(b - a) x (c - a)`, the normal of triangle `(a, b, c)`.
pub open spec fn triangle_normal_x(a: Vertex, b: Vertex, c: Vertex) -> int {
    (b.y - a.y) * (c.z - a.z) - (b.z - a.z) * (c.y - a.y)
}

/// Y component of `(b - a) x (c - a)`.
pub open spec fn triangle_normal_y(a: Vertex, b: Vertex, c: Vertex) -> int {
    (b.z - a.z) * (c.x - a.x) - (b.x - a.x) * (c.z - a.z)
}

/// Z component of `(b - a) x (c - a)`.
pub open spec fn triangle_normal_z(a: Vertex, b: Vertex, c: Vertex) -> int {
    (b.x - a.x) * (c.y - a.y) - (b.y - a.y) * (c.x - a.x)
}

/// Corner `s` of face `f`, computed.
fn vertex_at(f: usize, s: usize) -> (p: Vertex)
    requires
        f < 6,
        s < 6,
    ensures
        p == face_vertex(f as int, s as int),
{
    let positive: bool = f >= 3;
    let cu: i32 = if s == 1 || s == 2 || s == 4 {
        1
    } else {
        -1
    };
    let cv: i32 = if s == 2 || s == 4 || s == 5 {
        1
    } else {
        -1
    };
    let u: i32 = if positive {
        cu
    } else {
        cv
    };
    let v: i32 = if positive {
        cv
    } else {
        cu
    };
    let sign: i32 = if positive {
        1
    } else {
        -1
    };
    let axis: usize = f % 3;
    if axis == 0 {
        Vertex { x: sign, y: u, z: v }
    } else if axis == 1 {
        Vertex { x: v, y: sign, z: u }
    } else {
        Vertex { x: u, y: v, z: sign }
    }
}

/// The color of face `f`, computed.
fn color_at(f: usize) -> (c: Color)
    requires
        f < 6,
    ensures
        c == face_color(f as int),
{
    let code: usize = f + 1;
    Color { r: (code % 2) as u8, g: ((code / 2) % 2) as u8, b: ((code / 4) % 2) as u8 }
}

/// The cube's 36 vertex positions, face by face, triangle by triangle,
/// ready for a non-indexed triangle-list draw.
pub fn cube_positions() -> (out: Vec<Vertex>)
    ensures
        out@.len() == 36,
        forall|n: int| 0 <= n < 36 ==> out@[n] == face_vertex(n / 6, n % 6),
{
    let mut out: Vec<Vertex> = Vec::new();
    let mut f: usize = 0;
    while f < 6
        invariant
            f <= 6,
            out@.len() == 6 * f,
            forall|n: int| 0 <= n < out@.len() ==> out@[n] == face_vertex(n / 6, n % 6),
        decreases 6 - f,
    {
        let mut s: usize = 0;
        while s < 6
            invariant
                f < 6,
                s <= 6,
                out@.len() == 6 * f + s,
                forall|n: int| 0 <= n < out@.len() ==> out@[n] == face_vertex(n / 6, n % 6),
            decreases 6 - s,
        {
            out.push(vertex_at(f, s));
            s = s + 1;
        }
        f = f + 1;
    }
    out
}

/// The cube's 36 vertex colors, aligned index by index with
/// [`cube_positions`]: all six vertices of face `f` carry `face_color(f)`.
pub fn cube_colors() -> (out: Vec<Color>)
    ensures
        out@.len() == 36,
        forall|n: int| 0 <= n < 36 ==> out@[n] == face_color(n / 6),
{
    let mut out: Vec<Color> = Vec::new();
    let mut f: usize = 0;
    while f < 6
        invariant
            f <= 6,
            out@.len() == 6 * f,
            forall|n: int| 0 <= n < out@.len() ==> out@[n] == face_color(n / 6),
        decreases 6 - f,
    {
        let color: Color = color_at(f);
        let mut s: usize = 0;
        while s < 6
            invariant
                f < 6,
                s <= 6,
                out@.len() == 6 * f + s,
                color == face_color(f as int),
                forall|n: int| 0 <= n < out@.len() ==> out@[n] == face_color(n / 6),
            decreases 6 - s,
        {
            out.push(color);
            s = s + 1;
        }
        f = f + 1;
    }
    out
}

/// Law: every coordinate of every generated vertex is exactly -1 or 1,
/// and the face's fixed axis carries the face's sign on all six of its
/// vertices.
pub proof fn lemma_cube_coords(f: int, s: int)
    requires
        0 <= f < 6,
        0 <= s < 6,
    ensures
        face_vertex(f, s).x == -1 || face_vertex(f, s).x == 1,
        face_vertex(f, s).y == -1 || face_vertex(f, s).y == 1,
        face_vertex(f, s).z == -1 || face_vertex(f, s).z == 1,
        coord(face_vertex(f, s), f % 3) == face_sign(f),
{
}

/// Multiplication evaluated by congruence: once both factors are known
/// values, the product is the product of those values.
proof fn lemma_mul_eval(x: int, y: int, xv: int, yv: int)
    requires
        x == xv,
        y == yv,
    ensures
        x * y == xv * yv,
{
}

/// Winding of the two triangles of face 0.
proof fn lemma_winding_face0(t: int)
    requires
        0 <= t < 2,
    ensures
        triangle_normal_x(face_vertex(0, 3 * t), face_vertex(0, 3 * t + 1), face_vertex(0, 3 * t + 2)) == -4,
        triangle_normal_y(face_vertex(0, 3 * t), face_vertex(0, 3 * t + 1), face_vertex(0, 3 * t + 2)) == 0,
        triangle_normal_z(face_vertex(0, 3 * t), face_vertex(0, 3 * t + 1), face_vertex(0, 3 * t + 2)) == 0,
{
    if t == 0 {
        let a: Vertex = face_vertex(0, 0);
        let b: Vertex = face_vertex(0, 1);
        let c: Vertex = face_vertex(0, 2);
        lemma_mul_eval(b.y - a.y, c.z - a.z, 0, 2);
        lemma_mul_eval(b.z - a.z, c.y - a.y, 2, 2);
        lemma_mul_eval(b.z - a.z, c.x - a.x, 2, 0);
        lemma_mul_eval(b.x - a.x, c.z - a.z, 0, 2);
        lemma_mul_eval(b.x - a.x, c.y - a.y, 0, 2);
        lemma_mul_eval(b.y - a.y, c.x - a.x, 0, 0);
        assert(triangle_normal_x(a, b, c) == -4);
        assert(triangle_normal_y(a, b, c) == 0);
        assert(triangle_normal_z(a, b, c) == 0);
    } else {
        let a: Vertex = face_vertex(0, 3);
        let b: Vertex = face_vertex(0, 4);
        let c: Vertex = face_vertex(0, 5);
        lemma_mul_eval(b.y - a.y, c.z - a.z, 2, 0);
        lemma_mul_eval(b.z - a.z, c.y - a.y, 2, 2);
        lemma_mul_eval(b.z - a.z, c.x - a.x, 2, 0);
        lemma_mul_eval(b.x - a.x, c.z - a.z, 0, 0);
        lemma_mul_eval(b.x - a.x, c.y - a.y, 0, 2);
        lemma_mul_eval(b.y - a.y, c.x - a.x, 2, 0);
        assert(triangle_normal_x(a, b, c) == -4);
        assert(triangle_normal_y(a, b, c) == 0);
        assert(triangle_normal_z(a, b, c) == 0);
    }
}

/// Winding of the two triangles of face 1.
proof fn lemma_winding_face1(t: int)
    requires
        0 <= t < 2,
    ensures
        triangle_normal_x(face_vertex(1, 3 * t), face_vertex(1, 3 * t + 1), face_vertex(1, 3 * t + 2)) == 0,
        triangle_normal_y(face_vertex(1, 3 * t), face_vertex(1, 3 * t + 1), face_vertex(1, 3 * t + 2)) == -4,
        triangle_normal_z(face_vertex(1, 3 * t), face_vertex(1, 3 * t + 1), face_vertex(1, 3 * t + 2)) == 0,
{
    if t == 0 {
        let a: Vertex = face_vertex(1, 0);
        let b: Vertex = face_vertex(1, 1);
        let c: Vertex = face_vertex(1, 2);
        lemma_mul_eval(b.y - a.y, c.z - a.z, 0, 2);
        lemma_mul_eval(b.z - a.z, c.y - a.y, 0, 0);
        lemma_mul_eval(b.z - a.z, c.x - a.x, 0, 2);
        lemma_mul_eval(b.x - a.x, c.z - a.z, 2, 2);
        lemma_mul_eval(b.x - a.x, c.y - a.y, 2, 0);
        lemma_mul_eval(b.y - a.y, c.x - a.x, 0, 2);
        assert(triangle_normal_x(a, b, c) == 0);
        assert(triangle_normal_y(a, b, c) == -4);
        assert(triangle_normal_z(a, b, c) == 0);
    } else {
        let a: Vertex = face_vertex(1, 3);
        let b: Vertex = face_vertex(1, 4);
        let c: Vertex = face_vertex(1, 5);
        lemma_mul_eval(b.y - a.y, c.z - a.z, 0, 2);
        lemma_mul_eval(b.z - a.z, c.y - a.y, 2, 0);
        lemma_mul_eval(b.z - a.z, c.x - a.x, 2, 0);
        lemma_mul_eval(b.x - a.x, c.z - a.z, 2, 2);
        lemma_mul_eval(b.x - a.x, c.y - a.y, 2, 0);
        lemma_mul_eval(b.y - a.y, c.x - a.x, 0, 0);
        assert(triangle_normal_x(a, b, c) == 0);
        assert(triangle_normal_y(a, b, c) == -4);
        assert(triangle_normal_z(a, b, c) == 0);
    }
}

/// Winding of the two triangles of face 2.
proof fn lemma_winding_face2(t: int)
    requires
        0 <= t < 2,
    ensures
        triangle_normal_x(face_vertex(2, 3 * t), face_vertex(2, 3 * t + 1), face_vertex(2, 3 * t + 2)) == 0,
        triangle_normal_y(face_vertex(2, 3 * t), face_vertex(2, 3 * t + 1), face_vertex(2, 3 * t + 2)) == 0,
        triangle_normal_z(face_vertex(2, 3 * t), face_vertex(2, 3 * t + 1), face_vertex(2, 3 * t + 2)) == -4,
{
    if t == 0 {
        let a: Vertex = face_vertex(2, 0);
        let b: Vertex = face_vertex(2, 1);
        let c: Vertex = face_vertex(2, 2);
        lemma_mul_eval(b.y - a.y, c.z - a.z, 2, 0);
        lemma_mul_eval(b.z - a.z, c.y - a.y, 0, 2);
        lemma_mul_eval(b.z - a.z, c.x - a.x, 0, 2);
        lemma_mul_eval(b.x - a.x, c.z - a.z, 0, 0);
        lemma_mul_eval(b.x - a.x, c.y - a.y, 0, 2);
        lemma_mul_eval(b.y - a.y, c.x - a.x, 2, 2);
        assert(triangle_normal_x(a, b, c) == 0);
        assert(triangle_normal_y(a, b, c) == 0);
        assert(triangle_normal_z(a, b, c) == -4);
    } else {
        let a: Vertex = face_vertex(2, 3);
        let b: Vertex = face_vertex(2, 4);
        let c: Vertex = face_vertex(2, 5);
        lemma_mul_eval(b.y - a.y, c.z - a.z, 2, 0);
        lemma_mul_eval(b.z - a.z, c.y - a.y, 0, 0);
        lemma_mul_eval(b.z - a.z, c.x - a.x, 0, 2);
        lemma_mul_eval(b.x - a.x, c.z - a.z, 2, 0);
        lemma_mul_eval(b.x - a.x, c.y - a.y, 2, 0);
        lemma_mul_eval(b.y - a.y, c.x - a.x, 2, 2);
        assert(triangle_normal_x(a, b, c) == 0);
        assert(triangle_normal_y(a, b, c) == 0);
        assert(triangle_normal_z(a, b, c) == -4);
    }
}

/// Winding of the two triangles of face 3.
proof fn lemma_winding_face3(t: int)
    requires
        0 <= t < 2,
    ensures
        triangle_normal_x(face_vertex(3, 3 * t), face_vertex(3, 3 * t + 1), face_vertex(3, 3 * t + 2)) == 4,
        triangle_normal_y(face_vertex(3, 3 * t), face_vertex(3, 3 * t + 1), face_vertex(3, 3 * t + 2)) == 0,
        triangle_normal_z(face_vertex(3, 3 * t), face_vertex(3, 3 * t + 1), face_vertex(3, 3 * t + 2)) == 0,
{
    if t == 0 {
        let a: Vertex = face_vertex(3, 0);
        let b: Vertex = face_vertex(3, 1);
        let c: Vertex = face_vertex(3, 2);
        lemma_mul_eval(b.y - a.y, c.z - a.z, 2, 2);
        lemma_mul_eval(b.z - a.z, c.y - a.y, 0, 2);
        lemma_mul_eval(b.z - a.z, c.x - a.x, 0, 0);
        lemma_mul_eval(b.x - a.x, c.z - a.z, 0, 2);
        lemma_mul_eval(b.x - a.x, c.y - a.y, 0, 2);
        lemma_mul_eval(b.y - a.y, c.x - a.x, 2, 0);
        assert(triangle_normal_x(a, b, c) == 4);
        assert(triangle_normal_y(a, b, c) == 0);
        assert(triangle_normal_z(a, b, c) == 0);
    } else {
        let a: Vertex = face_vertex(3, 3);
        let b: Vertex = face_vertex(3, 4);
        let c: Vertex = face_vertex(3, 5);
        lemma_mul_eval(b.y - a.y, c.z - a.z, 2, 2);
        lemma_mul_eval(b.z - a.z, c.y - a.y, 2, 0);
        lemma_mul_eval(b.z - a.z, c.x - a.x, 2, 0);
        lemma_mul_eval(b.x - a.x, c.z - a.z, 0, 2);
        lemma_mul_eval(b.x - a.x, c.y - a.y, 0, 0);
        lemma_mul_eval(b.y - a.y, c.x - a.x, 2, 0);
        assert(triangle_normal_x(a, b, c) == 4);
        assert(triangle_normal_y(a, b, c) == 0);
        assert(triangle_normal_z(a, b, c) == 0);
    }
}

/// Winding of the two triangles of face 4.
proof fn lemma_winding_face4(t: int)
    requires
        0 <= t < 2,
    ensures
        triangle_normal_x(face_vertex(4, 3 * t), face_vertex(4, 3 * t + 1), face_vertex(4, 3 * t + 2)) == 0,
        triangle_normal_y(face_vertex(4, 3 * t), face_vertex(4, 3 * t + 1), face_vertex(4, 3 * t + 2)) == 4,
        triangle_normal_z(face_vertex(4, 3 * t), face_vertex(4, 3 * t + 1), face_vertex(4, 3 * t + 2)) == 0,
{
    if t == 0 {
        let a: Vertex = face_vertex(4, 0);
        let b: Vertex = face_vertex(4, 1);
        let c: Vertex = face_vertex(4, 2);
        lemma_mul_eval(b.y - a.y, c.z - a.z, 0, 2);
        lemma_mul_eval(b.z - a.z, c.y - a.y, 2, 0);
        lemma_mul_eval(b.z - a.z, c.x - a.x, 2, 2);
        lemma_mul_eval(b.x - a.x, c.z - a.z, 0, 2);
        lemma_mul_eval(b.x - a.x, c.y - a.y, 0, 0);
        lemma_mul_eval(b.y - a.y, c.x - a.x, 0, 2);
        assert(triangle_normal_x(a, b, c) == 0);
        assert(triangle_normal_y(a, b, c) == 4);
        assert(triangle_normal_z(a, b, c) == 0);
    } else {
        let a: Vertex = face_vertex(4, 3);
        let b: Vertex = face_vertex(4, 4);
        let c: Vertex = face_vertex(4, 5);
        lemma_mul_eval(b.y - a.y, c.z - a.z, 0, 0);
        lemma_mul_eval(b.z - a.z, c.y - a.y, 2, 0);
        lemma_mul_eval(b.z - a.z, c.x - a.x, 2, 2);
        lemma_mul_eval(b.x - a.x, c.z - a.z, 2, 0);
        lemma_mul_eval(b.x - a.x, c.y - a.y, 2, 0);
        lemma_mul_eval(b.y - a.y, c.x - a.x, 0, 2);
        assert(triangle_normal_x(a, b, c) == 0);
        assert(triangle_normal_y(a, b, c) == 4);
        assert(triangle_normal_z(a, b, c) == 0);
    }
}

/// Winding of the two triangles of face 5.
proof fn lemma_winding_face5(t: int)
    requires
        0 <= t < 2,
    ensures
        triangle_normal_x(face_vertex(5, 3 * t), face_vertex(5, 3 * t + 1), face_vertex(5, 3 * t + 2)) == 0,
        triangle_normal_y(face_vertex(5, 3 * t), face_vertex(5, 3 * t + 1), face_vertex(5, 3 * t + 2)) == 0,
        triangle_normal_z(face_vertex(5, 3 * t), face_vertex(5, 3 * t + 1), face_vertex(5, 3 * t + 2)) == 4,
{
    if t == 0 {
        let a: Vertex = face_vertex(5, 0);
        let b: Vertex = face_vertex(5, 1);
        let c: Vertex = face_vertex(5, 2);
        lemma_mul_eval(b.y - a.y, c.z - a.z, 0, 0);
        lemma_mul_eval(b.z - a.z, c.y - a.y, 0, 2);
        lemma_mul_eval(b.z - a.z, c.x - a.x, 0, 2);
        lemma_mul_eval(b.x - a.x, c.z - a.z, 2, 0);
        lemma_mul_eval(b.x - a.x, c.y - a.y, 2, 2);
        lemma_mul_eval(b.y - a.y, c.x - a.x, 0, 2);
        assert(triangle_normal_x(a, b, c) == 0);
        assert(triangle_normal_y(a, b, c) == 0);
        assert(triangle_normal_z(a, b, c) == 4);
    } else {
        let a: Vertex = face_vertex(5, 3);
        let b: Vertex = face_vertex(5, 4);
        let c: Vertex = face_vertex(5, 5);
        lemma_mul_eval(b.y - a.y, c.z - a.z, 2, 0);
        lemma_mul_eval(b.z - a.z, c.y - a.y, 0, 2);
        lemma_mul_eval(b.z - a.z, c.x - a.x, 0, 0);
        lemma_mul_eval(b.x - a.x, c.z - a.z, 2, 0);
        lemma_mul_eval(b.x - a.x, c.y - a.y, 2, 2);
        lemma_mul_eval(b.y - a.y, c.x - a.x, 2, 0);
        assert(triangle_normal_x(a, b, c) == 0);
        assert(triangle_normal_y(a, b, c) == 0);
        assert(triangle_normal_z(a, b, c) == 4);
    }
}

/// Law: the triangles wind outward. For each face `f` and each of its
/// two triangles, the edge cross product is exactly four times the unit
/// vector of the face's fixed axis, pointing in the direction of the
/// face's sign (away from the cube's center).
pub proof fn lemma_cube_winding(f: int, t: int)
    requires
        0 <= f < 6,
        0 <= t < 2,
    ensures
        ({
            let a = face_vertex(f, 3 * t);
            let b = face_vertex(f, 3 * t + 1);
            let c = face_vertex(f, 3 * t + 2);
            &&& triangle_normal_x(a, b, c) == if f % 3 == 0 {
                4 * face_sign(f)
            } else {
                0
            }
            &&& triangle_normal_y(a, b, c) == if f % 3 == 1 {
                4 * face_sign(f)
            } else {
                0
            }
            &&& triangle_normal_z(a, b, c) == if f % 3 == 2 {
                4 * face_sign(f)
            } else {
                0
            }
        }),
{
    if f == 0 {
        lemma_winding_face0(t);
    } else if f == 1 {
        lemma_winding_face1(t);
    } else if f == 2 {
        lemma_winding_face2(t);
    } else if f == 3 {
        lemma_winding_face3(t);
    } else if f == 4 {
        lemma_winding_face4(t);
    } else if f == 5 {
        lemma_winding_face5(t);
    } else {
        assert(false);
    }
}

/// Law: each face's two triangles cover the whole square: every one of
/// the four corners appears among the face's six vertices.
pub proof fn lemma_face_covers_square(f: int, a: int, b: int)
    requires
        0 <= f < 6,
        a == -1 || a == 1,
        b == -1 || b == 1,
    ensures
        exists|s: int| 0 <= s < 6 && #[trigger] face_u(f, s) == a && face_v(f, s) == b,
{
    if a == -1 && b == -1 {
        assert(face_u(f, 0) == a && face_v(f, 0) == b);
        assert(0 <= 0int < 6 && face_u(f, 0int) == a && face_v(f, 0int) == b);
    } else if a == 1 && b == 1 {
        assert(0 <= 2int < 6 && face_u(f, 2int) == a && face_v(f, 2int) == b);
    } else if a == 1 {
        if f >= 3 {
            assert(0 <= 1int < 6 && face_u(f, 1int) == a && face_v(f, 1int) == b);
        } else {
            assert(0 <= 5int < 6 && face_u(f, 5int) == a && face_v(f, 5int) == b);
        }
    } else {
        if f >= 3 {
            assert(0 <= 5int < 6 && face_u(f, 5int) == a && face_v(f, 5int) == b);
        } else {
            assert(0 <= 1int < 6 && face_u(f, 1int) == a && face_v(f, 1int) == b);
        }
    }
}

/// Law: the six face colors are pairwise distinct.
pub proof fn lemma_face_colors_distinct(f1: int, f2: int)
    requires
        0 <= f1 < 6,
        0 <= f2 < 6,
        f1 != f2,
    ensures
        face_color(f1) != face_color(f2),
{
}

/// Law: no face color is black.
pub proof fn lemma_face_colors_nonzero(f: int)
    requires
        0 <= f < 6,
    ensures
        face_color(f).r == 1 || face_color(f).g == 1 || face_color(f).b == 1,
{
}

} // verus!
