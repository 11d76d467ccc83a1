use vstd::prelude::*;

verus! {

/// Triangles in the cube's fixed geometry.
pub const CUBE_TRIANGLES: i32 = 12;

/// Vertices handed to one draw call of the cube: three per triangle.
pub const CUBE_VERTICES: i32 = 36;

/// Bytes in one component of a vertex attribute (a 32-bit float).
pub const COMPONENT_BYTES: usize = 4;

/// The byte size of a buffer of `count` vertex components, as the backend's
/// signed size type holds it; `None` where that size does not fit.
pub fn buffer_bytes(count: usize) -> (r: Option<isize>)
    ensures
        r is Some <==> COMPONENT_BYTES * count <= isize::MAX,
        r matches Some(n) ==> n == COMPONENT_BYTES * count,
{
    if count > (isize::MAX as usize) / COMPONENT_BYTES {
        None
    } else {
        Some((COMPONENT_BYTES * count) as isize)
    }
}

/// The two cubes of the scene: the one at the origin and the one moved to
/// its right.
#[derive(Clone, Copy, Debug, PartialEq, Eq, Structural)]
pub enum Cube {
    Left,
    Right,
}

/// One operation of a frame: turn a cube's model transform by the fixed
/// rotation step, or draw a cube with its current transform.
#[derive(Clone, Copy, Debug, PartialEq, Eq, Structural)]
pub enum DrawOp {
    Rotate(Cube),
    Draw(Cube),
}

/// The operations of a frame, given which mouse buttons are held. The first
/// button turns the left cube before both are drawn; the second draws the
/// left cube, turns the right one and draws it; with both held the two
/// sequences run in that order; with neither both cubes are drawn as they are.
pub open spec fn frame_plan(left_active: bool, right_active: bool) -> Seq<DrawOp> {
    let first = if left_active {
        seq![DrawOp::Rotate(Cube::Left), DrawOp::Draw(Cube::Left), DrawOp::Draw(Cube::Right)]
    } else {
        Seq::<DrawOp>::empty()
    };
    let second = if right_active {
        seq![DrawOp::Draw(Cube::Left), DrawOp::Rotate(Cube::Right), DrawOp::Draw(Cube::Right)]
    } else {
        Seq::<DrawOp>::empty()
    };
    let idle = if !left_active && !right_active {
        seq![DrawOp::Draw(Cube::Left), DrawOp::Draw(Cube::Right)]
    } else {
        Seq::<DrawOp>::empty()
    };
    first + second + idle
}

/// The operations of a frame, in the order they are carried out.
pub fn draw_plan(left_active: bool, right_active: bool) -> (r: Vec<DrawOp>)
    ensures
        r@ == frame_plan(left_active, right_active),
{
    let mut r: Vec<DrawOp> = Vec::new();
    if left_active {
        r.push(DrawOp::Rotate(Cube::Left));
        r.push(DrawOp::Draw(Cube::Left));
        r.push(DrawOp::Draw(Cube::Right));
    }
    if right_active {
        r.push(DrawOp::Draw(Cube::Left));
        r.push(DrawOp::Rotate(Cube::Right));
        r.push(DrawOp::Draw(Cube::Right));
    }
    if !left_active && !right_active {
        r.push(DrawOp::Draw(Cube::Left));
        r.push(DrawOp::Draw(Cube::Right));
    }
    assert(r@ =~= frame_plan(left_active, right_active));
    r
}

/// Every frame draws both cubes, and a cube is drawn only after any turn it
/// gets in the same sequence: each rotation is directly followed by a draw of
/// the same cube.
pub proof fn lemma_frame_draws_both(left_active: bool, right_active: bool)
    ensures
        frame_plan(left_active, right_active).contains(DrawOp::Draw(Cube::Left)),
        frame_plan(left_active, right_active).contains(DrawOp::Draw(Cube::Right)),
        forall|i: int|
            0 <= i < frame_plan(left_active, right_active).len() && (#[trigger] frame_plan(
                left_active,
                right_active,
            )[i]) is Rotate ==> i + 1 < frame_plan(left_active, right_active).len() && frame_plan(
                left_active,
                right_active,
            )[i + 1] == DrawOp::Draw(frame_plan(left_active, right_active)[i]->Rotate_0),
{
    let p = frame_plan(left_active, right_active);
    if left_active {
        assert(p[1] == DrawOp::Draw(Cube::Left));
        assert(p[2] == DrawOp::Draw(Cube::Right));
    } else if right_active {
        assert(p[0] == DrawOp::Draw(Cube::Left));
        assert(p[2] == DrawOp::Draw(Cube::Right));
    } else {
        assert(p[0] == DrawOp::Draw(Cube::Left));
        assert(p[1] == DrawOp::Draw(Cube::Right));
    }
}

} // verus!
