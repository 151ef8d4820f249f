//! Read-only export of body positions as a flat buffer of numbers.

use vstd::prelude::*;
use crate::body::Body;
use crate::scalar::Scalar;
use crate::vec3::Vec3;

verus! {

/// How many components of each position a buffer holds.
#[derive(Clone, Copy, Debug, PartialEq, Eq, Structural)]
pub enum Layout {
    /// `x, y, z` of every body.
    Xyz,
    /// `x, y` of every body: the projection onto the plane `z = 0`.
    Xy,
}

impl Layout {
    /// Numbers written per body.
    pub open spec fn stride(self) -> int {
        match self {
            Layout::Xyz => 3,
            Layout::Xy => 2,
        }
    }

    /// Numbers written per body.
    pub fn components(self) -> (r: usize)
        ensures
            r == self.stride(),
    {
        match self {
            Layout::Xyz => 3,
            Layout::Xy => 2,
        }
    }
}

/// Component `axis` of `p`: 0 is x, 1 is y, anything else is z.
pub open spec fn coordinate(p: Vec3, axis: int) -> Scalar {
    if axis == 0 {
        p.x
    } else if axis == 1 {
        p.y
    } else {
        p.z
    }
}

/// `value` multiplied by the scale factor, or `value` itself where no factor
/// is given.
pub open spec fn rescaled(value: Scalar, scale: Option<Scalar>) -> Scalar {
    match scale {
        Some(factor) => value.product(factor),
        None => value,
    }
}

/// The buffer that extraction yields: for every body in storage order, the
/// first `layout.stride()` components of its position, each rescaled.
pub open spec fn snapshot(bodies: Seq<Body>, layout: Layout, scale: Option<Scalar>) -> Seq<Scalar> {
    Seq::new(
        (layout.stride() * bodies.len()) as nat,
        |k: int|
            rescaled(
                coordinate(bodies[k / layout.stride()].position, k % layout.stride()),
                scale,
            ),
    )
}

/// Applies the optional scale factor to one number.
fn rescale(value: Scalar, scale: Option<Scalar>) -> (r: Scalar)
    ensures
        r == rescaled(value, scale),
{
    match scale {
        Some(factor) => value * factor,
        None => value,
    }
}

/// Empties `out` and fills it with the positions of `bodies`, in storage
/// order. What `out` held before has no effect on what it holds afterwards.
pub fn write_positions(
    bodies: &Vec<Body>,
    layout: Layout,
    scale: Option<Scalar>,
    out: &mut Vec<Scalar>,
)
    ensures
        final(out)@ == snapshot(bodies@, layout, scale),
{
    out.clear();
    let n = bodies.len();
    let mut i: usize = 0;
    while i < n
        invariant
            i <= n,
            n == bodies.len(),
            out.len() == layout.stride() * i,
            forall|k: int|
                0 <= k < out.len() ==> out[k] == rescaled(
                    coordinate(bodies[k / layout.stride()].position, k % layout.stride()),
                    scale,
                ),
        decreases n - i,
    {
        let p = bodies[i].position;
        out.push(rescale(p.x, scale));
        out.push(rescale(p.y, scale));
        match layout {
            Layout::Xyz => {
                out.push(rescale(p.z, scale));
            },
            Layout::Xy => {},
        }
        i += 1;
    }
}

/// The number of points in a buffer of `len` numbers laid out as [`Layout::Xy`],
/// as the signed 32-bit count that a draw call takes. A trailing single number
/// is not counted, and a count too large for 32 bits keeps its low 32 bits.
pub fn point_count(len: usize) -> (count: i32)
    ensures
        count == (len / 2) as i32,
        len / 2 <= i32::MAX ==> count == len / 2,
{
    #[verifier::truncate]
    ((len / 2) as i32)
}

/// A snapshot holds `layout.stride()` numbers for every body.
pub proof fn lemma_snapshot_len(bodies: Seq<Body>, layout: Layout, scale: Option<Scalar>)
    ensures
        snapshot(bodies, layout, scale).len() == layout.stride() * bodies.len(),
{
}

/// Component `axis` of body `i` stands at index `layout.stride() * i + axis` of
/// a snapshot. With a scale factor it is the engine's coordinate multiplied by
/// the factor; without one it is the engine's coordinate.
pub proof fn lemma_snapshot_entry(
    bodies: Seq<Body>,
    layout: Layout,
    scale: Option<Scalar>,
    i: int,
    axis: int,
)
    requires
        0 <= i < bodies.len(),
        0 <= axis < layout.stride(),
    ensures
        0 <= layout.stride() * i + axis < snapshot(bodies, layout, scale).len(),
        scale matches Some(factor) ==> snapshot(bodies, layout, scale)[layout.stride() * i + axis]
            == coordinate(bodies[i].position, axis).product(factor),
        scale is None ==> snapshot(bodies, layout, scale)[layout.stride() * i + axis]
            == coordinate(bodies[i].position, axis),
{
    let k = layout.stride() * i + axis;
    match layout {
        Layout::Xyz => {
            assert(k / 3 == i && k % 3 == axis);
        },
        Layout::Xy => {
            assert(k / 2 == i && k % 2 == axis);
        },
    }
}

} // verus!
