//! The six face parameterizations of the cube.
//!
//! Every face is sampled by one and the same two-variable sweep: `u` and `v`
//! each run over `[-half, +half)` in small steps. What distinguishes the
//! faces is how the sweep pair is placed into model space: each of the three
//! model coordinates of a sample is one of `u`, `-u`, `v`, `-v`, `+half` or
//! `-half`, and each face carries its own display glyph. This module holds
//! that assignment as a data table so that the sampler treats all six faces
//! uniformly.

use vstd::prelude::*;

verus! {

/// How one model-space coordinate of a face sample is produced from the
/// sweep pair `(u, v)` and the cube's half-width.
#[derive(Clone, Copy, Debug, PartialEq, Eq, Structural)]
pub enum CoordRule {
    /// The coordinate is the first sweep variable, `u`.
    PlusU,
    /// The coordinate is the negated first sweep variable, `-u`.
    MinusU,
    /// The coordinate is the second sweep variable, `v`.
    PlusV,
    /// The coordinate is the negated second sweep variable, `-v`.
    MinusV,
    /// The coordinate is pinned to `+half`.
    PlusHalf,
    /// The coordinate is pinned to `-half`.
    MinusHalf,
}

/// One face of the cube: a rule for each of the three model coordinates of
/// a sample, and the glyph that marks the face on screen.
#[derive(Clone, Copy, Debug, PartialEq, Eq, Structural)]
pub struct FaceDescriptor {
    /// Rule for the first model coordinate of a sample point.
    pub i_rule: CoordRule,
    /// Rule for the second model coordinate of a sample point.
    pub j_rule: CoordRule,
    /// Rule for the third model coordinate of a sample point.
    pub k_rule: CoordRule,
    /// Display character identifying this face.
    pub glyph: char,
}

/// Value of a coordinate rule at sweep position `(u, v)` with the given
/// half-width, as an exact scalar.
pub open spec fn rule_value(r: CoordRule, u: int, v: int, half: int) -> int {
    match r {
        CoordRule::PlusU => u,
        CoordRule::MinusU => -u,
        CoordRule::PlusV => v,
        CoordRule::MinusV => -v,
        CoordRule::PlusHalf => half,
        CoordRule::MinusHalf => -half,
    }
}

/// Model-space sample point of a face at sweep position `(u, v)`.
pub open spec fn sample_point(f: FaceDescriptor, u: int, v: int, half: int) -> (int, int, int) {
    (
        rule_value(f.i_rule, u, v, half),
        rule_value(f.j_rule, u, v, half),
        rule_value(f.k_rule, u, v, half),
    )
}

/// The canonical table of the six faces, in the order the sampler visits
/// them within one sweep position.
pub open spec fn face_layout() -> Seq<FaceDescriptor> {
    seq![
        (FaceDescriptor { i_rule: CoordRule::PlusU, j_rule: CoordRule::PlusV, k_rule: CoordRule::MinusHalf, glyph: '*' }),
        (FaceDescriptor { i_rule: CoordRule::PlusHalf, j_rule: CoordRule::PlusV, k_rule: CoordRule::PlusU, glyph: '&' }),
        (FaceDescriptor { i_rule: CoordRule::MinusHalf, j_rule: CoordRule::PlusV, k_rule: CoordRule::MinusU, glyph: '$' }),
        (FaceDescriptor { i_rule: CoordRule::MinusU, j_rule: CoordRule::PlusV, k_rule: CoordRule::PlusHalf, glyph: '#' }),
        (FaceDescriptor { i_rule: CoordRule::PlusU, j_rule: CoordRule::MinusHalf, k_rule: CoordRule::MinusV, glyph: '@' }),
        (FaceDescriptor { i_rule: CoordRule::PlusU, j_rule: CoordRule::PlusHalf, k_rule: CoordRule::PlusV, glyph: '+' }),
    ]
}

/// Build the face table for the sampler to iterate over.
pub fn face_table() -> (t: Vec<FaceDescriptor>)
    ensures
        t@ == face_layout(),
{
    let mut t: Vec<FaceDescriptor> = Vec::new();
    t.push(FaceDescriptor { i_rule: CoordRule::PlusU, j_rule: CoordRule::PlusV, k_rule: CoordRule::MinusHalf, glyph: '*' });
    t.push(FaceDescriptor { i_rule: CoordRule::PlusHalf, j_rule: CoordRule::PlusV, k_rule: CoordRule::PlusU, glyph: '&' });
    t.push(FaceDescriptor { i_rule: CoordRule::MinusHalf, j_rule: CoordRule::PlusV, k_rule: CoordRule::MinusU, glyph: '$' });
    t.push(FaceDescriptor { i_rule: CoordRule::MinusU, j_rule: CoordRule::PlusV, k_rule: CoordRule::PlusHalf, glyph: '#' });
    t.push(FaceDescriptor { i_rule: CoordRule::PlusU, j_rule: CoordRule::MinusHalf, k_rule: CoordRule::MinusV, glyph: '@' });
    t.push(FaceDescriptor { i_rule: CoordRule::PlusU, j_rule: CoordRule::PlusHalf, k_rule: CoordRule::PlusV, glyph: '+' });
    proof {
        assert(t@ =~= face_layout());
    }
    t
}

/// A rule pins a coordinate exactly when it does not depend on the sweep
/// pair at all.
pub open spec fn rule_is_pinned(r: CoordRule) -> bool {
    r == CoordRule::PlusHalf || r == CoordRule::MinusHalf
}

/// Every face of the table pins exactly one model coordinate to a cube
/// boundary and sweeps the other two, and no two faces share a glyph: the
/// table really describes six distinct faces.
pub proof fn lemma_face_table_is_well_formed()
    ensures
        face_layout().len() == 6,
        forall|n: int| 0 <= n < 6 ==> #[trigger] pins_one_axis(face_layout()[n]),
        forall|m: int, n: int|
            0 <= m < 6 && 0 <= n < 6 && m != n
                ==> #[trigger] face_layout()[m].glyph != #[trigger] face_layout()[n].glyph,
{
    assert forall|n: int| 0 <= n < 6 implies #[trigger] pins_one_axis(face_layout()[n]) by {
        if n == 0 { assert(pins_one_axis(face_layout()[0])); }
        if n == 1 { assert(pins_one_axis(face_layout()[1])); }
        if n == 2 { assert(pins_one_axis(face_layout()[2])); }
        if n == 3 { assert(pins_one_axis(face_layout()[3])); }
        if n == 4 { assert(pins_one_axis(face_layout()[4])); }
        if n == 5 { assert(pins_one_axis(face_layout()[5])); }
    }
}

/// A point lies on the cube's boundary: some coordinate is pinned to a face.
pub open spec fn on_cube_boundary(p: (int, int, int), half: int) -> bool {
    ||| p.0 == half || p.0 == -half
    ||| p.1 == half || p.1 == -half
    ||| p.2 == half || p.2 == -half
}

/// Wherever the sweep stands, every face of the table samples a point on
/// the cube's boundary.
pub proof fn lemma_faces_sample_cube_boundary(u: int, v: int, half: int)
    ensures
        forall|n: int|
            0 <= n < 6 ==> on_cube_boundary(
                #[trigger] sample_point(face_layout()[n], u, v, half),
                half,
            ),
{
    assert forall|n: int|
        0 <= n < 6 implies on_cube_boundary(
        #[trigger] sample_point(face_layout()[n], u, v, half),
        half,
    ) by {
        if n == 0 { assert(on_cube_boundary(sample_point(face_layout()[0], u, v, half), half)); }
        if n == 1 { assert(on_cube_boundary(sample_point(face_layout()[1], u, v, half), half)); }
        if n == 2 { assert(on_cube_boundary(sample_point(face_layout()[2], u, v, half), half)); }
        if n == 3 { assert(on_cube_boundary(sample_point(face_layout()[3], u, v, half), half)); }
        if n == 4 { assert(on_cube_boundary(sample_point(face_layout()[4], u, v, half), half)); }
        if n == 5 { assert(on_cube_boundary(sample_point(face_layout()[5], u, v, half), half)); }
    }
}

/// A face descriptor pins exactly one of its three coordinates.
pub open spec fn pins_one_axis(f: FaceDescriptor) -> bool {
    ||| (rule_is_pinned(f.i_rule) && !rule_is_pinned(f.j_rule) && !rule_is_pinned(f.k_rule))
    ||| (!rule_is_pinned(f.i_rule) && rule_is_pinned(f.j_rule) && !rule_is_pinned(f.k_rule))
    ||| (!rule_is_pinned(f.i_rule) && !rule_is_pinned(f.j_rule) && rule_is_pinned(f.k_rule))
}

} // verus!
