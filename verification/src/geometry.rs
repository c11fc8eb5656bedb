use core::ops::Range;
use vstd::prelude::*;

verus! {

/// Both shapes draw from one shared vertex buffer with this many vertices:
/// five for the pentagon, eight for the arrow.
pub const VERTEX_COUNT: u16 = 13;

/// The two selectable shapes.
#[derive(Clone, Copy, Debug, PartialEq, Eq, Structural)]
pub enum Shapes {
    Pentagon,
    Arrow,
}

/// The other shape: the two selections form a 2-cycle.
pub open spec fn toggled_shape(s: Shapes) -> Shapes {
    match s {
        Shapes::Pentagon => Shapes::Arrow,
        Shapes::Arrow => Shapes::Pentagon,
    }
}

/// The triangle-list index data of the shared index buffer: three pentagon
/// triangles over vertices 0 to 4, then eight arrow triangles over vertices
/// 5 to 12.
pub open spec fn spec_indices() -> Seq<u16> {
    seq![
        0u16, 1, 4, 1, 2, 4, 2, 3, 4,
        5, 6, 7, 7, 8, 5, 5, 8, 6, 6, 7, 8,
        9, 10, 11, 11, 12, 9, 12, 9, 10, 10, 11, 12,
    ]
}

/// The slice of the index buffer one shape is drawn from, as an index pair
/// (start inclusive, end exclusive).
pub open spec fn spec_index_range(s: Shapes) -> (int, int) {
    match s {
        Shapes::Pentagon => (0, 9),
        Shapes::Arrow => (9, 33),
    }
}

/// Every entry of `s` lies below `bound`.
pub open spec fn all_below(s: Seq<u16>, bound: u16) -> bool
    decreases s.len(),
{
    s.len() == 0 || (s[0] < bound && all_below(s.drop_first(), bound))
}

/// From `all_below` each single entry is below the bound.
pub proof fn lemma_all_below_index(s: Seq<u16>, bound: u16, i: int)
    requires
        all_below(s, bound),
        0 <= i < s.len(),
    ensures
        s[i] < bound,
    decreases s.len(),
{
    if i > 0 {
        lemma_all_below_index(s.drop_first(), bound, i - 1);
    }
}

/// The index data never points past the shared vertex buffer.
pub proof fn lemma_indices_below_vertex_count()
    ensures
        all_below(spec_indices(), VERTEX_COUNT),
{
    reveal_with_fuel(all_below, 34);
    assert(all_below(spec_indices(), 13));
}

/// Owns the index data of the two shapes and the current selection. The GPU
/// buffers built from this data live with the renderer; this holds the data
/// itself, so that the draw ranges can be held to it.
pub struct ShapeState {
    pub state: Shapes,
    pub indices: Vec<u16>,
}

impl ShapeState {
    /// The stored index data is exactly the shared buffer's data.
    pub open spec fn wf(self) -> bool {
        self.indices@ == spec_indices()
    }

    /// A fresh store starts on the pentagon.
    pub fn new() -> (s: Self)
        ensures
            s.wf(),
            s.state == Shapes::Pentagon,
    {
        let mut indices: Vec<u16> = Vec::new();
        indices.push(0);
        indices.push(1);
        indices.push(4);
        indices.push(1);
        indices.push(2);
        indices.push(4);
        indices.push(2);
        indices.push(3);
        indices.push(4);
        indices.push(5);
        indices.push(6);
        indices.push(7);
        indices.push(7);
        indices.push(8);
        indices.push(5);
        indices.push(5);
        indices.push(8);
        indices.push(6);
        indices.push(6);
        indices.push(7);
        indices.push(8);
        indices.push(9);
        indices.push(10);
        indices.push(11);
        indices.push(11);
        indices.push(12);
        indices.push(9);
        indices.push(12);
        indices.push(9);
        indices.push(10);
        indices.push(10);
        indices.push(11);
        indices.push(12);
        proof {
            assert(indices@ =~= spec_indices());
        }
        ShapeState { state: Shapes::Pentagon, indices }
    }

    /// The slice of the index buffer the active shape is drawn from.
    pub fn index_buffer_indices(&self) -> (r: Range<u32>)
        ensures
            r.start == spec_index_range(self.state).0,
            r.end == spec_index_range(self.state).1,
    {
        match self.state {
            Shapes::Pentagon => 0..9,
            Shapes::Arrow => 9..(9 + 24),
        }
    }

    /// Both shapes index into the shared vertex buffer directly, so the base
    /// vertex of every draw call is zero.
    pub fn base_vertex(&self) -> (r: i32)
        ensures
            r == 0,
    {
        0
    }

    /// The index data, for uploading into the renderer's index buffer.
    pub fn index_data(&self) -> (r: &Vec<u16>)
        ensures
            r@ == self.indices@,
    {
        &self.indices
    }

    /// Switches the selection to the other shape.
    pub fn swap(&mut self)
        ensures
            final(self).state == toggled_shape(old(self).state),
            final(self).indices == old(self).indices,
    {
        match self.state {
            Shapes::Pentagon => {
                self.state = Shapes::Arrow;
            },
            Shapes::Arrow => {
                self.state = Shapes::Pentagon;
            },
        }
    }
}

/// Draw-range correctness: for either selection the draw range lies fully
/// inside the index buffer, and every index it covers points at a vertex of
/// the shared vertex buffer.
pub proof fn lemma_draw_range_in_bounds(s: ShapeState)
    requires
        s.wf(),
    ensures
        0 <= spec_index_range(s.state).0 <= spec_index_range(s.state).1 <= s.indices@.len(),
        forall|i: int|
            spec_index_range(s.state).0 <= i < spec_index_range(s.state).1
                ==> s.indices@[i] < VERTEX_COUNT,
{
    lemma_indices_below_vertex_count();
    assert forall|i: int|
        spec_index_range(s.state).0 <= i < spec_index_range(s.state).1
            implies s.indices@[i] < VERTEX_COUNT by {
        lemma_all_below_index(spec_indices(), VERTEX_COUNT, i);
    }
}

} // verus!
