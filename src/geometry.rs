use vstd::prelude::*;

verus! {

/// Vertex offset of corner `c` of the `chunk`-th debug box: each box owns eight vertices.
pub open spec fn box_corner(chunk: int, c: int) -> int {
    chunk * 8 + c
}

/// Corner pairs, top face first, then the four vertical edges, then the bottom face.
pub open spec fn box_edge_corners() -> Seq<int> {
    seq![0, 1, 1, 2, 2, 3, 3, 0, 0, 4, 1, 5, 2, 6, 3, 7, 4, 5, 5, 6, 6, 7, 7, 4]
}

/// Line-list indices for the twelve edges of the `offset`-th debug box.
pub fn generate_chunk_debug_line_indices(offset: u32) -> (r: [u32; 24])
    requires
        offset as int * 8 + 7 <= u32::MAX,
    ensures
        forall|i: int| 0 <= i < 24 ==> r@[i] as int == box_corner(offset as int, box_edge_corners()[i]),
{
    let o: u32 = offset * 8;
    let r: [u32; 24] = [
        o, 1 + o, 1 + o, 2 + o, 2 + o, 3 + o, 3 + o, o,
        o, 4 + o, 1 + o, 5 + o, 2 + o, 6 + o, 3 + o, 7 + o,
        4 + o, 5 + o, 5 + o, 6 + o, 6 + o, 7 + o, 7 + o, 4 + o,
    ];
    r
}

} // verus!
