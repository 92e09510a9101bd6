use vstd::prelude::*;

verus! {

/// Triangle `i` of a fan around vertex 0 with `n` rim vertices (numbered
/// 1..=n): the centre, rim vertex `i`, and the next rim vertex, wrapping.
pub open spec fn fan_triangle(n: int, i: int) -> Seq<u32> {
    seq![0u32, (1 + i) as u32, (1 + (i + 1) % n) as u32]
}

/// The index list of a light fan: one triangle per rim segment.
pub open spec fn spec_fan_indices(n: int) -> Seq<u32> {
    Seq::new((3 * n) as nat, |k: int| fan_triangle(n, k / 3)[k % 3])
}

/// Quad `i` of a water strip with two vertices per column (surface `2i`,
/// floor `2i + 1`): two triangles, `a b c` and `c b d`.
pub open spec fn strip_quad(i: int) -> Seq<u32> {
    seq![
        (2 * i) as u32,
        (2 * i + 1) as u32,
        (2 * i + 2) as u32,
        (2 * i + 2) as u32,
        (2 * i + 1) as u32,
        (2 * i + 3) as u32,
    ]
}

/// The index list of a water strip of `n` columns: one quad between each
/// pair of neighbouring columns.
pub open spec fn spec_strip_indices(n: int) -> Seq<u32> {
    Seq::new((6 * (n - 1)) as nat, |k: int| strip_quad(k / 6)[k % 6])
}

/// Triangle indices of a light's visibility fan: vertex 0 is the light, the
/// `rim` vertices follow, and triangle `i` joins the light to rim vertices
/// `i` and `i + 1` (the last one closes the fan).
pub fn light_fan_indices(rim: usize) -> (v: Vec<u32>)
    requires
        rim < u32::MAX,
        3 * rim <= usize::MAX,
    ensures
        v@ == spec_fan_indices(rim as int),
        v@.len() == 3 * rim,
        forall|i: int|
            0 <= i < rim ==> {
                &&& #[trigger] v@[3 * i] == 0
                &&& v@[3 * i + 1] == 1 + i
                &&& v@[3 * i + 2] == 1 + (i + 1) % (rim as int)
            },
{
    let mut v: Vec<u32> = Vec::new();
    let mut i: usize = 0;
    while i < rim
        invariant
            i <= rim,
            rim < u32::MAX,
            v@.len() == 3 * i,
            forall|k: int| 0 <= k < v@.len() ==> #[trigger] v@[k] == spec_fan_indices(rim as int)[k],
        decreases rim - i,
    {
        v.push(0u32);
        v.push(1 + i as u32);
        v.push(1 + ((i + 1) % rim) as u32);
        proof {
            assert forall|k: int| 0 <= k < v@.len() implies #[trigger] v@[k] == spec_fan_indices(
                rim as int,
            )[k] by {
                if k >= 3 * i {
                    assert(k / 3 == i);
                }
            }
        }
        i = i + 1;
    }
    assert(v@ == spec_fan_indices(rim as int));
    proof {
        lemma_fan_triangles(rim as int);
    }
    v
}

/// Triangle indices of a water strip of `columns` columns, two vertices per
/// column (surface then floor): the quad between columns `i` and `i + 1`
/// is the two triangles `2i, 2i+1, 2i+2` and `2i+2, 2i+1, 2i+3`.
pub fn water_strip_indices(columns: usize) -> (v: Vec<u32>)
    requires
        1 <= columns,
        2 * columns <= u32::MAX,
        6 * columns <= usize::MAX,
    ensures
        v@ == spec_strip_indices(columns as int),
        v@.len() == 6 * (columns - 1),
        forall|i: int|
            0 <= i < columns - 1 ==> {
                &&& #[trigger] v@[6 * i] == 2 * i
                &&& v@[6 * i + 1] == 2 * i + 1
                &&& v@[6 * i + 2] == 2 * i + 2
                &&& v@[6 * i + 3] == 2 * i + 2
                &&& v@[6 * i + 4] == 2 * i + 1
                &&& v@[6 * i + 5] == 2 * i + 3
            },
{
    let mut v: Vec<u32> = Vec::new();
    let quads = columns - 1;
    let mut i: usize = 0;
    while i < quads
        invariant
            i <= quads,
            quads == columns - 1,
            2 * columns <= u32::MAX,
            v@.len() == 6 * i,
            forall|k: int| 0 <= k < v@.len() ==> #[trigger] v@[k] == spec_strip_indices(columns as int)[k],
        decreases quads - i,
    {
        let a = (i * 2) as u32;
        v.push(a);
        v.push(a + 1);
        v.push(a + 2);
        v.push(a + 2);
        v.push(a + 1);
        v.push(a + 3);
        proof {
            assert forall|k: int| 0 <= k < v@.len() implies #[trigger] v@[k] == spec_strip_indices(
                columns as int,
            )[k] by {
                if k >= 6 * i {
                    assert(k / 6 == i);
                }
            }
        }
        i = i + 1;
    }
    assert(v@ == spec_strip_indices(columns as int));
    proof {
        lemma_strip_quads(columns as int);
    }
    v
}

/// Every index of a light fan names one of its `rim + 1` vertices.
pub proof fn lemma_fan_indices_in_range(rim: int)
    requires
        0 < rim < u32::MAX,
    ensures
        forall|k: int|
            0 <= k < spec_fan_indices(rim).len() ==> #[trigger] spec_fan_indices(rim)[k] <= rim,
{
    assert forall|k: int| 0 <= k < spec_fan_indices(rim).len() implies #[trigger] spec_fan_indices(
        rim,
    )[k] <= rim by {
        let i = k / 3;
        assert(0 <= i < rim);
        assert(0 <= (i + 1) % rim < rim);
    }
}

/// Every index of a water strip names one of its `2 * columns` vertices.
pub proof fn lemma_strip_indices_in_range(columns: int)
    requires
        1 <= columns,
        2 * columns <= u32::MAX,
    ensures
        forall|k: int|
            0 <= k < spec_strip_indices(columns).len() ==> #[trigger] spec_strip_indices(columns)[k]
                < 2 * columns,
{
    assert forall|k: int| 0 <= k < spec_strip_indices(columns).len() implies #[trigger] spec_strip_indices(
        columns,
    )[k] < 2 * columns by {
        let i = k / 6;
        assert(0 <= i < columns - 1);
    }
}

/// A light fan holds three indices per rim vertex, and triangle `i` joins
/// the light (vertex 0) to rim vertex `i` (numbered `1 + i`) and to the next
/// rim vertex, the last triangle closing the fan on rim vertex 0.
pub proof fn lemma_fan_triangles(rim: int)
    requires
        0 <= rim < u32::MAX,
    ensures
        spec_fan_indices(rim).len() == 3 * rim,
        forall|i: int|
            0 <= i < rim ==> {
                &&& #[trigger] spec_fan_indices(rim)[3 * i] == 0
                &&& spec_fan_indices(rim)[3 * i + 1] == 1 + i
                &&& spec_fan_indices(rim)[3 * i + 2] == 1 + (i + 1) % rim
            },
{
    assert forall|i: int| 0 <= i < rim implies {
        &&& #[trigger] spec_fan_indices(rim)[3 * i] == 0
        &&& spec_fan_indices(rim)[3 * i + 1] == 1 + i
        &&& spec_fan_indices(rim)[3 * i + 2] == 1 + (i + 1) % rim
    } by {
        assert((3 * i) / 3 == i && (3 * i) % 3 == 0);
        assert((3 * i + 1) / 3 == i && (3 * i + 1) % 3 == 1);
        assert((3 * i + 2) / 3 == i && (3 * i + 2) % 3 == 2);
        assert(0 <= (i + 1) % rim < rim);
    }
}

/// A water strip of `columns` columns holds six indices per pair of
/// neighbouring columns, and quad `i` joins column `i` (surface `2i`, floor
/// `2i + 1`) to column `i + 1` (surface `2i + 2`, floor `2i + 3`) as the
/// triangles `2i, 2i+1, 2i+2` and `2i+2, 2i+1, 2i+3`.
pub proof fn lemma_strip_quads(columns: int)
    requires
        1 <= columns,
        2 * columns <= u32::MAX,
    ensures
        spec_strip_indices(columns).len() == 6 * (columns - 1),
        forall|i: int|
            0 <= i < columns - 1 ==> {
                &&& #[trigger] spec_strip_indices(columns)[6 * i] == 2 * i
                &&& spec_strip_indices(columns)[6 * i + 1] == 2 * i + 1
                &&& spec_strip_indices(columns)[6 * i + 2] == 2 * i + 2
                &&& spec_strip_indices(columns)[6 * i + 3] == 2 * i + 2
                &&& spec_strip_indices(columns)[6 * i + 4] == 2 * i + 1
                &&& spec_strip_indices(columns)[6 * i + 5] == 2 * i + 3
            },
{
    assert forall|i: int| 0 <= i < columns - 1 implies {
        &&& #[trigger] spec_strip_indices(columns)[6 * i] == 2 * i
        &&& spec_strip_indices(columns)[6 * i + 1] == 2 * i + 1
        &&& spec_strip_indices(columns)[6 * i + 2] == 2 * i + 2
        &&& spec_strip_indices(columns)[6 * i + 3] == 2 * i + 2
        &&& spec_strip_indices(columns)[6 * i + 4] == 2 * i + 1
        &&& spec_strip_indices(columns)[6 * i + 5] == 2 * i + 3
    } by {
        assert((6 * i) / 6 == i && (6 * i) % 6 == 0);
        assert((6 * i + 1) / 6 == i && (6 * i + 1) % 6 == 1);
        assert((6 * i + 2) / 6 == i && (6 * i + 2) % 6 == 2);
        assert((6 * i + 3) / 6 == i && (6 * i + 3) % 6 == 3);
        assert((6 * i + 4) / 6 == i && (6 * i + 4) % 6 == 4);
        assert((6 * i + 5) / 6 == i && (6 * i + 5) % 6 == 5);
    }
}

} // verus!
