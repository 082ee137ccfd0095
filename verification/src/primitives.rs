use vstd::prelude::*;

verus! {

/// The kinds of primitive object a scene can add.
#[derive(Debug, Clone, Copy, PartialEq, Eq, Structural)]
pub enum ObjectType {
    Quad,
    Triangle,
}

/// A unit triangle in the plane: three vertices, drawn without indices.
pub struct Triangle;

impl Triangle {
    /// How many vertices the triangle's vertex data holds.
    pub fn vertex_count() -> (n: u32)
        ensures
            n == 3,
    {
        3
    }

    /// The triangle is drawn over the full vertex range, with no index list.
    pub fn create_indices() -> (r: Option<Vec<u16>>)
        ensures
            r is None,
    {
        None
    }
}

/// A unit quad in the plane: four corners, drawn as two indexed triangles.
pub struct Quad;

impl Quad {
    /// How many vertices the quad's vertex data holds.
    pub fn vertex_count() -> (n: u32)
        ensures
            n == 4,
    {
        4
    }

    /// The two triangles of the quad, counter-clockwise.
    pub fn create_indices() -> (r: Option<Vec<u16>>)
        ensures
            r matches Some(v) && v@ == seq![0u16, 1, 2, 0, 2, 3],
    {
        let v: Vec<u16> = vec![0, 1, 2, 0, 2, 3];
        proof {
            assert(v@ =~= seq![0u16, 1, 2, 0, 2, 3]);
        }
        Some(v)
    }
}

/// A unit cube: four vertices per face, two indexed triangles per face.
pub struct Cube;

impl Cube {
    /// How many vertices the cube's vertex data holds: four per face.
    pub fn vertex_count() -> (n: u32)
        ensures
            n == 24,
    {
        24
    }

    /// The twelve triangles of the cube, two per face, counter-clockwise.
    pub fn create_indices() -> (r: Option<Vec<u16>>)
        ensures
            r matches Some(v) && v@ == seq![
                0u16, 1, 2, 2, 3, 0,
                4, 5, 6, 6, 7, 4,
                8, 9, 10, 10, 11, 8,
                12, 13, 14, 14, 15, 12,
                16, 17, 18, 18, 19, 16,
                20, 21, 22, 22, 23, 20,
            ],
    {
        let v: Vec<u16> = vec![
            0, 1, 2, 2, 3, 0,
            4, 5, 6, 6, 7, 4,
            8, 9, 10, 10, 11, 8,
            12, 13, 14, 14, 15, 12,
            16, 17, 18, 18, 19, 16,
            20, 21, 22, 22, 23, 20,
        ];
        proof {
            assert(v@ =~= seq![
                0u16, 1, 2, 2, 3, 0,
                4, 5, 6, 6, 7, 4,
                8, 9, 10, 10, 11, 8,
                12, 13, 14, 14, 15, 12,
                16, 17, 18, 18, 19, 16,
                20, 21, 22, 22, 23, 20,
            ]);
        }
        Some(v)
    }
}

/// How many longitude sectors a sphere mesh has.
pub const SPHERE_SECTORS: u16 = 32;

/// How many latitude stacks a sphere mesh has.
pub const SPHERE_STACKS: u16 = 32;

/// A unit sphere triangulated into stacks and sectors. Each stack ring holds
/// `SPHERE_SECTORS + 1` vertices; the top and bottom stacks contribute one
/// triangle per sector, every other stack two.
pub struct Sphere;

/// The triangles that stack `i`, sector `j` contribute: with `k1` the ring
/// vertex and `k2` the vertex below it, the upper triangle `k1, k2, k1 + 1`
/// everywhere but the top stack, and the lower triangle `k1 + 1, k2, k2 + 1`
/// everywhere but the bottom stack.
pub open spec fn sphere_cell_indices(i: int, j: int) -> Seq<u16> {
    let k1 = i * (SPHERE_SECTORS + 1) + j;
    let k2 = k1 + SPHERE_SECTORS + 1;
    (if i != 0 {
        seq![k1 as u16, k2 as u16, (k1 + 1) as u16]
    } else {
        Seq::<u16>::empty()
    }) + (if i != SPHERE_STACKS - 1 {
        seq![(k1 + 1) as u16, k2 as u16, (k2 + 1) as u16]
    } else {
        Seq::<u16>::empty()
    })
}

/// The sphere's index list up to cell `t`, cells walked stack by stack and
/// sector by sector within each stack.
pub open spec fn sphere_indices_upto(t: int) -> Seq<u16>
    decreases t,
{
    if t <= 0 {
        Seq::<u16>::empty()
    } else {
        sphere_indices_upto(t - 1) + sphere_cell_indices(
            (t - 1) / (SPHERE_SECTORS as int),
            (t - 1) % (SPHERE_SECTORS as int),
        )
    }
}

/// The sphere's whole index list: every cell of every stack.
pub open spec fn sphere_indices() -> Seq<u16> {
    sphere_indices_upto((SPHERE_STACKS as int) * (SPHERE_SECTORS as int))
}

impl Sphere {
    /// How many vertices the sphere's vertex data holds: one ring of
    /// `SPHERE_SECTORS + 1` vertices for each of the `SPHERE_STACKS + 1`
    /// latitudes.
    pub fn vertex_count() -> (n: u32)
        ensures
            n == (SPHERE_STACKS + 1) * (SPHERE_SECTORS + 1),
    {
        ((SPHERE_STACKS as u32) + 1) * ((SPHERE_SECTORS as u32) + 1)
    }

    /// The sphere's triangles, stack by stack.
    pub fn create_indices() -> (r: Option<Vec<u16>>)
        ensures
            r matches Some(v) && v@ == sphere_indices(),
    {
        let mut v: Vec<u16> = Vec::new();
        let mut i: u16 = 0;
        while i < SPHERE_STACKS
            invariant
                i <= SPHERE_STACKS,
                v@ == sphere_indices_upto((i as int) * (SPHERE_SECTORS as int)),
            decreases SPHERE_STACKS - i,
        {
            let k1: u16 = i * (SPHERE_SECTORS + 1);
            proof {
                assert(k1 <= 1023) by (nonlinear_arith)
                    requires
                        i < 32,
                        k1 as int == (i as int) * ((SPHERE_SECTORS + 1) as int),
                        SPHERE_SECTORS == 32,
                ;
            }
            let k2: u16 = k1 + SPHERE_SECTORS + 1;
            let mut j: u16 = 0;
            while j < SPHERE_SECTORS
                invariant
                    i < SPHERE_STACKS,
                    j <= SPHERE_SECTORS,
                    k1 == i * (SPHERE_SECTORS + 1),
                    k1 <= 1023,
                    k2 == k1 + SPHERE_SECTORS + 1,
                    v@ == sphere_indices_upto((i as int) * (SPHERE_SECTORS as int) + j as int),
                decreases SPHERE_SECTORS - j,
            {
                let ghost t: int = (i as int) * (SPHERE_SECTORS as int) + j as int;
                proof {
                    assert((t + 1 - 1) / (SPHERE_SECTORS as int) == i as int
                        && (t + 1 - 1) % (SPHERE_SECTORS as int) == j as int) by (nonlinear_arith)
                        requires
                            t == (i as int) * (SPHERE_SECTORS as int) + j as int,
                            0 <= j < SPHERE_SECTORS as int,
                            0 <= i,
                    ;
                }
                let ghost before = v@;
                if i != 0 {
                    v.push(k1 + j);
                    v.push(k2 + j);
                    v.push(k1 + j + 1);
                }
                if i != SPHERE_STACKS - 1 {
                    v.push(k1 + j + 1);
                    v.push(k2 + j);
                    v.push(k2 + j + 1);
                }
                proof {
                    assert(v@ =~= before + sphere_cell_indices(i as int, j as int));
                }
                j = j + 1;
            }
            i = i + 1;
        }
        Some(v)
    }
}

/// The sphere's index list up to cell `t` only addresses the sphere's
/// vertices.
proof fn lemma_sphere_indices_upto_in_range(t: int)
    requires
        0 <= t <= (SPHERE_STACKS as int) * (SPHERE_SECTORS as int),
    ensures
        forall|k: int|
            0 <= k < sphere_indices_upto(t).len() ==> (#[trigger] sphere_indices_upto(t)[k])
                < (SPHERE_STACKS + 1) * (SPHERE_SECTORS + 1),
    decreases t,
{
    if t > 0 {
        lemma_sphere_indices_upto_in_range(t - 1);
        let i = (t - 1) / (SPHERE_SECTORS as int);
        let j = (t - 1) % (SPHERE_SECTORS as int);
        let k1 = i * (SPHERE_SECTORS + 1) + j;
        let k2 = k1 + SPHERE_SECTORS + 1;
        assert(0 <= j < SPHERE_SECTORS as int && 0 <= i < SPHERE_STACKS as int
            && k2 + 1 < (SPHERE_STACKS + 1) * (SPHERE_SECTORS + 1)) by (nonlinear_arith)
            requires
                0 < t <= (SPHERE_STACKS as int) * (SPHERE_SECTORS as int),
                i == (t - 1) / (SPHERE_SECTORS as int),
                j == (t - 1) % (SPHERE_SECTORS as int),
                k1 == i * (SPHERE_SECTORS + 1) + j,
                k2 == k1 + SPHERE_SECTORS + 1,
                SPHERE_SECTORS == 32,
                SPHERE_STACKS == 32,
        ;
        assert((k1 as u16) < 1089 && (k2 as u16) < 1089 && ((k1 + 1) as u16) < 1089 && ((k2 + 1)
            as u16) < 1089);
        assert(forall|k: int|
            0 <= k < sphere_cell_indices(i, j).len() ==> (#[trigger] sphere_cell_indices(i, j)[k])
                < (SPHERE_STACKS + 1) * (SPHERE_SECTORS + 1));
        assert(sphere_indices_upto(t) == sphere_indices_upto(t - 1) + sphere_cell_indices(i, j));
        assert forall|k: int|
            0 <= k < sphere_indices_upto(t).len() implies (#[trigger] sphere_indices_upto(t)[k])
            < (SPHERE_STACKS + 1) * (SPHERE_SECTORS + 1) by {
            if k < sphere_indices_upto(t - 1).len() {
                assert(sphere_indices_upto(t)[k] == sphere_indices_upto(t - 1)[k]);
            } else {
                assert(sphere_indices_upto(t)[k] == sphere_cell_indices(i, j)[k
                    - sphere_indices_upto(t - 1).len()]);
            }
        }
    }
}

/// Law: every index of the sphere's index list addresses one of the sphere's
/// vertices, so the mesh's index buffer never reads past its vertex buffer.
pub proof fn lemma_sphere_indices_address_vertices()
    ensures
        forall|k: int|
            0 <= k < sphere_indices().len() ==> (#[trigger] sphere_indices()[k]) < (SPHERE_STACKS
                + 1) * (SPHERE_SECTORS + 1),
{
    lemma_sphere_indices_upto_in_range((SPHERE_STACKS as int) * (SPHERE_SECTORS as int));
}

} // verus!
