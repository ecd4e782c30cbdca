//! Mesh vertex data and triangle-list assembly.
//!
//! An importer hands over attribute tables — positions, normals,
//! texture coordinates — and triangles of indices into them. Assembly
//! flattens each triangle into three consecutive vertices and a
//! sequential index list, checking every index against its table; the
//! skinned variant also resolves each corner's weight record and weight
//! values. Malformed references are load-time errors, never partial
//! output.

use vstd::prelude::*;

verus! {

use crate::quat::Vec3;
use crate::skeleton::AssetError;
use crate::weights::VertexWeights;

/// A texture coordinate pair.
#[derive(Clone, Copy, Debug, PartialEq, Eq, Structural)]
pub struct TexCoord {
    pub u: i64,
    pub v: i64,
}

/// One static-mesh vertex.
#[derive(Clone, Copy, Debug, PartialEq, Eq, Structural)]
pub struct MeshVertex {
    pub position: Vec3,
    pub normal: Vec3,
    pub tex: TexCoord,
}

/// One skinned vertex: the static attributes plus up to four
/// (joint, weight) pairs and the count in use.
#[derive(Clone, Copy, Debug)]
pub struct SkinVertex {
    pub position: Vec3,
    pub normal: Vec3,
    pub tex: TexCoord,
    pub weights: [i64; 4],
    pub joint_mi: [u8; 4],
    pub joint_c: u8,
}

/// One triangle corner: indices into the position, normal and texture
/// tables.
#[derive(Clone, Copy, Debug, PartialEq, Eq, Structural)]
pub struct CornerRef {
    pub pos: usize,
    pub norm: usize,
    pub tex: usize,
}

/// One triangle of corner references.
#[derive(Clone, Copy, Debug, PartialEq, Eq, Structural)]
pub struct TriangleRef {
    pub a: CornerRef,
    pub b: CornerRef,
    pub c: CornerRef,
}

/// A mesh built on the background thread and handed to the render
/// loop: a raw vertex list and its index list.
#[derive(Clone, Debug)]
pub struct StreamedMeshPayload {
    pub vertices: Vec<MeshVertex>,
    pub indices: Vec<u16>,
}

/// Does a corner stay inside all three tables?
pub open spec fn corner_ok(c: CornerRef, np: int, nn: int, nt: int) -> bool {
    c.pos < np && c.norm < nn && c.tex < nt
}

/// Does every corner of every triangle stay inside the tables?
pub open spec fn triangles_ok(tris: Seq<TriangleRef>, np: int, nn: int, nt: int) -> bool {
    forall|t: int|
        0 <= t < tris.len() ==> corner_ok(#[trigger] tris[t].a, np, nn, nt) && corner_ok(
            tris[t].b,
            np,
            nn,
            nt,
        ) && corner_ok(tris[t].c, np, nn, nt)
}

/// The vertex a corner references.
pub open spec fn vertex_at(
    positions: Seq<Vec3>,
    normals: Seq<Vec3>,
    texcoords: Seq<TexCoord>,
    c: CornerRef,
) -> MeshVertex {
    MeshVertex {
        position: positions[c.pos as int],
        normal: normals[c.norm as int],
        tex: texcoords[c.tex as int],
    }
}

/// The corner of a flattened triangle list at a given output slot.
pub open spec fn corner_at(tris: Seq<TriangleRef>, k: int) -> CornerRef {
    let t = tris[k / 3];
    if k % 3 == 0 {
        t.a
    } else if k % 3 == 1 {
        t.b
    } else {
        t.c
    }
}

/// Flatten indexed triangles into a vertex list and a sequential
/// triangle-list index buffer. Succeeds exactly when every corner
/// index stays inside its table and the flattened list still fits the
/// 16-bit index range.
#[verifier::rlimit(100)]
#[verifier::spinoff_prover]
pub fn assemble_static_mesh(
    positions: &Vec<Vec3>,
    normals: &Vec<Vec3>,
    texcoords: &Vec<TexCoord>,
    triangles: &Vec<TriangleRef>,
) -> (r: Result<StreamedMeshPayload, AssetError>)
    ensures
        r is Ok <==> (3 * triangles.len() <= u16::MAX as int + 1 && triangles_ok(
            triangles@,
            positions.len() as int,
            normals.len() as int,
            texcoords.len() as int,
        )),
        r matches Ok(m) ==> ({
            &&& m.vertices.len() == 3 * triangles.len()
            &&& m.indices.len() == 3 * triangles.len()
            &&& forall|k: int| 0 <= k < m.indices.len() ==> #[trigger] m.indices@[k] == k as u16
            &&& forall|k: int|
                0 <= k < m.vertices.len() ==> #[trigger] m.vertices@[k] == vertex_at(
                    positions@,
                    normals@,
                    texcoords@,
                    corner_at(triangles@, k),
                )
        }),
        r matches Err(e) ==> (e == AssetError::TooManyVertices || e
            == AssetError::IndexOutOfRange),
{
    let nt = triangles.len();
    if nt > (u16::MAX as usize + 1) / 3 {
        return Result::Err(AssetError::TooManyVertices);
    }
    let mut verts: Vec<MeshVertex> = Vec::new();
    let mut indices: Vec<u16> = Vec::new();
    for t in 0..nt
        invariant
            nt == triangles.len(),
            3 * nt <= u16::MAX as int + 1,
            verts.len() == 3 * t,
            indices.len() == 3 * t,
            forall|k: int| 0 <= k < indices.len() ==> #[trigger] indices@[k] == k as u16,
            forall|k: int|
                0 <= k < verts.len() ==> #[trigger] verts@[k] == vertex_at(
                    positions@,
                    normals@,
                    texcoords@,
                    corner_at(triangles@, k),
                ),
            forall|tt: int|
                0 <= tt < t ==> corner_ok(
                    #[trigger] triangles@[tt].a,
                    positions.len() as int,
                    normals.len() as int,
                    texcoords.len() as int,
                ) && corner_ok(
                    triangles@[tt].b,
                    positions.len() as int,
                    normals.len() as int,
                    texcoords.len() as int,
                ) && corner_ok(
                    triangles@[tt].c,
                    positions.len() as int,
                    normals.len() as int,
                    texcoords.len() as int,
                ),
    {
        let tri = triangles[t];
        let corners: [CornerRef; 3] = [tri.a, tri.b, tri.c];
        for ci in 0..3usize
            invariant
                nt == triangles.len(),
                t < nt,
                3 * nt <= u16::MAX as int + 1,
                tri == triangles@[t as int],
                corners@ =~= seq![tri.a, tri.b, tri.c],
                verts.len() == 3 * t + ci,
                indices.len() == 3 * t + ci,
                forall|k: int| 0 <= k < indices.len() ==> #[trigger] indices@[k] == k as u16,
                forall|k: int|
                    0 <= k < verts.len() ==> #[trigger] verts@[k] == vertex_at(
                        positions@,
                        normals@,
                        texcoords@,
                        corner_at(triangles@, k),
                    ),
                forall|cc: int|
                    0 <= cc < ci ==> corner_ok(
                        #[trigger] corners@[cc],
                        positions.len() as int,
                        normals.len() as int,
                        texcoords.len() as int,
                    ),
        {
            let c = corners[ci];
            if c.pos >= positions.len() || c.norm >= normals.len() || c.tex >= texcoords.len() {
                proof {
                    let np = positions.len() as int;
                    let nn = normals.len() as int;
                    let nx = texcoords.len() as int;
                    assert(corners@[0] == tri.a && corners@[1] == tri.b && corners@[2] == tri.c);
                    assert(c == tri.a || c == tri.b || c == tri.c);
                    if triangles_ok(triangles@, np, nn, nx) {
                        assert(corner_ok(triangles@[t as int].a, np, nn, nx));
                        assert(false);
                    }
                }
                return Result::Err(AssetError::IndexOutOfRange);
            }
            let v = MeshVertex {
                position: positions[c.pos],
                normal: normals[c.norm],
                tex: texcoords[c.tex],
            };
            proof {
                let k = verts.len() as int;
                assert(k / 3 == t as int && k % 3 == ci as int) by (nonlinear_arith)
                    requires
                        k == 3 * (t as int) + ci as int,
                        0 <= (ci as int) < 3,
                        0 <= t as int,
                ;
                assert(corner_at(triangles@, k) == c);
            }
            indices.push(verts.len() as u16);
            verts.push(v);
        }
        proof {
            assert(corners@[0] == tri.a && corners@[1] == tri.b && corners@[2] == tri.c);
        }
    }
    Result::Ok(StreamedMeshPayload { vertices: verts, indices })
}

/// The skinned vertex a corner references, with its weight record and
/// the four resolved weight values.
pub open spec fn skin_vertex_at(
    positions: Seq<Vec3>,
    normals: Seq<Vec3>,
    texcoords: Seq<TexCoord>,
    weight_table: Seq<i64>,
    vws: Seq<VertexWeights>,
    c: CornerRef,
) -> SkinVertex {
    let vw = vws[c.pos as int];
    SkinVertex {
        position: positions[c.pos as int],
        normal: normals[c.norm as int],
        tex: texcoords[c.tex as int],
        weights: [
            weight_table[vw.weights@[0] as int],
            weight_table[vw.weights@[1] as int],
            weight_table[vw.weights@[2] as int],
            weight_table[vw.weights@[3] as int],
        ],
        joint_mi: vw.joint_i,
        joint_c: vw.joint_c as u8,
    }
}

/// Do a corner's weight record and its weight indices stay inside
/// their tables?
pub open spec fn skin_corner_ok(
    c: CornerRef,
    nv: int,
    nw: int,
    vws: Seq<VertexWeights>,
) -> bool {
    &&& (c.pos as int) < vws.len()
    &&& vws[c.pos as int].weights@.len() == 4
    &&& vws[c.pos as int].joint_c <= 4
    &&& forall|s: int| 0 <= s < 4 ==> (#[trigger] vws[c.pos as int].weights@[s] as int) < nw
}

/// Does every corner of every triangle resolve inside all its tables?
pub open spec fn skin_triangles_ok(
    tris: Seq<TriangleRef>,
    np: int,
    nn: int,
    nt: int,
    nw: int,
    vws: Seq<VertexWeights>,
) -> bool {
    forall|t: int|
        0 <= t < tris.len() ==> {
            &&& corner_ok(#[trigger] tris[t].a, np, nn, nt) && skin_corner_ok(
                tris[t].a,
                np,
                nw,
                vws,
            )
            &&& corner_ok(tris[t].b, np, nn, nt) && skin_corner_ok(tris[t].b, np, nw, vws)
            &&& corner_ok(tris[t].c, np, nn, nt) && skin_corner_ok(tris[t].c, np, nw, vws)
        }
}

/// Flatten indexed triangles into skinned vertices and a sequential
/// index buffer, resolving each corner's weight record. Succeeds
/// exactly when every reference resolves and the flattened list fits
/// the 16-bit index range.
#[verifier::rlimit(100)]
#[verifier::spinoff_prover]
pub fn assemble_skinned_mesh(
    positions: &Vec<Vec3>,
    normals: &Vec<Vec3>,
    texcoords: &Vec<TexCoord>,
    weight_table: &Vec<i64>,
    vertex_weights: &Vec<VertexWeights>,
    triangles: &Vec<TriangleRef>,
) -> (r: Result<(Vec<SkinVertex>, Vec<u16>), AssetError>)
    ensures
        r is Ok <==> (3 * triangles.len() <= u16::MAX as int + 1 && triangles_ok(
            triangles@,
            positions.len() as int,
            normals.len() as int,
            texcoords.len() as int,
        ) && skin_triangles_ok(
            triangles@,
            positions.len() as int,
            normals.len() as int,
            texcoords.len() as int,
            weight_table.len() as int,
            vertex_weights@,
        )),
        r matches Ok(m) ==> ({
            &&& m.0.len() == 3 * triangles.len()
            &&& m.1.len() == 3 * triangles.len()
            &&& forall|k: int| 0 <= k < m.1.len() ==> #[trigger] m.1@[k] == k as u16
            &&& forall|k: int|
                0 <= k < m.0.len() ==> #[trigger] m.0@[k] == skin_vertex_at(
                    positions@,
                    normals@,
                    texcoords@,
                    weight_table@,
                    vertex_weights@,
                    corner_at(triangles@, k),
                )
        }),
        r matches Err(e) ==> (e == AssetError::TooManyVertices || e
            == AssetError::IndexOutOfRange),
{
    let nt = triangles.len();
    if nt > (u16::MAX as usize + 1) / 3 {
        return Result::Err(AssetError::TooManyVertices);
    }
    let mut verts: Vec<SkinVertex> = Vec::new();
    let mut indices: Vec<u16> = Vec::new();
    for t in 0..nt
        invariant
            nt == triangles.len(),
            3 * nt <= u16::MAX as int + 1,
            verts.len() == 3 * t,
            indices.len() == 3 * t,
            forall|k: int| 0 <= k < indices.len() ==> #[trigger] indices@[k] == k as u16,
            forall|k: int|
                0 <= k < verts.len() ==> #[trigger] verts@[k] == skin_vertex_at(
                    positions@,
                    normals@,
                    texcoords@,
                    weight_table@,
                    vertex_weights@,
                    corner_at(triangles@, k),
                ),
            forall|tt: int|
                0 <= tt < t ==> {
                    &&& corner_ok(
                        #[trigger] triangles@[tt].a,
                        positions.len() as int,
                        normals.len() as int,
                        texcoords.len() as int,
                    ) && skin_corner_ok(
                        triangles@[tt].a,
                        positions.len() as int,
                        weight_table.len() as int,
                        vertex_weights@,
                    )
                    &&& corner_ok(
                        triangles@[tt].b,
                        positions.len() as int,
                        normals.len() as int,
                        texcoords.len() as int,
                    ) && skin_corner_ok(
                        triangles@[tt].b,
                        positions.len() as int,
                        weight_table.len() as int,
                        vertex_weights@,
                    )
                    &&& corner_ok(
                        triangles@[tt].c,
                        positions.len() as int,
                        normals.len() as int,
                        texcoords.len() as int,
                    ) && skin_corner_ok(
                        triangles@[tt].c,
                        positions.len() as int,
                        weight_table.len() as int,
                        vertex_weights@,
                    )
                },
    {
        let tri = triangles[t];
        let corners: [CornerRef; 3] = [tri.a, tri.b, tri.c];
        for ci in 0..3usize
            invariant
                nt == triangles.len(),
                t < nt,
                3 * nt <= u16::MAX as int + 1,
                tri == triangles@[t as int],
                corners@ =~= seq![tri.a, tri.b, tri.c],
                verts.len() == 3 * t + ci,
                indices.len() == 3 * t + ci,
                forall|k: int| 0 <= k < indices.len() ==> #[trigger] indices@[k] == k as u16,
                forall|k: int|
                    0 <= k < verts.len() ==> #[trigger] verts@[k] == skin_vertex_at(
                        positions@,
                        normals@,
                        texcoords@,
                        weight_table@,
                        vertex_weights@,
                        corner_at(triangles@, k),
                    ),
                forall|cc: int|
                    0 <= cc < ci ==> corner_ok(
                        #[trigger] corners@[cc],
                        positions.len() as int,
                        normals.len() as int,
                        texcoords.len() as int,
                    ) && skin_corner_ok(
                        corners@[cc],
                        positions.len() as int,
                        weight_table.len() as int,
                        vertex_weights@,
                    ),
        {
            let c = corners[ci];
            proof {
                assert(corners@[0] == tri.a && corners@[1] == tri.b && corners@[2] == tri.c);
                assert(c == tri.a || c == tri.b || c == tri.c);
            }
            if c.pos >= positions.len() || c.norm >= normals.len() || c.tex >= texcoords.len()
                || c.pos >= vertex_weights.len() {
                proof {
                    let np = positions.len() as int;
                    let nn = normals.len() as int;
                    let nx = texcoords.len() as int;
                    let nw = weight_table.len() as int;
                    if triangles_ok(triangles@, np, nn, nx) && skin_triangles_ok(
                        triangles@, np, nn, nx, nw, vertex_weights@) {
                        assert(corner_ok(triangles@[t as int].a, np, nn, nx));
                        assert(skin_corner_ok(triangles@[t as int].a, np, nw, vertex_weights@));
                        assert(false);
                    }
                }
                return Result::Err(AssetError::IndexOutOfRange);
            }
            let vw = vertex_weights[c.pos];
            if vw.joint_c > 4 || vw.weights[0] >= weight_table.len()
                || vw.weights[1] >= weight_table.len() || vw.weights[2] >= weight_table.len()
                || vw.weights[3] >= weight_table.len() {
                proof {
                    let np = positions.len() as int;
                    let nn = normals.len() as int;
                    let nx = texcoords.len() as int;
                    let nw = weight_table.len() as int;
                    if skin_triangles_ok(triangles@, np, nn, nx, nw, vertex_weights@) {
                        assert(corner_ok(triangles@[t as int].a, np, nn, nx)
                            || skin_corner_ok(triangles@[t as int].a, np, nw, vertex_weights@));
                        assert(skin_corner_ok(c, np, nw, vertex_weights@));
                        assert((vertex_weights@[c.pos as int].weights@[0] as int) < nw);
                        assert((vertex_weights@[c.pos as int].weights@[1] as int) < nw);
                        assert((vertex_weights@[c.pos as int].weights@[2] as int) < nw);
                        assert((vertex_weights@[c.pos as int].weights@[3] as int) < nw);
                        assert(false);
                    }
                }
                return Result::Err(AssetError::IndexOutOfRange);
            }
            let v = SkinVertex {
                position: positions[c.pos],
                normal: normals[c.norm],
                tex: texcoords[c.tex],
                weights: [
                    weight_table[vw.weights[0]],
                    weight_table[vw.weights[1]],
                    weight_table[vw.weights[2]],
                    weight_table[vw.weights[3]],
                ],
                joint_mi: vw.joint_i,
                joint_c: vw.joint_c as u8,
            };
            proof {
                let k = verts.len() as int;
                assert(k / 3 == t as int && k % 3 == ci as int) by (nonlinear_arith)
                    requires
                        k == 3 * (t as int) + ci as int,
                        0 <= (ci as int) < 3,
                        0 <= t as int,
                ;
                assert(corner_at(triangles@, k) == c);
            }
            indices.push(verts.len() as u16);
            verts.push(v);
        }
        proof {
            assert(corners@[0] == tri.a && corners@[1] == tri.b && corners@[2] == tri.c);
        }
    }
    Result::Ok((verts, indices))
}

} // verus!
