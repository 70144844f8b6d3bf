//! The integer side of a triangle mesh: how many vertices its attribute
//! arrays hold, which vertices each triangle joins, how large its GPU
//! buffers are and where each attribute lies inside a vertex.
use vstd::prelude::*;

verus! {

/// Bytes in one 32-bit float component.
pub const FLOAT_BYTES: usize = 4;

#[derive(Clone, Copy, Debug, PartialEq, Eq, Structural)]
pub enum MeshError {
    /// Fewer normal components than three per vertex.
    MissingNormals,
    /// Fewer texture coordinates than two per vertex.
    MissingTexcoords,
    /// The index count is not a multiple of three.
    PartialTriangle,
    /// The index at this position names no vertex of the mesh.
    IndexOutOfRange(usize),
    /// A mesh without vertices or without indices has nothing to upload.
    EmptyMesh,
    /// A buffer's size in bytes does not fit the graphics API's size type.
    SizeOverflow,
}

/// The three vertices of one triangle, by position in the vertex array.
#[derive(Clone, Copy, Debug, PartialEq, Eq, Structural)]
pub struct Triangle {
    pub a: usize,
    pub b: usize,
    pub c: usize,
}

/// Where one vertex attribute lies: its shader location, its number of float
/// components and its offset in bytes from the start of a vertex.
#[derive(Clone, Copy, Debug, PartialEq, Eq, Structural)]
pub struct VertexAttribute {
    pub location: u32,
    pub components: i32,
    pub offset: usize,
}

/// Number of vertices that `positions_len` position components describe,
/// three per vertex; an incomplete last vertex is dropped.
pub open spec fn spec_vertex_count(positions_len: int) -> int {
    positions_len / 3
}

/// The vertex count of a mesh, once its normals and texture coordinates
/// cover every vertex its positions describe.
pub fn vertex_count(positions_len: usize, normals_len: usize, texcoords_len: usize) -> (r: Result<
    usize,
    MeshError,
>)
    ensures
        ({
            let n = spec_vertex_count(positions_len as int);
            r == (if normals_len < 3 * n {
                Err::<usize, MeshError>(MeshError::MissingNormals)
            } else if texcoords_len < 2 * n {
                Err(MeshError::MissingTexcoords)
            } else {
                Ok(n as usize)
            })
        }),
{
    let n = positions_len / 3;
    if normals_len / 3 < n {
        Err(MeshError::MissingNormals)
    } else if texcoords_len / 2 < n {
        Err(MeshError::MissingTexcoords)
    } else {
        Ok(n)
    }
}

/// Triangle `t` of an index list: the three indices from `3 * t` on.
pub open spec fn spec_triangle(indices: Seq<u32>, t: int) -> Triangle {
    Triangle {
        a: indices[3 * t] as usize,
        b: indices[3 * t + 1] as usize,
        c: indices[3 * t + 2] as usize,
    }
}

pub open spec fn spec_triangles(indices: Seq<u32>) -> Seq<Triangle> {
    Seq::new((indices.len() / 3) as nat, |t: int| spec_triangle(indices, t))
}

/// Splits an index list into triangles over `vertex_count` vertices. Fails
/// when the indices do not make whole triangles, then at the first index
/// that names no vertex.
pub fn triangles(indices: &Vec<u32>, vertex_count: usize) -> (r: Result<Vec<Triangle>, MeshError>)
    ensures
        indices@.len() % 3 != 0 ==> r == Err::<Vec<Triangle>, MeshError>(MeshError::PartialTriangle),
        indices@.len() % 3 == 0 ==> match r {
            Ok(ts) => ts@ == spec_triangles(indices@) && forall|k: int|
                0 <= k < indices@.len() ==> indices@[k] < vertex_count,
            Err(e) => exists|k: int|
                0 <= k < indices@.len() && e == MeshError::IndexOutOfRange(k as usize)
                    && indices@[k] >= vertex_count && forall|j: int|
                    0 <= j < k ==> indices@[j] < vertex_count,
        },
{
    let len = indices.len();
    if len % 3 != 0 {
        return Err(MeshError::PartialTriangle);
    }
    let mut k: usize = 0;
    while k < len
        invariant
            k <= len == indices@.len(),
            len % 3 == 0,
            forall|j: int| 0 <= j < k ==> indices@[j] < vertex_count,
        decreases len - k,
    {
        if indices[k] as usize >= vertex_count {
            return Err(MeshError::IndexOutOfRange(k));
        }
        k = k + 1;
    }
    let count = len / 3;
    let mut result: Vec<Triangle> = Vec::with_capacity(count);
    let mut t: usize = 0;
    while t < count
        invariant
            t <= count,
            count == indices@.len() / 3,
            len == indices@.len(),
            len % 3 == 0,
            result@ == spec_triangles(indices@).take(t as int),
        decreases count - t,
    {
        let base = 3 * t;
        result.push(
            Triangle {
                a: indices[base] as usize,
                b: indices[base + 1] as usize,
                c: indices[base + 2] as usize,
            },
        );
        t = t + 1;
        assert(result@ =~= spec_triangles(indices@).take(t as int));
    }
    assert(result@ =~= spec_triangles(indices@));
    Ok(result)
}

/// Bytes that `count` elements of `element_size` bytes take, when that fits
/// the graphics API's signed size type.
pub fn buffer_size(count: usize, element_size: usize) -> (r: Option<isize>)
    ensures
        r == (if count * element_size <= isize::MAX {
            Some((count * element_size) as isize)
        } else {
            None
        }),
{
    match count.checked_mul(element_size) {
        Some(bytes) => {
            if bytes <= isize::MAX as usize {
                Some(bytes as isize)
            } else {
                None
            }
        },
        None => None,
    }
}

/// The vertex and index buffer sizes of a mesh, in bytes.
pub fn upload_sizes(vertex_count: usize, vertex_size: usize, index_count: usize) -> (r: Result<
    (isize, isize),
    MeshError,
>)
    ensures
        r == (if vertex_count == 0 || index_count == 0 {
            Err::<(isize, isize), MeshError>(MeshError::EmptyMesh)
        } else if vertex_count * vertex_size > isize::MAX || index_count * 4 > isize::MAX {
            Err(MeshError::SizeOverflow)
        } else {
            Ok(((vertex_count * vertex_size) as isize, (index_count * 4) as isize))
        }),
{
    if vertex_count == 0 || index_count == 0 {
        return Err(MeshError::EmptyMesh);
    }
    match (buffer_size(vertex_count, vertex_size), buffer_size(index_count, 4)) {
        (Some(vertices), Some(indices)) => Ok((vertices, indices)),
        _ => Err(MeshError::SizeOverflow),
    }
}

/// The number of indices one draw call takes, when it fits the graphics
/// API's signed count type.
pub fn element_count(index_count: usize) -> (r: Option<i32>)
    ensures
        r == (if index_count <= i32::MAX {
            Some(index_count as i32)
        } else {
            None
        }),
{
    if index_count <= i32::MAX as usize {
        Some(index_count as i32)
    } else {
        None
    }
}

pub open spec fn spec_vertex_attributes() -> Seq<VertexAttribute> {
    seq![
        VertexAttribute { location: 0, components: 3, offset: 0 },
        VertexAttribute { location: 1, components: 3, offset: (3 * FLOAT_BYTES) as usize },
        VertexAttribute { location: 2, components: 2, offset: (6 * FLOAT_BYTES) as usize },
    ]
}

/// The attributes a vertex feeds the shaders: its position at location 0,
/// its normal at 1, its texture coordinates at 2, packed in that order.
pub fn vertex_attributes() -> (r: Vec<VertexAttribute>)
    ensures
        r@ == spec_vertex_attributes(),
{
    let r = vec![
        VertexAttribute { location: 0, components: 3, offset: 0 },
        VertexAttribute { location: 1, components: 3, offset: 3 * FLOAT_BYTES },
        VertexAttribute { location: 2, components: 2, offset: 6 * FLOAT_BYTES },
    ];
    assert(r@ =~= spec_vertex_attributes());
    r
}

} // verus!
