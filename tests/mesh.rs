use tofu::mesh::{
    buffer_size, element_count, triangles, upload_sizes, vertex_attributes, vertex_count,
    MeshError, Triangle, VertexAttribute,
};

#[test]
fn vertex_count_is_a_third_of_the_positions() {
    assert_eq!(vertex_count(9, 9, 6), Ok(3));
    assert_eq!(vertex_count(11, 9, 6), Ok(3));
    assert_eq!(vertex_count(0, 0, 0), Ok(0));
}

#[test]
fn vertex_count_needs_normals_for_every_vertex() {
    assert_eq!(vertex_count(9, 8, 6), Err(MeshError::MissingNormals));
}

#[test]
fn vertex_count_needs_texcoords_for_every_vertex() {
    assert_eq!(vertex_count(9, 9, 5), Err(MeshError::MissingTexcoords));
}

#[test]
fn indices_split_into_triangles() {
    let ts = triangles(&vec![0, 1, 2, 2, 1, 3], 4).unwrap();
    assert_eq!(
        ts,
        vec![Triangle { a: 0, b: 1, c: 2 }, Triangle { a: 2, b: 1, c: 3 }]
    );
}

#[test]
fn no_indices_make_no_triangles() {
    assert_eq!(triangles(&vec![], 0), Ok(vec![]));
}

#[test]
fn incomplete_triangle_is_refused() {
    assert_eq!(triangles(&vec![0, 1, 2, 0], 3), Err(MeshError::PartialTriangle));
}

#[test]
fn first_index_past_the_vertices_is_reported() {
    assert_eq!(
        triangles(&vec![0, 1, 2, 0, 5, 7], 3),
        Err(MeshError::IndexOutOfRange(4))
    );
    assert_eq!(triangles(&vec![3, 0, 1], 3), Err(MeshError::IndexOutOfRange(0)));
}

#[test]
fn buffer_size_multiplies_count_by_element_size() {
    assert_eq!(buffer_size(36, 4), Some(144));
    assert_eq!(buffer_size(0, 32), Some(0));
}

#[test]
fn buffer_size_refuses_what_does_not_fit() {
    assert_eq!(buffer_size(usize::MAX, 2), None);
    assert_eq!(buffer_size(isize::MAX as usize + 1, 1), None);
    assert_eq!(buffer_size(isize::MAX as usize, 1), Some(isize::MAX));
}

#[test]
fn upload_sizes_of_a_cube() {
    assert_eq!(upload_sizes(8, 20, 36), Ok((160, 144)));
}

#[test]
fn empty_mesh_has_nothing_to_upload() {
    assert_eq!(upload_sizes(0, 32, 3), Err(MeshError::EmptyMesh));
    assert_eq!(upload_sizes(3, 32, 0), Err(MeshError::EmptyMesh));
}

#[test]
fn oversized_mesh_is_refused() {
    assert_eq!(upload_sizes(usize::MAX / 2, 32, 3), Err(MeshError::SizeOverflow));
    assert_eq!(upload_sizes(3, 32, usize::MAX / 2), Err(MeshError::SizeOverflow));
}

#[test]
fn element_count_fits_a_signed_count() {
    assert_eq!(element_count(36), Some(36));
    assert_eq!(element_count(i32::MAX as usize), Some(i32::MAX));
    assert_eq!(element_count(i32::MAX as usize + 1), None);
}

#[test]
fn attributes_are_position_normal_uv() {
    assert_eq!(
        vertex_attributes(),
        vec![
            VertexAttribute { location: 0, components: 3, offset: 0 },
            VertexAttribute { location: 1, components: 3, offset: 12 },
            VertexAttribute { location: 2, components: 2, offset: 24 },
        ]
    );
}
