use rendust::mesh::{
    vertex_attributes, DrawCall, Mesh, MeshLayout, PrimitiveType, GL_LINES, GL_POINTS, GL_QUADS,
    GL_TRIANGLES, VERTEX_BYTES,
};

#[test]
fn primitive_modes_are_the_registry_values() {
    assert_eq!(PrimitiveType::Points.to_gl_const(), 0x0000);
    assert_eq!(PrimitiveType::Lines.to_gl_const(), 0x0001);
    assert_eq!(PrimitiveType::Triangles.to_gl_const(), 0x0004);
    assert_eq!(PrimitiveType::Quads.to_gl_const(), 0x0007);
}

#[test]
fn primitive_modes_match_the_gl_bindings() {
    assert_eq!(GL_POINTS, gl::POINTS);
    assert_eq!(GL_LINES, gl::LINES);
    assert_eq!(GL_TRIANGLES, gl::TRIANGLES);
    assert_eq!(GL_QUADS, 0x0007);
}

#[test]
fn vertex_attributes_are_packed() {
    let a = vertex_attributes();
    assert_eq!(a.len(), 3);
    assert_eq!((a[0].index, a[0].components, a[0].offset), (0, 3, 0));
    assert_eq!((a[1].index, a[1].components, a[1].offset), (1, 4, 12));
    assert_eq!((a[2].index, a[2].components, a[2].offset), (2, 2, 28));
    assert_eq!(VERTEX_BYTES, 36);
    assert_eq!(VERTEX_BYTES, std::mem::size_of::<[f32; 9]>());
}

#[test]
fn mesh_without_indices_draws_its_vertices() {
    let layout = MeshLayout::plan(3, None).unwrap();
    assert_eq!(layout.vertex_bytes(), 108);
    assert_eq!(layout.index_bytes(), None);
    let mesh = Mesh::from_buffers(PrimitiveType::Triangles, &layout, 5, None);
    assert_eq!(mesh.vbo(), 5);
    assert_eq!(mesh.primitive(), PrimitiveType::Triangles);
    assert_eq!(
        mesh.draw_call(),
        DrawCall::Arrays { mode: GL_TRIANGLES, first: 0, count: 3 }
    );
}

#[test]
fn mesh_with_indices_draws_its_indices() {
    let layout = MeshLayout::plan(8, Some(24)).unwrap();
    assert_eq!(layout.vertex_bytes(), 288);
    assert_eq!(layout.index_bytes(), Some(96));
    let mesh = Mesh::from_buffers(PrimitiveType::Quads, &layout, 1, Some(2));
    assert_eq!(
        mesh.draw_call(),
        DrawCall::Elements { mode: GL_QUADS, count: 24, ibo: 2 }
    );
}

#[test]
fn mesh_with_empty_indices_draws_nothing() {
    let layout = MeshLayout::plan(4, Some(0)).unwrap();
    assert_eq!(layout.index_bytes(), Some(0));
    let mesh = Mesh::from_buffers(PrimitiveType::Points, &layout, 1, Some(9));
    assert_eq!(
        mesh.draw_call(),
        DrawCall::Elements { mode: GL_POINTS, count: 0, ibo: 9 }
    );
}

#[test]
fn empty_mesh_is_planned() {
    let layout = MeshLayout::plan(0, None).unwrap();
    assert_eq!(layout.vertex_bytes(), 0);
    let mesh = Mesh::from_buffers(PrimitiveType::Lines, &layout, 3, None);
    assert_eq!(mesh.draw_call(), DrawCall::Arrays { mode: GL_LINES, first: 0, count: 0 });
}

#[test]
fn mesh_count_beyond_gl_sizei_is_refused() {
    assert!(MeshLayout::plan(i32::MAX as usize + 1, None).is_none());
    assert!(MeshLayout::plan(3, Some(i32::MAX as usize + 1)).is_none());
    assert!(MeshLayout::plan(i32::MAX as usize, None).is_some());
    assert!(MeshLayout::plan(i32::MAX as usize + 1, Some(6)).is_some());
}

#[test]
fn mesh_bytes_beyond_gl_sizeiptr_are_refused() {
    assert!(MeshLayout::plan(isize::MAX as usize / 36 + 1, Some(3)).is_none());
    assert!(MeshLayout::plan(3, Some(isize::MAX as usize / 4 + 1)).is_none());
}
