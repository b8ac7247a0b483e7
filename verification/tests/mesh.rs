use glyph_mesh::buffer::{export, BufferVec2};
use glyph_mesh::error::MeshError;
use glyph_mesh::mesh::{Face, Mesh2D, MAX_TRIANGLES};
use glyph_mesh::vector::Vector2;

fn point(x: f32, y: f32) -> Vector2 {
    Vector2::new(x.to_bits(), y.to_bits())
}

fn unit_square() -> (Vec<Vector2>, Vec<Face>) {
    (
        vec![point(0.0, 0.0), point(1.0, 0.0), point(1.0, 1.0), point(0.0, 1.0)],
        vec![Face::new(0, 1, 2), Face::new(0, 2, 3)],
    )
}

/// A 3 by 3 square with a 1 by 1 hole in its middle, as eight triangles.
fn square_with_hole() -> (Vec<Vector2>, Vec<Face>) {
    (
        vec![
            point(0.0, 0.0),
            point(3.0, 0.0),
            point(3.0, 3.0),
            point(0.0, 3.0),
            point(1.0, 1.0),
            point(2.0, 1.0),
            point(2.0, 2.0),
            point(1.0, 2.0),
        ],
        vec![
            Face::new(0, 1, 5),
            Face::new(0, 5, 4),
            Face::new(1, 2, 6),
            Face::new(1, 6, 5),
            Face::new(2, 3, 7),
            Face::new(2, 7, 6),
            Face::new(3, 0, 4),
            Face::new(3, 4, 7),
        ],
    )
}

fn area(stream: &[Vector2]) -> f32 {
    let mut total = 0.0f32;
    for corners in stream.chunks(3) {
        let (ax, ay) = (f32::from_bits(corners[0].x), f32::from_bits(corners[0].y));
        let (bx, by) = (f32::from_bits(corners[1].x), f32::from_bits(corners[1].y));
        let (cx, cy) = (f32::from_bits(corners[2].x), f32::from_bits(corners[2].y));
        total += ((bx - ax) * (cy - ay) - (cx - ax) * (by - ay)).abs() / 2.0;
    }
    total
}

#[test]
fn face_keeps_its_corners() {
    let face = Face::new(4, 0, 9);
    assert_eq!((face.v1, face.v2, face.v3), (4, 0, 9));
    assert_eq!(face, Face { v1: 4, v2: 0, v3: 9 });
}

#[test]
fn triangle_limit_fills_the_reported_count() {
    assert_eq!(MAX_TRIANGLES as u64 * 3, u32::MAX as u64);
}

#[test]
fn empty_mesh_has_no_triangles() {
    let mesh = Mesh2D::empty();
    assert_eq!(mesh.triangle_count(), 0);
    assert!(mesh.to_stream().is_empty());
}

#[test]
fn answer_without_faces_is_the_empty_mesh() {
    let mesh = Mesh2D::from_indexed(vec![point(1.0, 2.0)], Vec::new()).unwrap();
    assert_eq!(mesh.triangle_count(), 0);
    assert!(mesh.to_stream().is_empty());
}

#[test]
fn unit_square_stream_is_two_triangles_in_face_order() {
    let (vertices, faces) = unit_square();
    let mesh = Mesh2D::from_indexed(vertices, faces).unwrap();
    assert_eq!(mesh.triangle_count(), 2);
    assert_eq!(
        mesh.to_stream(),
        vec![
            point(0.0, 0.0),
            point(1.0, 0.0),
            point(1.0, 1.0),
            point(0.0, 0.0),
            point(1.0, 1.0),
            point(0.0, 1.0),
        ]
    );
    assert_eq!(mesh.triangle(0), (point(0.0, 0.0), point(1.0, 0.0), point(1.0, 1.0)));
    assert_eq!(mesh.triangle(1), (point(0.0, 0.0), point(1.0, 1.0), point(0.0, 1.0)));
}

#[test]
fn unit_square_area_is_preserved() {
    let (vertices, faces) = unit_square();
    let mesh = Mesh2D::from_indexed(vertices, faces).unwrap();
    let stream = mesh.to_stream();
    assert!((area(&stream) - 1.0).abs() < 1e-6);
}

#[test]
fn hole_stays_uncovered() {
    let (vertices, faces) = square_with_hole();
    let mesh = Mesh2D::from_indexed(vertices, faces).unwrap();
    let stream = mesh.to_stream();
    assert_eq!(stream.len(), 24);
    assert!((area(&stream) - 8.0).abs() < 1e-5);
    for corners in stream.chunks(3) {
        let x = corners.iter().map(|p| f32::from_bits(p.x)).sum::<f32>() / 3.0;
        let y = corners.iter().map(|p| f32::from_bits(p.y)).sum::<f32>() / 3.0;
        assert!(!(x > 1.0 && x < 2.0 && y > 1.0 && y < 2.0));
    }
}

#[test]
fn stream_order_follows_corner_order() {
    let vertices = vec![point(0.0, 0.0), point(1.0, 0.0), point(0.0, 1.0)];
    let mesh = Mesh2D::from_indexed(vertices, vec![Face::new(2, 0, 1)]).unwrap();
    assert_eq!(mesh.to_stream(), vec![point(0.0, 1.0), point(0.0, 0.0), point(1.0, 0.0)]);
}

#[test]
fn unused_vertices_are_left_out_of_the_stream() {
    let vertices = vec![point(9.0, 9.0), point(0.0, 0.0), point(1.0, 0.0), point(0.0, 1.0)];
    let mesh = Mesh2D::from_indexed(vertices, vec![Face::new(1, 2, 3)]).unwrap();
    assert_eq!(mesh.to_stream(), vec![point(0.0, 0.0), point(1.0, 0.0), point(0.0, 1.0)]);
}

#[test]
fn index_past_the_vertices_fails() {
    let (vertices, _) = unit_square();
    let result = Mesh2D::from_indexed(vertices, vec![Face::new(0, 1, 4)]);
    assert_eq!(result.unwrap_err(), MeshError::TriangulationFailed);
}

#[test]
fn negative_index_fails() {
    let (vertices, _) = unit_square();
    let result = Mesh2D::from_indexed(vertices.clone(), vec![Face::new(-1, 1, 2)]);
    assert_eq!(result.unwrap_err(), MeshError::TriangulationFailed);
    let result = Mesh2D::from_indexed(vertices, vec![Face::new(0, 1, i32::MIN)]);
    assert_eq!(result.unwrap_err(), MeshError::TriangulationFailed);
}

#[test]
fn faces_without_vertices_fail() {
    let result = Mesh2D::from_indexed(Vec::new(), vec![Face::new(0, 1, 2)]);
    assert_eq!(result.unwrap_err(), MeshError::TriangulationFailed);
}

#[test]
fn face_with_a_repeated_corner_fails() {
    let (vertices, _) = unit_square();
    for face in [Face::new(0, 0, 1), Face::new(0, 1, 1), Face::new(2, 1, 2), Face::new(3, 3, 3)] {
        let result = Mesh2D::from_indexed(vertices.clone(), vec![face]);
        assert_eq!(result.unwrap_err(), MeshError::TriangulationFailed);
    }
}

#[test]
fn edge_of_two_faces_is_accepted() {
    let vertices = vec![point(0.0, 0.0), point(1.0, 0.0), point(0.0, 1.0), point(0.0, -1.0)];
    let faces = vec![Face::new(0, 1, 2), Face::new(1, 0, 3)];
    let mesh = Mesh2D::from_indexed(vertices, faces).unwrap();
    assert_eq!(mesh.triangle_count(), 2);
}

#[test]
fn edge_of_three_faces_fails() {
    let vertices = vec![
        point(0.0, 0.0),
        point(1.0, 0.0),
        point(0.0, 1.0),
        point(0.0, -1.0),
        point(1.0, 1.0),
    ];
    let faces = vec![Face::new(0, 1, 2), Face::new(1, 0, 3), Face::new(0, 1, 4)];
    let result = Mesh2D::from_indexed(vertices, faces);
    assert_eq!(result.unwrap_err(), MeshError::TriangulationFailed);
}

#[test]
fn edge_of_three_faces_fails_whichever_side_it_is() {
    let vertices = vec![
        point(0.0, 0.0),
        point(1.0, 0.0),
        point(0.0, 1.0),
        point(0.0, -1.0),
        point(1.0, 1.0),
    ];
    let faces = vec![Face::new(2, 0, 1), Face::new(3, 1, 0), Face::new(1, 4, 0)];
    let result = Mesh2D::from_indexed(vertices.clone(), faces);
    assert_eq!(result.unwrap_err(), MeshError::TriangulationFailed);
    let faces = vec![Face::new(0, 2, 1), Face::new(1, 3, 0), Face::new(0, 4, 1)];
    let result = Mesh2D::from_indexed(vertices, faces);
    assert_eq!(result.unwrap_err(), MeshError::TriangulationFailed);
}

#[test]
fn same_face_three_times_fails() {
    let (vertices, _) = unit_square();
    let faces = vec![Face::new(0, 1, 2), Face::new(0, 1, 2), Face::new(0, 1, 2)];
    let result = Mesh2D::from_indexed(vertices, faces);
    assert_eq!(result.unwrap_err(), MeshError::TriangulationFailed);
}

#[test]
fn fan_around_a_vertex_is_accepted() {
    let mut vertices = vec![point(0.0, 0.0)];
    let mut faces = Vec::new();
    let spokes: i32 = 64;
    for i in 0..spokes {
        let angle = (i as f32) * std::f32::consts::TAU / (spokes as f32);
        vertices.push(point(angle.cos(), angle.sin()));
        faces.push(Face::new(0, 1 + i, 1 + (i + 1) % spokes));
    }
    let mesh = Mesh2D::from_indexed(vertices, faces).unwrap();
    assert_eq!(mesh.triangle_count(), 64);
    assert_eq!(mesh.to_stream().len(), 192);
}

#[test]
fn high_vertex_indices_are_told_apart() {
    let count: usize = 70_000;
    let vertices: Vec<Vector2> = (0..count).map(|i| point(i as f32, 0.0)).collect();
    let faces = vec![
        Face::new(0, 65_536, 1),
        Face::new(0, 65_536, 2),
        Face::new(65_536, 0, 65_537),
    ];
    let result = Mesh2D::from_indexed(vertices.clone(), faces);
    assert_eq!(result.unwrap_err(), MeshError::TriangulationFailed);
    let faces = vec![Face::new(0, 65_536, 1), Face::new(0, 65_536, 2), Face::new(1, 65_536, 3)];
    let mesh = Mesh2D::from_indexed(vertices, faces).unwrap();
    assert_eq!(mesh.triangle(2), (point(1.0, 0.0), point(65_536.0, 0.0), point(3.0, 0.0)));
}

#[test]
fn buffer_length_is_the_element_count() {
    let data = vec![point(0.0, 0.0), point(1.0, 0.0), point(0.0, 1.0)];
    let buffer = BufferVec2::new(data.clone()).unwrap();
    assert_eq!(buffer.len(), 3);
    assert_eq!(buffer.as_vec(), &data);
    let (array, len) = buffer.into_parts();
    assert_eq!(array, data);
    assert_eq!(len, 3);
}

#[test]
fn buffer_of_nothing_has_length_zero() {
    let buffer = BufferVec2::new(Vec::new()).unwrap();
    assert_eq!(buffer.len(), 0);
    let (array, len) = buffer.into_parts();
    assert!(array.is_empty());
    assert_eq!(len, 0);
}

#[test]
fn export_hands_over_the_triangle_stream() {
    let (vertices, faces) = square_with_hole();
    let mesh = Mesh2D::from_indexed(vertices, faces).unwrap();
    let stream = mesh.to_stream();
    let buffer = export(mesh);
    assert_eq!(buffer.len(), 24);
    assert_eq!(buffer.as_vec(), &stream);
    let (array, len) = buffer.into_parts();
    assert_eq!(len as usize, array.len());
    assert_eq!(array, stream);
}

#[test]
fn export_of_the_empty_mesh_has_length_zero() {
    let buffer = export(Mesh2D::empty());
    assert_eq!(buffer.len(), 0);
    assert!(buffer.as_vec().is_empty());
}

#[test]
fn export_reads_back_element_by_element() {
    let (vertices, faces) = unit_square();
    let expected: Vec<Vector2> = faces
        .iter()
        .flat_map(|f| [f.v1, f.v2, f.v3])
        .map(|i| vertices[i as usize])
        .collect();
    let buffer = export(Mesh2D::from_indexed(vertices, faces).unwrap());
    let (array, len) = buffer.into_parts();
    assert_eq!(len, 6);
    for i in 0..len as usize {
        assert_eq!(array[i], expected[i]);
    }
}
