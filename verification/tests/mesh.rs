use obj_scene::geometry::{Indices, Triangle, Vec2, Vec3};
use obj_scene::mesh::{assemble_mesh, IndexMode, MeshError, MeshRecord};

fn v3(x: f32, y: f32, z: f32) -> Vec3<f32> {
    Vec3 { x, y, z }
}

fn record(positions: Vec<f32>, indices: Vec<u32>) -> MeshRecord<f32> {
    MeshRecord {
        name: String::from("mesh"),
        positions,
        normals: Vec::new(),
        texcoords: Vec::new(),
        indices: Indices::U32(indices),
        material: None,
    }
}

fn triangle_record() -> MeshRecord<f32> {
    record(vec![0.0, 0.0, 0.0, 1.0, 0.0, 0.0, 0.0, 1.0, 0.0], vec![0, 1, 2])
}

/// A unit square as two triangles over four shared corners.
fn shared_square() -> MeshRecord<f32> {
    record(
        vec![0.0, 0.0, 0.0, 1.0, 0.0, 0.0, 1.0, 1.0, 0.0, 0.0, 1.0, 0.0],
        vec![0, 1, 2, 0, 2, 3],
    )
}

/// The same square with one position group per index entry.
fn expanded_square() -> MeshRecord<f32> {
    record(
        vec![
            0.0, 0.0, 0.0, 1.0, 0.0, 0.0, 1.0, 1.0, 0.0, 0.0, 0.0, 0.0, 1.0, 1.0, 0.0, 0.0, 1.0,
            0.0,
        ],
        vec![0, 1, 2, 3, 4, 5],
    )
}

fn key(v: &Vec3<f32>) -> [u32; 3] {
    [v.x.to_bits(), v.y.to_bits(), v.z.to_bits()]
}

fn sorted_faces(faces: Vec<Triangle<f32>>) -> Vec<[[u32; 3]; 3]> {
    let mut keys: Vec<[[u32; 3]; 3]> =
        faces.iter().map(|t| [key(&t.a), key(&t.b), key(&t.c)]).collect();
    keys.sort();
    keys
}

#[test]
fn single_triangle_without_normals_or_uvs_multi_index() {
    let mesh = assemble_mesh(triangle_record(), IndexMode::MultiIndex, 0.0).unwrap();
    assert_eq!(
        mesh.positions,
        vec![v3(0.0, 0.0, 0.0), v3(1.0, 0.0, 0.0), v3(0.0, 1.0, 0.0)]
    );
    assert_eq!(mesh.positions.len(), 3);
    assert_eq!(mesh.normals, None);
    assert_eq!(mesh.uvs, None);
    assert_eq!(mesh.indices, Indices::U32(vec![0, 1, 2]));
}

#[test]
fn single_triangle_without_normals_or_uvs_single_index() {
    let mesh = assemble_mesh(triangle_record(), IndexMode::SingleIndex, 0.0).unwrap();
    assert_eq!(
        mesh.positions,
        vec![v3(0.0, 0.0, 0.0), v3(1.0, 0.0, 0.0), v3(0.0, 1.0, 0.0)]
    );
    assert_eq!(mesh.normals, None);
    assert_eq!(mesh.uvs, None);
    assert_eq!(mesh.indices, Indices::U32(vec![0, 1, 2]));
}

#[test]
fn multi_index_reads_every_array_straight_through() {
    let mut r = shared_square();
    r.normals = vec![0.0, 0.0, 1.0, 0.0, 0.0, 1.0, 0.0, 0.0, 1.0, 0.0, 0.0, 1.0];
    r.texcoords = vec![0.0, 0.0, 1.0, 0.0, 1.0, 1.0, 0.0, 1.0];
    let mesh = assemble_mesh(r, IndexMode::MultiIndex, 0.0).unwrap();
    assert_eq!(
        mesh.positions,
        vec![v3(0.0, 0.0, 0.0), v3(1.0, 0.0, 0.0), v3(1.0, 1.0, 0.0), v3(0.0, 1.0, 0.0)]
    );
    assert_eq!(mesh.normals, Some(vec![v3(0.0, 0.0, 1.0); 4]));
    assert_eq!(
        mesh.uvs,
        Some(vec![
            Vec2 { x: 0.0, y: 0.0 },
            Vec2 { x: 1.0, y: 0.0 },
            Vec2 { x: 1.0, y: 1.0 },
            Vec2 { x: 0.0, y: 1.0 },
        ])
    );
    assert_eq!(mesh.indices, Indices::U32(vec![0, 1, 2, 0, 2, 3]));
}

#[test]
fn multi_index_keeps_a_sixteen_bit_index_buffer() {
    let mut r = shared_square();
    r.indices = Indices::U16(vec![0, 1, 2, 0, 2, 3]);
    let mesh = assemble_mesh(r, IndexMode::MultiIndex, 0.0).unwrap();
    assert_eq!(mesh.indices, Indices::U16(vec![0, 1, 2, 0, 2, 3]));
}

#[test]
fn single_index_emits_one_vertex_per_index_entry() {
    let mesh = assemble_mesh(shared_square(), IndexMode::SingleIndex, 0.0).unwrap();
    assert_eq!(
        mesh.positions,
        vec![
            v3(0.0, 0.0, 0.0),
            v3(1.0, 0.0, 0.0),
            v3(1.0, 1.0, 0.0),
            v3(0.0, 0.0, 0.0),
            v3(1.0, 1.0, 0.0),
            v3(0.0, 1.0, 0.0),
        ]
    );
    assert_eq!(mesh.indices, Indices::U32(vec![0, 1, 2, 3, 4, 5]));
}

#[test]
fn single_index_widens_a_sixteen_bit_index_buffer() {
    let mut r = shared_square();
    r.indices = Indices::U16(vec![3, 2, 1]);
    let mesh = assemble_mesh(r, IndexMode::SingleIndex, 0.0).unwrap();
    assert_eq!(
        mesh.positions,
        vec![v3(0.0, 1.0, 0.0), v3(1.0, 1.0, 0.0), v3(1.0, 0.0, 0.0)]
    );
    assert_eq!(mesh.indices, Indices::U32(vec![0, 1, 2]));
}

#[test]
fn single_index_gathers_normals_per_index_entry() {
    let mut r = shared_square();
    r.normals = vec![1.0, 0.0, 0.0, 0.0, 1.0, 0.0, 0.0, 0.0, 1.0, 1.0, 1.0, 1.0];
    let mesh = assemble_mesh(r, IndexMode::SingleIndex, 0.0).unwrap();
    assert_eq!(
        mesh.normals,
        Some(vec![
            v3(1.0, 0.0, 0.0),
            v3(0.0, 1.0, 0.0),
            v3(0.0, 0.0, 1.0),
            v3(1.0, 0.0, 0.0),
            v3(0.0, 0.0, 1.0),
            v3(1.0, 1.0, 1.0),
        ])
    );
}

#[test]
fn single_index_fills_missing_normals_with_zero() {
    let mut r = shared_square();
    // Normals for the first two vertices only, and a stray scalar.
    r.normals = vec![1.0, 0.0, 0.0, 0.0, 1.0, 0.0, 9.0];
    let mesh = assemble_mesh(r, IndexMode::SingleIndex, 0.0).unwrap();
    assert_eq!(
        mesh.normals,
        Some(vec![
            v3(1.0, 0.0, 0.0),
            v3(0.0, 1.0, 0.0),
            v3(0.0, 0.0, 0.0),
            v3(1.0, 0.0, 0.0),
            v3(0.0, 0.0, 0.0),
            v3(0.0, 0.0, 0.0),
        ])
    );
}

#[test]
fn single_index_uses_the_given_zero() {
    let mut r = triangle_record();
    r.normals = vec![5.0];
    let mesh = assemble_mesh(r, IndexMode::SingleIndex, -1.0).unwrap();
    assert_eq!(mesh.normals, Some(vec![v3(-1.0, -1.0, -1.0); 3]));
}

#[test]
fn single_index_reads_uvs_straight_through() {
    let mut r = shared_square();
    r.texcoords = vec![0.0, 0.0, 1.0, 0.0, 1.0, 1.0, 0.0, 1.0];
    let mesh = assemble_mesh(r, IndexMode::SingleIndex, 0.0).unwrap();
    assert_eq!(
        mesh.uvs,
        Some(vec![
            Vec2 { x: 0.0, y: 0.0 },
            Vec2 { x: 1.0, y: 0.0 },
            Vec2 { x: 1.0, y: 1.0 },
            Vec2 { x: 0.0, y: 1.0 },
        ])
    );
}

#[test]
fn a_short_but_present_array_gives_an_empty_buffer_in_multi_index_mode() {
    let mut r = triangle_record();
    r.normals = vec![1.0, 2.0];
    r.texcoords = vec![1.0];
    let mesh = assemble_mesh(r, IndexMode::MultiIndex, 0.0).unwrap();
    assert_eq!(mesh.normals, Some(Vec::new()));
    assert_eq!(mesh.uvs, Some(Vec::new()));
}

#[test]
fn an_index_past_the_positions_is_refused_in_both_modes() {
    let bad = record(vec![0.0, 0.0, 0.0, 1.0, 0.0, 0.0, 0.0, 1.0, 0.0], vec![0, 3, 7]);
    assert_eq!(
        assemble_mesh(bad.clone(), IndexMode::MultiIndex, 0.0),
        Err(MeshError::IndexOutOfBounds { slot: 1, index: 3 })
    );
    assert_eq!(
        assemble_mesh(bad, IndexMode::SingleIndex, 0.0),
        Err(MeshError::IndexOutOfBounds { slot: 1, index: 3 })
    );
}

#[test]
fn an_index_into_a_partial_position_group_is_refused() {
    // Two complete groups and two stray scalars: vertex 2 does not exist.
    let bad = record(vec![0.0, 0.0, 0.0, 1.0, 0.0, 0.0, 0.0, 1.0], vec![0, 1, 2]);
    assert_eq!(
        assemble_mesh(bad, IndexMode::SingleIndex, 0.0),
        Err(MeshError::IndexOutOfBounds { slot: 2, index: 2 })
    );
}

#[test]
fn any_index_is_refused_when_there_are_no_positions() {
    let bad = record(Vec::new(), vec![0]);
    assert_eq!(
        assemble_mesh(bad, IndexMode::MultiIndex, 0.0),
        Err(MeshError::IndexOutOfBounds { slot: 0, index: 0 })
    );
}

#[test]
fn an_empty_record_assembles_to_an_empty_mesh() {
    for mode in [IndexMode::MultiIndex, IndexMode::SingleIndex] {
        let mesh = assemble_mesh(record(Vec::new(), Vec::new()), mode, 0.0).unwrap();
        assert_eq!(mesh.positions, Vec::new());
        assert_eq!(mesh.normals, None);
        assert_eq!(mesh.uvs, None);
        assert_eq!(mesh.indices, Indices::U32(Vec::new()));
    }
}

#[test]
fn emitted_indices_stay_below_the_vertex_count() {
    for mode in [IndexMode::MultiIndex, IndexMode::SingleIndex] {
        for r in [triangle_record(), shared_square(), expanded_square()] {
            let mesh = assemble_mesh(r, mode, 0.0).unwrap();
            for k in 0..mesh.indices.len() {
                assert!((mesh.indices.get(k) as usize) < mesh.positions.len());
            }
        }
    }
}

#[test]
fn expanded_and_shared_forms_describe_the_same_triangles() {
    let from_expanded = assemble_mesh(expanded_square(), IndexMode::MultiIndex, 0.0).unwrap();
    let from_shared = assemble_mesh(shared_square(), IndexMode::SingleIndex, 0.0).unwrap();
    let a = sorted_faces(from_expanded.face_positions().unwrap());
    let b = sorted_faces(from_shared.face_positions().unwrap());
    assert_eq!(a.len(), 2);
    assert_eq!(a, b);
}

#[test]
fn triangle_order_does_not_matter_for_equivalence() {
    // The expanded square with its two faces swapped.
    let swapped = record(
        vec![
            0.0, 0.0, 0.0, 1.0, 1.0, 0.0, 0.0, 1.0, 0.0, 0.0, 0.0, 0.0, 1.0, 0.0, 0.0, 1.0, 1.0,
            0.0,
        ],
        vec![0, 1, 2, 3, 4, 5],
    );
    let from_expanded = assemble_mesh(swapped, IndexMode::MultiIndex, 0.0).unwrap();
    let from_shared = assemble_mesh(shared_square(), IndexMode::SingleIndex, 0.0).unwrap();
    assert_eq!(
        sorted_faces(from_expanded.face_positions().unwrap()),
        sorted_faces(from_shared.face_positions().unwrap())
    );
}

#[test]
fn both_modes_keep_the_faces_of_one_record() {
    let multi = assemble_mesh(shared_square(), IndexMode::MultiIndex, 0.0).unwrap();
    let single = assemble_mesh(shared_square(), IndexMode::SingleIndex, 0.0).unwrap();
    assert_eq!(multi.face_positions(), single.face_positions());
    assert_eq!(
        multi.face_positions().unwrap()[1],
        Triangle { a: v3(0.0, 0.0, 0.0), b: v3(1.0, 1.0, 0.0), c: v3(0.0, 1.0, 0.0) }
    );
}

#[test]
fn unshared_faces_survive_multi_index_import() {
    // Four faces, twelve vertices, no vertex used twice.
    let faces: usize = 4;
    let mut positions: Vec<f32> = Vec::new();
    for k in 0..(9 * faces) {
        positions.push(k as f32);
    }
    let indices: Vec<u32> = (0..(3 * faces as u32)).collect();
    let mesh = assemble_mesh(record(positions, indices), IndexMode::MultiIndex, 0.0).unwrap();
    assert_eq!(mesh.positions.len(), 3 * faces);
    assert_eq!(mesh.indices.len(), 3 * faces);
    let triangles = mesh.face_positions().unwrap();
    assert_eq!(triangles.len(), faces);
    assert_eq!(
        triangles[3],
        Triangle {
            a: v3(27.0, 28.0, 29.0),
            b: v3(30.0, 31.0, 32.0),
            c: v3(33.0, 34.0, 35.0)
        }
    );
}
