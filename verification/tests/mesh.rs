use ebb::ecs::Entity;
use ebb::handle::Handle;
use ebb::mesh::{
    format_of_type, index_buffer_contents, LayoutError, MeshError, ObjMesh,
    PositionNormalTexcoord, RenderMesh, VertexAttribute, VertexBufferLayout, VertexFormat,
    VertexStepMode,
};
use ebb::rendering::RenderPipeline;
use ebb::scene::SceneComponent;
use ebb::texture::{ImageTexture, Texture};
use ebb::transform::Transform3D;
use std::rc::Rc;
use std::sync::Arc;

fn pipeline() -> Rc<RenderPipeline> {
    let image: Box<dyn Texture> = Box::new(ImageTexture::new(
        (1, 1),
        Handle(10),
        Handle(11),
        Handle(12),
        Handle(13),
        Handle(14),
    ));
    Rc::new(RenderPipeline::from_raw(Handle(1), Handle(2), Handle(3), Arc::new(image)))
}

fn attribute(offset: u64, shader_location: u32, format: VertexFormat) -> VertexAttribute {
    VertexAttribute { offset, shader_location, format }
}

#[test]
fn formats_have_their_sizes() {
    assert_eq!(VertexFormat::Float32.size(), 4);
    assert_eq!(VertexFormat::Float32x2.size(), 8);
    assert_eq!(VertexFormat::Float32x3.size(), 12);
    assert_eq!(VertexFormat::Float32x4.size(), 16);
    assert_eq!(VertexFormat::Uint32.size(), 4);
}

#[test]
fn position_layout_is_twelve_bytes() {
    let layout = VertexBufferLayout::position();
    assert_eq!(layout.array_stride, 12);
    assert_eq!(layout.array_stride as usize, std::mem::size_of::<[f32; 3]>());
    assert_eq!(layout.step_mode, VertexStepMode::Vertex);
    assert_eq!(layout.attributes, vec![attribute(0, 0, VertexFormat::Float32x3)]);
}

#[test]
fn position_normal_texcoord_layout_is_thirty_two_bytes() {
    let layout = VertexBufferLayout::position_normal_texcoord();
    assert_eq!(layout.array_stride, 32);
    assert_eq!(
        layout.array_stride as usize,
        std::mem::size_of::<PositionNormalTexcoord<f32>>()
    );
    assert_eq!(layout.step_mode, VertexStepMode::Vertex);
    assert_eq!(
        layout.attributes,
        vec![
            attribute(0, 0, VertexFormat::Float32x3),
            attribute(12, 1, VertexFormat::Float32x3),
            attribute(24, 2, VertexFormat::Float32x2),
        ]
    );
}

#[test]
fn packed_layout_puts_each_field_behind_the_one_before() {
    let layout = VertexBufferLayout::packed(&vec![
        VertexFormat::Float32x4,
        VertexFormat::Uint32,
        VertexFormat::Float32,
        VertexFormat::Float32x2,
    ]);
    assert_eq!(layout.array_stride, 32);
    assert_eq!(
        layout.attributes,
        vec![
            attribute(0, 0, VertexFormat::Float32x4),
            attribute(16, 1, VertexFormat::Uint32),
            attribute(20, 2, VertexFormat::Float32),
            attribute(24, 3, VertexFormat::Float32x2),
        ]
    );
    let empty = VertexBufferLayout::packed(&vec![]);
    assert_eq!(empty.array_stride, 0);
    assert_eq!(empty.attributes, vec![]);
    assert_eq!(empty.step_mode, VertexStepMode::Vertex);
}

#[test]
fn field_types_name_their_formats() {
    let format = |name: &str| format_of_type(&name.to_string());
    assert_eq!(format("Vec2"), Some(VertexFormat::Float32x2));
    assert_eq!(format("Vec3"), Some(VertexFormat::Float32x3));
    assert_eq!(format("Vec4"), Some(VertexFormat::Float32x4));
    assert_eq!(format("u32"), Some(VertexFormat::Uint32));
    assert_eq!(format("f32"), Some(VertexFormat::Float32));
    assert_eq!(format("f64"), None);
    assert_eq!(format("vec3"), None);
    assert_eq!(format(""), None);
}

#[test]
fn layout_is_derived_from_the_fields_of_a_struct() {
    let fields = vec![
        ("Vec3".to_string(), 0),
        ("Vec4".to_string(), 16),
        ("u32".to_string(), 32),
        ("f32".to_string(), 36),
        ("Vec2".to_string(), 40),
    ];
    match VertexBufferLayout::derived(&fields, 48) {
        Ok(layout) => {
            assert_eq!(layout.array_stride, 48);
            assert_eq!(layout.step_mode, VertexStepMode::Vertex);
            assert_eq!(
                layout.attributes,
                vec![
                    attribute(0, 0, VertexFormat::Float32x3),
                    attribute(16, 1, VertexFormat::Float32x4),
                    attribute(32, 2, VertexFormat::Uint32),
                    attribute(36, 3, VertexFormat::Float32),
                    attribute(40, 4, VertexFormat::Float32x2),
                ]
            );
        }
        Err(_) => panic!("every field has a format"),
    }
    match VertexBufferLayout::derived(&vec![], 0) {
        Ok(layout) => assert_eq!(layout.attributes, vec![]),
        Err(_) => panic!("a struct without fields has a layout"),
    }
}

#[test]
fn first_field_without_a_format_is_reported() {
    let fields = vec![
        ("Vec3".to_string(), 0),
        ("Mat4".to_string(), 12),
        ("bool".to_string(), 76),
    ];
    match VertexBufferLayout::derived(&fields, 80) {
        Err(LayoutError::UnsupportedType(name)) => assert_eq!(name, "Mat4"),
        _ => panic!("the second field has no format"),
    }
}

fn model(vertices: usize) -> ObjMesh<f32> {
    ObjMesh {
        positions: (0..3 * vertices).map(|i| i as f32).collect(),
        normals: (0..3 * vertices).map(|i| 100.0 + i as f32).collect(),
        texcoords: (0..2 * vertices).map(|i| 200.0 + i as f32).collect(),
        indices: (0..vertices as u32).rev().collect(),
    }
}

#[test]
fn vertices_are_assembled_from_the_first_model() {
    let models = vec![model(2), model(5)];
    let data = RenderMesh::load_obj(&models, 0.0).expect("the first model is complete");
    assert_eq!(data.indices, vec![1, 0]);
    assert_eq!(data.vertices.len(), 6);
    assert_eq!(
        data.vertices[0],
        PositionNormalTexcoord {
            position: [0.0, 1.0, 2.0],
            normal: [100.0, 101.0, 102.0],
            texcoord: [200.0, 201.0],
        }
    );
    assert_eq!(
        data.vertices[1],
        PositionNormalTexcoord {
            position: [3.0, 4.0, 5.0],
            normal: [103.0, 104.0, 105.0],
            texcoord: [202.0, 203.0],
        }
    );
    let blank = PositionNormalTexcoord {
        position: [0.0, 0.0, 0.0],
        normal: [0.0, 0.0, 0.0],
        texcoord: [0.0, 0.0],
    };
    for vertex in &data.vertices[2..] {
        assert_eq!(*vertex, blank);
    }
}

#[test]
fn numbers_beyond_the_last_whole_position_are_left_out() {
    let mut one = model(1);
    one.positions.push(9.0);
    one.positions.push(9.0);
    let data = RenderMesh::load_obj(&vec![one], -1.0).expect("one whole vertex");
    assert_eq!(data.vertices.len(), 5);
    assert_eq!(data.vertices[0].position, [0.0, 1.0, 2.0]);
    assert_eq!(data.vertices[1].position, [-1.0, -1.0, -1.0]);
    assert_eq!(data.vertices[4].texcoord, [-1.0, -1.0]);
}

#[test]
fn mesh_without_positions_has_no_vertices() {
    let data = RenderMesh::load_obj(
        &vec![ObjMesh::<f32> {
            positions: vec![],
            normals: vec![],
            texcoords: vec![],
            indices: vec![],
        }],
        0.0,
    )
    .expect("an empty model is complete");
    assert_eq!(data.vertices.len(), 0);
    assert_eq!(data.indices, vec![]);
}

#[test]
fn file_without_model_gives_no_mesh() {
    let none: Vec<ObjMesh<f32>> = vec![];
    assert_eq!(RenderMesh::load_obj(&none, 0.0).err(), Some(MeshError::NoModel));
}

#[test]
fn model_without_normals_gives_no_mesh() {
    let mut short = model(2);
    short.normals.truncate(5);
    assert_eq!(RenderMesh::load_obj(&vec![short], 0.0).err(), Some(MeshError::MissingNormals));
    let mut none = model(1);
    none.normals.clear();
    none.texcoords.clear();
    assert_eq!(RenderMesh::load_obj(&vec![none], 0.0).err(), Some(MeshError::MissingNormals));
}

#[test]
fn model_without_texcoords_gives_no_mesh() {
    let mut short = model(2);
    short.texcoords.truncate(3);
    assert_eq!(RenderMesh::load_obj(&vec![short], 0.0).err(), Some(MeshError::MissingTexcoords));
}

#[test]
fn index_buffer_holds_four_bytes_per_index() {
    let indices = vec![0, 1, 2, 0x01020304, u32::MAX];
    let bytes = index_buffer_contents(&indices);
    assert_eq!(bytes.len(), 20);
    let back: Vec<u32> = bytes
        .chunks(4)
        .map(|c| u32::from_ne_bytes([c[0], c[1], c[2], c[3]]))
        .collect();
    assert_eq!(back, indices);
    assert_eq!(index_buffer_contents(&vec![]).len(), 0);
    assert_eq!(index_buffer_contents(&vec![7]), 7u32.to_ne_bytes().to_vec());
    let little: Vec<u8> = indices.iter().flat_map(|i| i.to_le_bytes()).collect();
    let big: Vec<u8> = indices.iter().flat_map(|i| i.to_be_bytes()).collect();
    assert!(bytes == little || bytes == big);
    assert_eq!(little[12..16], [0x04, 0x03, 0x02, 0x01]);
    assert_eq!(big[12..16], [0x01, 0x02, 0x03, 0x04]);
}

#[test]
fn mesh_hands_out_what_it_was_made_from() {
    let shared = pipeline();
    let mesh = RenderMesh::from_raw(shared.clone(), Handle(50), 4, Handle(51), 6);
    assert!(Rc::ptr_eq(&mesh.get_renderer(), &shared));
    assert_eq!(mesh.get_vertex_buffer(), Handle(50));
    assert_eq!(mesh.get_num_vertices(), 4);
    assert_eq!(mesh.get_index_buffer(), Handle(51));
    assert_eq!(mesh.get_num_indices(), 6);
}

#[test]
fn meshes_share_their_pipeline() {
    let shared = pipeline();
    let first = RenderMesh::from_raw(shared.clone(), Handle(50), 3, Handle(51), 3);
    let second = RenderMesh::from_raw(shared.clone(), Handle(60), 3, Handle(61), 3);
    assert!(Rc::ptr_eq(&first.get_renderer(), &second.get_renderer()));
    assert_eq!(Rc::strong_count(&shared), 3);
    drop(first);
    assert_eq!(Rc::strong_count(&shared), 2);
    drop(shared);
    assert_eq!(second.get_renderer().raw_pipeline(), Handle(1));
}

#[test]
fn mesh_entity_holds_the_mesh_and_nothing_else() {
    let shared = pipeline();
    let vertices = vec![[0.0f32; 3]; 4];
    let indices = vec![0, 1, 2, 2, 3, 0];
    let entity: Entity<SceneComponent> =
        RenderMesh::entity(shared.clone(), Handle(50), &vertices, Handle(51), &indices);
    assert!(entity.has_component::<RenderMesh>());
    assert!(!entity.has_component::<Transform3D>());
    let mesh = entity.get_component::<RenderMesh>().expect("the mesh was attached");
    assert!(Rc::ptr_eq(&mesh.get_renderer(), &shared));
    assert_eq!(mesh.get_vertex_buffer(), Handle(50));
    assert_eq!(mesh.get_num_vertices(), 4);
    assert_eq!(mesh.get_index_buffer(), Handle(51));
    assert_eq!(mesh.get_num_indices(), 6);
}

#[test]
fn mesh_counts_what_its_buffers_were_filled_with() {
    let shared = pipeline();
    let vertices: Vec<(u8, u8)> = vec![(0, 0), (1, 0), (0, 1)];
    let indices = vec![0, 1, 2];
    let mesh = RenderMesh::new(shared.clone(), Handle(7), &vertices, Handle(8), &indices);
    assert_eq!(mesh.get_num_vertices(), 3);
    assert_eq!(mesh.get_num_indices(), 3);
    assert_eq!(mesh.get_vertex_buffer(), Handle(7));
    assert_eq!(mesh.get_index_buffer(), Handle(8));
    assert!(Rc::ptr_eq(&mesh.get_renderer(), &shared));
    let none: Vec<u8> = vec![];
    let empty = RenderMesh::new(shared, Handle(7), &none, Handle(8), &vec![]);
    assert_eq!(empty.get_num_vertices(), 0);
    assert_eq!(empty.get_num_indices(), 0);
    assert_eq!(index_buffer_contents(&indices).len(), 4 * mesh.get_num_indices());
}
