//! Meshes: how the data of a vertex is laid out for the GPU, how the
//! attributes of a loaded model are assembled into vertices, and the
//! component that holds the buffers of an indexed triangle mesh.
use crate::ecs::{Component, Entity};
use crate::handle::Handle;
use crate::rendering::RenderPipeline;
use std::rc::Rc;
use crate::text::is_word;
use vstd::prelude::*;

verus! {

/// The format of one attribute of a vertex.
#[derive(Clone, Copy, Debug, PartialEq, Eq, Structural)]
pub enum VertexFormat {
    /// One 32-bit number.
    Float32,
    /// Two 32-bit numbers.
    Float32x2,
    /// Three 32-bit numbers.
    Float32x3,
    /// Four 32-bit numbers.
    Float32x4,
    /// One unsigned 32-bit integer.
    Uint32,
}

impl VertexFormat {
    /// The number of bytes that an attribute of this format takes.
    pub open spec fn bytes(self) -> nat {
        match self {
            VertexFormat::Float32 => 4,
            VertexFormat::Float32x2 => 8,
            VertexFormat::Float32x3 => 12,
            VertexFormat::Float32x4 => 16,
            VertexFormat::Uint32 => 4,
        }
    }

    /// The number of bytes that an attribute of this format takes.
    pub fn size(&self) -> (size: u64)
        ensures
            size == self.bytes(),
    {
        match self {
            VertexFormat::Float32 => 4,
            VertexFormat::Float32x2 => 8,
            VertexFormat::Float32x3 => 12,
            VertexFormat::Float32x4 => 16,
            VertexFormat::Uint32 => 4,
        }
    }
}

/// Whether a vertex buffer advances per vertex or per instance.
#[derive(Clone, Copy, Debug, PartialEq, Eq, Structural)]
pub enum VertexStepMode {
    Vertex,
    Instance,
}

/// One attribute of a vertex: where it starts within the vertex, the shader
/// location that receives it, and its format.
#[derive(Clone, Copy, Debug, PartialEq, Eq, Structural)]
pub struct VertexAttribute {
    pub offset: u64,
    pub shader_location: u32,
    pub format: VertexFormat,
}

/// How the vertices of a buffer are laid out: the distance in bytes from one
/// vertex to the next, the step mode, and the attributes in their order.
#[derive(Clone, Debug, PartialEq, Eq)]
pub struct VertexBufferLayout {
    pub array_stride: u64,
    pub step_mode: VertexStepMode,
    pub attributes: Vec<VertexAttribute>,
}

/// The number of bytes that the first `count` formats of a list take together.
pub open spec fn bytes_before(formats: Seq<VertexFormat>, count: int) -> nat
    decreases count,
{
    if count <= 0 {
        0
    } else {
        bytes_before(formats, count - 1) + formats[count - 1].bytes()
    }
}

/// The attributes of a vertex whose fields follow one another without gaps:
/// the field at position `i` goes to shader location `i` and starts where the
/// fields before it end.
pub open spec fn packed_attributes(formats: Seq<VertexFormat>) -> Seq<VertexAttribute> {
    Seq::new(
        formats.len(),
        |i: int|
            VertexAttribute {
                offset: bytes_before(formats, i) as u64,
                shader_location: i as u32,
                format: formats[i],
            },
    )
}

/// No list of formats takes more than 16 bytes per format.
pub proof fn bytes_before_is_bounded(formats: Seq<VertexFormat>, count: int)
    requires
        0 <= count <= formats.len(),
    ensures
        bytes_before(formats, count) <= 16 * count,
    decreases count,
{
    if count > 0 {
        bytes_before_is_bounded(formats, count - 1);
    }
}

/// In a packed layout every attribute ends where the next one starts, and the
/// last one ends with the vertex: no two attributes overlap and none reaches
/// beyond the stride.
pub proof fn packed_attributes_do_not_overlap(formats: Seq<VertexFormat>, i: int)
    requires
        0 <= i < formats.len(),
    ensures
        bytes_before(formats, i) + formats[i].bytes() == bytes_before(formats, i + 1),
        bytes_before(formats, i + 1) <= bytes_before(formats, formats.len() as int),
    decreases formats.len() - i,
{
    if i + 1 < formats.len() {
        packed_attributes_do_not_overlap(formats, i + 1);
    }
}

impl VertexBufferLayout {
    /// The per-vertex layout of a vertex whose fields have the given formats
    /// and follow one another without gaps.
    pub fn packed(formats: &Vec<VertexFormat>) -> (layout: Self)
        requires
            formats@.len() <= u32::MAX,
        ensures
            layout.array_stride == bytes_before(formats@, formats@.len() as int),
            layout.step_mode == VertexStepMode::Vertex,
            layout.attributes@ == packed_attributes(formats@),
    {
        let mut attributes: Vec<VertexAttribute> = Vec::new();
        let mut offset: u64 = 0;
        let mut i: usize = 0;
        while i < formats.len()
            invariant
                i <= formats@.len() <= u32::MAX,
                offset == bytes_before(formats@, i as int),
                attributes@ == packed_attributes(formats@).take(i as int),
            decreases formats@.len() - i,
        {
            proof {
                bytes_before_is_bounded(formats@, i as int);
                bytes_before_is_bounded(formats@, i + 1);
            }
            attributes.push(
                VertexAttribute { offset, shader_location: i as u32, format: formats[i] },
            );
            offset = offset + formats[i].size();
            proof {
                assert(attributes@ =~= packed_attributes(formats@).take(i + 1));
            }
            i += 1;
        }
        proof {
            assert(attributes@ =~= packed_attributes(formats@));
        }
        VertexBufferLayout { array_stride: offset, step_mode: VertexStepMode::Vertex, attributes }
    }

    /// The layout of a vertex that holds a position of three numbers: 12 bytes,
    /// with the position at shader location 0.
    pub fn position() -> (layout: Self)
        ensures
            layout.array_stride == 12,
            layout.step_mode == VertexStepMode::Vertex,
            layout.attributes@ == seq![
                VertexAttribute { offset: 0, shader_location: 0, format: VertexFormat::Float32x3 },
            ],
    {
        let mut formats: Vec<VertexFormat> = Vec::new();
        formats.push(VertexFormat::Float32x3);
        proof {
            reveal_with_fuel(bytes_before, 2);
            assert(packed_attributes(formats@) =~= seq![
                VertexAttribute { offset: 0, shader_location: 0, format: VertexFormat::Float32x3 },
            ]);
        }
        VertexBufferLayout::packed(&formats)
    }

    /// The layout of a vertex that holds a position and a normal of three
    /// numbers each and a texture coordinate of two: 32 bytes, with the three
    /// at shader locations 0, 1 and 2.
    pub fn position_normal_texcoord() -> (layout: Self)
        ensures
            layout.array_stride == 32,
            layout.step_mode == VertexStepMode::Vertex,
            layout.attributes@ == seq![
                VertexAttribute { offset: 0, shader_location: 0, format: VertexFormat::Float32x3 },
                VertexAttribute { offset: 12, shader_location: 1, format: VertexFormat::Float32x3 },
                VertexAttribute { offset: 24, shader_location: 2, format: VertexFormat::Float32x2 },
            ],
    {
        let mut formats: Vec<VertexFormat> = Vec::new();
        formats.push(VertexFormat::Float32x3);
        formats.push(VertexFormat::Float32x3);
        formats.push(VertexFormat::Float32x2);
        proof {
            reveal_with_fuel(bytes_before, 4);
            assert(packed_attributes(formats@) =~= seq![
                VertexAttribute { offset: 0, shader_location: 0, format: VertexFormat::Float32x3 },
                VertexAttribute { offset: 12, shader_location: 1, format: VertexFormat::Float32x3 },
                VertexAttribute { offset: 24, shader_location: 2, format: VertexFormat::Float32x2 },
            ]);
        }
        VertexBufferLayout::packed(&formats)
    }
}

/// Why a vertex struct has no layout.
pub enum LayoutError {
    /// A field has the named type, for which no format is known.
    UnsupportedType(String),
    /// The struct has more fields than there are shader locations.
    TooManyFields,
}

/// The format of a field of a vertex struct, by the name of the field's type.
pub open spec fn format_named(name: Seq<char>) -> Option<VertexFormat> {
    if name == "Vec2"@ {
        Some(VertexFormat::Float32x2)
    } else if name == "Vec3"@ {
        Some(VertexFormat::Float32x3)
    } else if name == "Vec4"@ {
        Some(VertexFormat::Float32x4)
    } else if name == "u32"@ {
        Some(VertexFormat::Uint32)
    } else if name == "f32"@ {
        Some(VertexFormat::Float32)
    } else {
        None
    }
}

/// The format of a field of a vertex struct, by the name of the field's type.
pub fn format_of_type(name: &String) -> (format: Option<VertexFormat>)
    ensures
        format == format_named(name@),
{
    if is_word(name, "Vec2") {
        Some(VertexFormat::Float32x2)
    } else if is_word(name, "Vec3") {
        Some(VertexFormat::Float32x3)
    } else if is_word(name, "Vec4") {
        Some(VertexFormat::Float32x4)
    } else if is_word(name, "u32") {
        Some(VertexFormat::Uint32)
    } else if is_word(name, "f32") {
        Some(VertexFormat::Float32)
    } else {
        None
    }
}

/// The attributes of a vertex struct whose first `count` fields are given by
/// the name of their type and their offset in the struct: the field at
/// position `i` goes to shader location `i`. The first field whose type has no
/// format stops the list.
pub open spec fn derived_attributes(fields: Seq<(String, u64)>, count: int) -> Result<
    Seq<VertexAttribute>,
    LayoutError,
>
    decreases count,
{
    if count <= 0 {
        Ok(Seq::empty())
    } else {
        match derived_attributes(fields, count - 1) {
            Ok(earlier) => match format_named(fields[count - 1].0@) {
                Some(format) => Ok(
                    earlier.push(
                        VertexAttribute {
                            offset: fields[count - 1].1,
                            shader_location: (count - 1) as u32,
                            format,
                        },
                    ),
                ),
                None => Err(LayoutError::UnsupportedType(fields[count - 1].0)),
            },
            Err(e) => Err(e),
        }
    }
}

/// Once a field has stopped the list, the fields behind it change nothing.
pub proof fn first_unsupported_field_stands(fields: Seq<(String, u64)>, from: int, to: int)
    requires
        0 <= from <= to,
        derived_attributes(fields, from) is Err,
    ensures
        derived_attributes(fields, to) == derived_attributes(fields, from),
    decreases to - from,
{
    if to > from {
        first_unsupported_field_stands(fields, from, to - 1);
    }
}

impl VertexBufferLayout {
    /// The per-vertex layout of a vertex struct of `stride` bytes whose fields
    /// are given, in their order, by the name of their type and their offset.
    pub fn derived(fields: &Vec<(String, u64)>, stride: u64) -> (r: Result<Self, LayoutError>)
        ensures
            match r {
                Ok(layout) => {
                    &&& fields@.len() <= u32::MAX
                    &&& derived_attributes(fields@, fields@.len() as int) == Ok::<
                        Seq<VertexAttribute>,
                        LayoutError,
                    >(layout.attributes@)
                    &&& layout.array_stride == stride
                    &&& layout.step_mode == VertexStepMode::Vertex
                },
                Err(LayoutError::TooManyFields) => fields@.len() > u32::MAX,
                Err(e) => fields@.len() <= u32::MAX && derived_attributes(
                    fields@,
                    fields@.len() as int,
                ) == Err::<Seq<VertexAttribute>, LayoutError>(e),
            },
    {
        if fields.len() > 0xffff_ffff {
            return Err(LayoutError::TooManyFields);
        }
        let mut attributes: Vec<VertexAttribute> = Vec::new();
        let mut i: usize = 0;
        while i < fields.len()
            invariant
                i <= fields@.len() <= u32::MAX,
                derived_attributes(fields@, i as int) == Ok::<Seq<VertexAttribute>, LayoutError>(
                    attributes@,
                ),
            decreases fields@.len() - i,
        {
            match format_of_type(&fields[i].0) {
                Some(format) => {
                    attributes.push(
                        VertexAttribute { offset: fields[i].1, shader_location: i as u32, format },
                    );
                },
                None => {
                    proof {
                        first_unsupported_field_stands(fields@, i + 1, fields@.len() as int);
                    }
                    return Err(LayoutError::UnsupportedType(fields[i].0.clone()));
                },
            }
            i += 1;
        }
        Ok(VertexBufferLayout { array_stride: stride, step_mode: VertexStepMode::Vertex, attributes })
    }
}

/// A vertex with a position, a normal and a texture coordinate, over the
/// number type `T` of the model that it was read from.
#[derive(Clone, Copy, Debug, PartialEq)]
pub struct PositionNormalTexcoord<T> {
    pub position: [T; 3],
    pub normal: [T; 3],
    pub texcoord: [T; 2],
}

/// The attributes of one model as they were read from a file: three numbers
/// per position and per normal, two per texture coordinate, and the indices of
/// the triangles' corners.
pub struct ObjMesh<T> {
    pub positions: Vec<T>,
    pub normals: Vec<T>,
    pub texcoords: Vec<T>,
    pub indices: Vec<u32>,
}

/// The vertices and indices of a mesh, ready to be copied into buffers.
pub struct MeshData<T> {
    pub vertices: Vec<PositionNormalTexcoord<T>>,
    pub indices: Vec<u32>,
}

/// Why a loaded file gives no mesh.
#[derive(Clone, Copy, Debug, PartialEq, Eq, Structural)]
pub enum MeshError {
    /// The file holds no model.
    NoModel,
    /// The first model has fewer normals than positions.
    MissingNormals,
    /// The first model has fewer texture coordinates than positions.
    MissingTexcoords,
}

/// The vertex at position `i` of a model's attributes.
pub open spec fn vertex_at<T>(
    positions: Seq<T>,
    normals: Seq<T>,
    texcoords: Seq<T>,
    i: int,
) -> PositionNormalTexcoord<T> {
    PositionNormalTexcoord {
        position: [positions[3 * i], positions[3 * i + 1], positions[3 * i + 2]],
        normal: [normals[3 * i], normals[3 * i + 1], normals[3 * i + 2]],
        texcoord: [texcoords[2 * i], texcoords[2 * i + 1]],
    }
}

/// The vertex whose every number is `zero`.
pub open spec fn blank_vertex<T>(zero: T) -> PositionNormalTexcoord<T> {
    PositionNormalTexcoord {
        position: [zero, zero, zero],
        normal: [zero, zero, zero],
        texcoord: [zero, zero],
    }
}

/// The vertex list of a model: one entry per number of `positions`, of which
/// the first third are the model's vertices and the others are blank.
pub open spec fn assembled<T>(
    positions: Seq<T>,
    normals: Seq<T>,
    texcoords: Seq<T>,
    zero: T,
) -> Seq<PositionNormalTexcoord<T>> {
    Seq::new(
        positions.len(),
        |i: int|
            if i < positions.len() / 3 {
                vertex_at(positions, normals, texcoords, i)
            } else {
                blank_vertex(zero)
            },
    )
}

/// What [`RenderMesh::load_obj`] answers for a list of models.
pub open spec fn mesh_data_of<T>(models: Seq<ObjMesh<T>>, zero: T) -> Result<
    (Seq<PositionNormalTexcoord<T>>, Seq<u32>),
    MeshError,
> {
    if models.len() == 0 {
        Err(MeshError::NoModel)
    } else if models[0].normals@.len() < 3 * (models[0].positions@.len() / 3) {
        Err(MeshError::MissingNormals)
    } else if models[0].texcoords@.len() < 2 * (models[0].positions@.len() / 3) {
        Err(MeshError::MissingTexcoords)
    } else {
        Ok(
            (
                assembled(models[0].positions@, models[0].normals@, models[0].texcoords@, zero),
                models[0].indices@,
            ),
        )
    }
}

/// A copy of a list of indices.
fn copy_indices(indices: &Vec<u32>) -> (copy: Vec<u32>)
    ensures
        copy@ == indices@,
{
    let mut copy: Vec<u32> = Vec::new();
    let mut i: usize = 0;
    while i < indices.len()
        invariant
            i <= indices@.len(),
            copy@ == indices@.take(i as int),
        decreases indices@.len() - i,
    {
        copy.push(indices[i]);
        proof {
            assert(copy@ =~= indices@.take(i + 1));
        }
        i += 1;
    }
    proof {
        assert(copy@ =~= indices@);
    }
    copy
}

/// The four bytes of an index, the least significant first.
pub open spec fn little_endian(index: u32) -> Seq<u8> {
    seq![
        (index % 256) as u8,
        (index / 256 % 256) as u8,
        (index / 65536 % 256) as u8,
        (index / 16777216) as u8,
    ]
}

/// The four bytes of an index, the most significant first.
pub open spec fn big_endian(index: u32) -> Seq<u8> {
    seq![
        (index / 16777216) as u8,
        (index / 65536 % 256) as u8,
        (index / 256 % 256) as u8,
        (index % 256) as u8,
    ]
}

/// The bytes of a list of indices, four per index in the order of the list,
/// each index with its least significant byte first or, if `little` is
/// false, with its most significant byte first.
pub open spec fn index_bytes(indices: Seq<u32>, little: bool) -> Seq<u8> {
    Seq::new(
        4 * indices.len(),
        |k: int|
            if little {
                little_endian(indices[k / 4])[k % 4]
            } else {
                big_endian(indices[k / 4])[k % 4]
            },
    )
}

/// The bytes of a list of indices as they lie in memory: `bytemuck::cast_slice`
/// from `u32` to `u8`, copied. The cast cannot fail for these two types. It
/// hands out the memory of the indices as it is, so the result holds the four
/// bytes of each index in the order of the list, and every index in the byte
/// order of the machine, which is one of the two.
#[verifier::external_body]
fn cast_indices(indices: &Vec<u32>) -> (bytes: Vec<u8>)
    ensures
        bytes@ == index_bytes(indices@, true) || bytes@ == index_bytes(indices@, false),
{
    bytemuck::cast_slice::<u32, u8>(indices.as_slice()).to_vec()
}

/// The contents of the index buffer of a mesh: the bytes of its indices, four
/// per index in the order of the list, every index in the byte order of the
/// machine.
pub fn index_buffer_contents(indices: &Vec<u32>) -> (bytes: Vec<u8>)
    ensures
        bytes@.len() == 4 * indices@.len(),
        bytes@ == index_bytes(indices@, true) || bytes@ == index_bytes(indices@, false),
{
    cast_indices(indices)
}

/// A component that allows rendering of an indexed triangle mesh: the pipeline
/// that draws it, shared with every other mesh drawn by the same pipeline, and
/// the mesh's own vertex and index buffers with the number of items in each.
pub struct RenderMesh {
    renderer: Rc<RenderPipeline>,
    vertex_buffer: Handle,
    num_vertices: usize,
    index_buffer: Handle,
    num_indices: usize,
}

impl RenderMesh {
    /// The pipeline that draws this mesh.
    pub closed spec fn renderer(&self) -> Rc<RenderPipeline> {
        self.renderer
    }

    /// The buffer that holds the vertices.
    pub closed spec fn vertex_buffer(&self) -> Handle {
        self.vertex_buffer
    }

    /// The number of vertices in the vertex buffer.
    pub closed spec fn vertex_count(&self) -> usize {
        self.num_vertices
    }

    /// The buffer that holds the indices.
    pub closed spec fn index_buffer(&self) -> Handle {
        self.index_buffer
    }

    /// The number of indices in the index buffer.
    pub closed spec fn index_count(&self) -> usize {
        self.num_indices
    }

    /// Creates the component for a mesh whose vertex buffer was filled with
    /// all of `vertices` and whose index buffer was filled with all of
    /// `indices`: it takes note of how many there are of each.
    pub fn new<V>(
        renderer: Rc<RenderPipeline>,
        vertex_buffer: Handle,
        vertices: &Vec<V>,
        index_buffer: Handle,
        indices: &Vec<u32>,
    ) -> (mesh: Self)
        ensures
            mesh.renderer() == renderer,
            mesh.vertex_buffer() == vertex_buffer,
            mesh.vertex_count() == vertices@.len(),
            mesh.index_buffer() == index_buffer,
            mesh.index_count() == indices@.len(),
    {
        RenderMesh::from_raw(renderer, vertex_buffer, vertices.len(), index_buffer, indices.len())
    }

    /// Creates the component for a mesh whose buffers hold `num_vertices`
    /// vertices and `num_indices` indices.
    pub fn from_raw(
        renderer: Rc<RenderPipeline>,
        vertex_buffer: Handle,
        num_vertices: usize,
        index_buffer: Handle,
        num_indices: usize,
    ) -> (mesh: Self)
        ensures
            mesh.renderer() == renderer,
            mesh.vertex_buffer() == vertex_buffer,
            mesh.vertex_count() == num_vertices,
            mesh.index_buffer() == index_buffer,
            mesh.index_count() == num_indices,
    {
        RenderMesh { renderer, vertex_buffer, num_vertices, index_buffer, num_indices }
    }

    /// Assembles the vertices of the first model of a loaded file and takes its
    /// indices along. The other models are not looked at.
    pub fn load_obj<T: Copy>(models: &Vec<ObjMesh<T>>, zero: T) -> (r: Result<MeshData<T>, MeshError>)
        ensures
            match r {
                Ok(data) => mesh_data_of(models@, zero) == Ok::<
                    (Seq<PositionNormalTexcoord<T>>, Seq<u32>),
                    MeshError,
                >((data.vertices@, data.indices@)),
                Err(e) => mesh_data_of(models@, zero) == Err::<
                    (Seq<PositionNormalTexcoord<T>>, Seq<u32>),
                    MeshError,
                >(e),
            },
    {
        if models.len() == 0 {
            return Err(MeshError::NoModel);
        }
        let mesh = &models[0];
        let count = mesh.positions.len() / 3;
        if mesh.normals.len() / 3 < count {
            return Err(MeshError::MissingNormals);
        }
        if mesh.texcoords.len() / 2 < count {
            return Err(MeshError::MissingTexcoords);
        }
        let ghost wanted = assembled(mesh.positions@, mesh.normals@, mesh.texcoords@, zero);
        let mut vertices: Vec<PositionNormalTexcoord<T>> = Vec::new();
        let mut i: usize = 0;
        while i < mesh.positions.len()
            invariant
                i <= mesh.positions@.len(),
                count == mesh.positions@.len() / 3,
                3 * count <= mesh.normals@.len(),
                2 * count <= mesh.texcoords@.len(),
                wanted == assembled(mesh.positions@, mesh.normals@, mesh.texcoords@, zero),
                vertices@ == wanted.take(i as int),
            decreases mesh.positions@.len() - i,
        {
            let vertex = if i < count {
                PositionNormalTexcoord {
                    position: [
                        mesh.positions[i * 3],
                        mesh.positions[i * 3 + 1],
                        mesh.positions[i * 3 + 2],
                    ],
                    normal: [mesh.normals[i * 3], mesh.normals[i * 3 + 1], mesh.normals[i * 3 + 2]],
                    texcoord: [mesh.texcoords[i * 2], mesh.texcoords[i * 2 + 1]],
                }
            } else {
                PositionNormalTexcoord {
                    position: [zero, zero, zero],
                    normal: [zero, zero, zero],
                    texcoord: [zero, zero],
                }
            };
            vertices.push(vertex);
            proof {
                assert(vertices@ =~= wanted.take(i + 1));
            }
            i += 1;
        }
        proof {
            assert(vertices@ =~= wanted);
        }
        let indices = copy_indices(&mesh.indices);
        Ok(MeshData { vertices, indices })
    }

    /// Creates an entity that holds the component for a mesh and nothing else.
    pub fn entity<U, V>(
        renderer: Rc<RenderPipeline>,
        vertex_buffer: Handle,
        vertices: &Vec<V>,
        index_buffer: Handle,
        indices: &Vec<u32>,
    ) -> (entity: Entity<U>) where RenderMesh: Component<U>
        ensures
            entity@.dom() == set![<RenderMesh as Component<U>>::kind()],
            match entity.component::<RenderMesh>() {
                Some(mesh) => {
                    &&& mesh.renderer() == renderer
                    &&& mesh.vertex_buffer() == vertex_buffer
                    &&& mesh.vertex_count() == vertices@.len()
                    &&& mesh.index_buffer() == index_buffer
                    &&& mesh.index_count() == indices@.len()
                },
                None => false,
            },
    {
        let mut e = Entity::new();
        e.add_component(RenderMesh::new(renderer, vertex_buffer, vertices, index_buffer, indices));
        proof {
            assert(e@.dom() =~= set![<RenderMesh as Component<U>>::kind()]);
        }
        e
    }

    /// A handle to the pipeline that draws this mesh, shared with the mesh.
    pub fn get_renderer(&self) -> (renderer: Rc<RenderPipeline>)
        ensures
            renderer == self.renderer(),
    {
        self.renderer.clone()
    }

    /// The buffer that holds the vertices.
    pub fn get_vertex_buffer(&self) -> (buffer: Handle)
        ensures
            buffer == self.vertex_buffer(),
    {
        self.vertex_buffer
    }

    /// The number of vertices in the vertex buffer.
    pub fn get_num_vertices(&self) -> (count: usize)
        ensures
            count == self.vertex_count(),
    {
        self.num_vertices
    }

    /// The buffer that holds the indices.
    pub fn get_index_buffer(&self) -> (buffer: Handle)
        ensures
            buffer == self.index_buffer(),
    {
        self.index_buffer
    }

    /// The number of indices in the index buffer.
    pub fn get_num_indices(&self) -> (count: usize)
        ensures
            count == self.index_count(),
    {
        self.num_indices
    }
}

} // verus!
