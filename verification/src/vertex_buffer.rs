//! Indexed storage for vertex data, resolved through 1-based absolute or
//! negative end-relative indices.

use std::collections::VecDeque;
use vstd::prelude::*;

use crate::index::Index;
use crate::vertex_data::{spec_triple_from, spec_vertex_from, ParameterSpaceVertex,
    TextureCoordinates, Vertex, VertexNormal};

verus! {

/// Failure of buffer filling or lookup.
#[derive(Clone, Copy, Debug, PartialEq, Eq, Structural)]
pub enum VertexBufferError {
    /// A line's tokens did not form a record of the requested kind.
    InterpreterError,
    /// An index resolved outside the buffer.
    BoundsException,
}

/// The four vertex-data buffers of an OBJ file.
#[derive(Debug, Clone)]
pub struct VertexBuffer {
    vertices: Vec<Vertex>,
    texture_coordinates: Vec<TextureCoordinates>,
    normals: Vec<VertexNormal>,
    parameter_space_vertices: Vec<ParameterSpaceVertex>,
}

/// The mathematical content of a [`VertexBuffer`].
pub ghost struct VertexBufferView {
    pub vertices: Seq<Vertex>,
    pub texture_coordinates: Seq<TextureCoordinates>,
    pub normals: Seq<VertexNormal>,
    pub parameter_space_vertices: Seq<ParameterSpaceVertex>,
}

impl View for VertexBuffer {
    type V = VertexBufferView;

    closed spec fn view(&self) -> VertexBufferView {
        VertexBufferView {
            vertices: self.vertices@,
            texture_coordinates: self.texture_coordinates@,
            normals: self.normals@,
            parameter_space_vertices: self.parameter_space_vertices@,
        }
    }
}

/// 1-based lookup: a positive index is absolute, a negative index counts
/// back from the end of the buffer.
pub open spec fn spec_buffer_get<ContentType>(buffer: Seq<ContentType>, index: int) -> Result<
    ContentType,
    VertexBufferError,
> {
    if index > 0 {
        if index - 1 < buffer.len() {
            Ok(buffer[index - 1])
        } else {
            Err(VertexBufferError::BoundsException)
        }
    } else if index < 0 {
        if -index <= buffer.len() {
            Ok(buffer[buffer.len() - (-index)])
        } else {
            Err(VertexBufferError::BoundsException)
        }
    } else {
        Err(VertexBufferError::BoundsException)
    }
}

/// Resolves `index` in `buffer` as [`spec_buffer_get`] describes.
fn get_from_buffer<ContentType: Copy>(buffer: &Vec<ContentType>, index: Index) -> (r: Result<
    ContentType,
    VertexBufferError,
>)
    ensures
        r == spec_buffer_get(buffer@, index.spec_value()),
{
    let index = index.as_isize();
    if index < 0 {
        let relative = (-(index as i128)) as usize;
        if relative <= buffer.len() {
            Ok(buffer[buffer.len() - relative])
        } else {
            Err(VertexBufferError::BoundsException)
        }
    } else {
        if (index as usize) < buffer.len() {
            Ok(buffer[index as usize])
        } else {
            Err(VertexBufferError::BoundsException)
        }
    }
}

impl VertexBuffer {
    /// Four empty buffers.
    pub fn new() -> (r: VertexBuffer)
        ensures
            r@.vertices.len() == 0,
            r@.texture_coordinates.len() == 0,
            r@.normals.len() == 0,
            r@.parameter_space_vertices.len() == 0,
    {
        VertexBuffer {
            vertices: Vec::new(),
            texture_coordinates: Vec::new(),
            normals: Vec::new(),
            parameter_space_vertices: Vec::new(),
        }
    }

    /// Appends a vertex.
    pub fn add_vertex(&mut self, new_vertex: Vertex)
        ensures
            final(self)@.vertices == old(self)@.vertices.push(new_vertex),
            final(self)@.texture_coordinates == old(self)@.texture_coordinates,
            final(self)@.normals == old(self)@.normals,
            final(self)@.parameter_space_vertices == old(self)@.parameter_space_vertices,
    {
        self.vertices.push(new_vertex);
    }

    /// Appends a texture coordinate.
    pub fn add_texture_coordinate(&mut self, new_coordinate: TextureCoordinates)
        ensures
            final(self)@.texture_coordinates == old(self)@.texture_coordinates.push(
                new_coordinate,
            ),
            final(self)@.vertices == old(self)@.vertices,
            final(self)@.normals == old(self)@.normals,
            final(self)@.parameter_space_vertices == old(self)@.parameter_space_vertices,
    {
        self.texture_coordinates.push(new_coordinate);
    }

    /// Appends a normal.
    pub fn add_normal(&mut self, new_coordinate: VertexNormal)
        ensures
            final(self)@.normals == old(self)@.normals.push(new_coordinate),
            final(self)@.vertices == old(self)@.vertices,
            final(self)@.texture_coordinates == old(self)@.texture_coordinates,
            final(self)@.parameter_space_vertices == old(self)@.parameter_space_vertices,
    {
        self.normals.push(new_coordinate);
    }

    /// Appends a parameter-space vertex.
    pub fn add_parameter_space_vertex(&mut self, new_coordinate: ParameterSpaceVertex)
        ensures
            final(self)@.parameter_space_vertices == old(self)@.parameter_space_vertices.push(
                new_coordinate,
            ),
            final(self)@.vertices == old(self)@.vertices,
            final(self)@.texture_coordinates == old(self)@.texture_coordinates,
            final(self)@.normals == old(self)@.normals,
    {
        self.parameter_space_vertices.push(new_coordinate);
    }

    /// Parses and appends a vertex; a malformed line changes nothing.
    pub fn create_vertex(&mut self, new_vertex_data: &VecDeque<String>) -> (r: Result<
        (),
        VertexBufferError,
    >)
        ensures
            final(self)@.texture_coordinates == old(self)@.texture_coordinates,
            final(self)@.normals == old(self)@.normals,
            final(self)@.parameter_space_vertices == old(self)@.parameter_space_vertices,
            match spec_vertex_from(new_vertex_data.deep_view()) {
                Some(v) => r is Ok && final(self)@.vertices == old(self)@.vertices.push(v),
                None => r == Result::<(), VertexBufferError>::Err(
                    VertexBufferError::InterpreterError,
                ) && final(self)@.vertices == old(self)@.vertices,
            },
    {
        if let Some(vertex) = Vertex::from(new_vertex_data) {
            self.vertices.push(vertex);
            return Ok(());
        }
        Err(VertexBufferError::InterpreterError)
    }

    /// Parses and appends a texture coordinate; a malformed line changes
    /// nothing.
    pub fn create_texture_coordinate(&mut self, new_coordinate_data: &VecDeque<String>) -> (r:
        Result<(), VertexBufferError>)
        ensures
            final(self)@.vertices == old(self)@.vertices,
            final(self)@.normals == old(self)@.normals,
            final(self)@.parameter_space_vertices == old(self)@.parameter_space_vertices,
            match spec_triple_from(new_coordinate_data.deep_view()) {
                Some(t) => r is Ok && final(self)@.texture_coordinates == old(
                    self,
                )@.texture_coordinates.push(TextureCoordinates { u: t.0, v: t.1, w: t.2 }),
                None => r == Result::<(), VertexBufferError>::Err(
                    VertexBufferError::InterpreterError,
                ) && final(self)@.texture_coordinates == old(self)@.texture_coordinates,
            },
    {
        if let Some(texture_coordinate) = TextureCoordinates::from(new_coordinate_data) {
            self.texture_coordinates.push(texture_coordinate);
            return Ok(());
        }
        Err(VertexBufferError::InterpreterError)
    }

    /// Parses and appends a normal; a malformed line changes nothing.
    pub fn create_normal(&mut self, new_normal_data: &VecDeque<String>) -> (r: Result<
        (),
        VertexBufferError,
    >)
        ensures
            final(self)@.vertices == old(self)@.vertices,
            final(self)@.texture_coordinates == old(self)@.texture_coordinates,
            final(self)@.parameter_space_vertices == old(self)@.parameter_space_vertices,
            match spec_triple_from(new_normal_data.deep_view()) {
                Some(t) => r is Ok && final(self)@.normals == old(self)@.normals.push(
                    VertexNormal { i: t.0, j: t.1, k: t.2 },
                ),
                None => r == Result::<(), VertexBufferError>::Err(
                    VertexBufferError::InterpreterError,
                ) && final(self)@.normals == old(self)@.normals,
            },
    {
        if let Some(normal) = VertexNormal::from(new_normal_data) {
            self.normals.push(normal);
            return Ok(());
        }
        Err(VertexBufferError::InterpreterError)
    }

    /// Parses and appends a parameter-space vertex; a malformed line changes
    /// nothing.
    pub fn create_parameter_space_vertex(
        &mut self,
        new_parameter_space_vertex_data: &VecDeque<String>,
    ) -> (r: Result<(), VertexBufferError>)
        ensures
            final(self)@.vertices == old(self)@.vertices,
            final(self)@.texture_coordinates == old(self)@.texture_coordinates,
            final(self)@.normals == old(self)@.normals,
            match spec_triple_from(new_parameter_space_vertex_data.deep_view()) {
                Some(t) => r is Ok && final(self)@.parameter_space_vertices == old(
                    self,
                )@.parameter_space_vertices.push(ParameterSpaceVertex { u: t.0, v: t.1, w: t.2 }),
                None => r == Result::<(), VertexBufferError>::Err(
                    VertexBufferError::InterpreterError,
                ) && final(self)@.parameter_space_vertices == old(self)@.parameter_space_vertices,
            },
    {
        if let Some(parameter_space_vertex) = ParameterSpaceVertex::from(
            new_parameter_space_vertex_data,
        ) {
            self.parameter_space_vertices.push(parameter_space_vertex);
            return Ok(());
        }
        Err(VertexBufferError::InterpreterError)
    }

    /// Looks up a vertex by 1-based or end-relative index.
    pub fn get_vertex(&self, index: Index) -> (r: Result<Vertex, VertexBufferError>)
        ensures
            r == spec_buffer_get(self@.vertices, index.spec_value()),
    {
        get_from_buffer(&self.vertices, index)
    }

    /// Looks up a texture coordinate by 1-based or end-relative index.
    pub fn get_texture_coordinate(&self, index: Index) -> (r: Result<
        TextureCoordinates,
        VertexBufferError,
    >)
        ensures
            r == spec_buffer_get(self@.texture_coordinates, index.spec_value()),
    {
        get_from_buffer(&self.texture_coordinates, index)
    }

    /// Looks up a normal by 1-based or end-relative index.
    pub fn get_normal(&self, index: Index) -> (r: Result<VertexNormal, VertexBufferError>)
        ensures
            r == spec_buffer_get(self@.normals, index.spec_value()),
    {
        get_from_buffer(&self.normals, index)
    }

    /// Looks up a parameter-space vertex by 1-based or end-relative index.
    pub fn get_paramter_space_vertex(&self, index: Index) -> (r: Result<
        ParameterSpaceVertex,
        VertexBufferError,
    >)
        ensures
            r == spec_buffer_get(self@.parameter_space_vertices, index.spec_value()),
    {
        get_from_buffer(&self.parameter_space_vertices, index)
    }
}

impl Default for VertexBuffer {
    /// Four empty buffers.
    fn default() -> (r: Self)
        ensures
            r@.vertices.len() == 0,
            r@.texture_coordinates.len() == 0,
            r@.normals.len() == 0,
            r@.parameter_space_vertices.len() == 0,
    {
        VertexBuffer::new()
    }
}

} // verus!
