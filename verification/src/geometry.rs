//! Geometries: the named parts that a mesh is made of.

use vstd::prelude::*;
use vstd::std_specs::convert::FromSpecImpl;
use vstd::string::StringExecFns;
use crate::names::{GeometryName, NamedHandle};

verus! {

/// Describes one geometry of a mesh by its name.
#[derive(Debug)]
pub struct GeometryDescriptor {
    pub name: String,
}

impl FromSpecImpl<&str> for GeometryDescriptor {
    open spec fn obeys_from_spec() -> bool {
        false
    }

    open spec fn from_spec(value: &str) -> Self {
        arbitrary()
    }
}

impl From<&str> for GeometryDescriptor {
    fn from(value: &str) -> (descriptor: Self)
        ensures
            descriptor.name@ == value@,
    {
        GeometryDescriptor { name: String::from_str(value) }
    }
}

impl NamedHandle<GeometryName> for GeometryDescriptor {
    open spec fn spec_name(&self) -> GeometryName {
        GeometryName(self.name)
    }

    fn name(&self) -> (name: GeometryName) {
        GeometryName(self.name.clone())
    }
}

/// The vertices and indices of one geometry, as read from its source and
/// before anything is made on the device. `V` is the type of a vertex.
pub struct GeometryVertices<V> {
    pub name: String,
    pub vertices: Vec<V>,
    pub indices: Vec<u32>,
}

impl<V> GeometryVertices<V> {
    pub fn new(name: &str, vertices: Vec<V>, indices: Vec<u32>) -> (geometry: Self)
        ensures
            geometry.name@ == name@,
            geometry.vertices == vertices,
            geometry.indices == indices,
    {
        GeometryVertices { name: String::from_str(name), vertices, indices }
    }

    /// The number of elements to draw: the number of indices, of which the
    /// device takes the low 32 bits.
    pub open spec fn spec_num_elements(&self) -> u32 {
        self.indices@.len() as u32
    }

    /// The number of elements to draw.
    pub fn num_elements(&self) -> (count: u32)
        ensures
            count == self.spec_num_elements(),
    {
        #[verifier::truncate]
        (self.indices.len() as u32)
    }

    /// The buffers of this geometry, once the device has made them: they
    /// keep its name and its number of elements.
    pub fn to_geometry_buffer<G>(&self, vertex_buffer: G, index_buffer: G) -> (buffers:
        GeometryBuf<G>)
        ensures
            buffers == (GeometryBuf {
                name: self.name,
                vertex_buffer,
                index_buffer,
                num_elements: self.spec_num_elements(),
            }),
    {
        GeometryBuf {
            name: self.name.clone(),
            vertex_buffer,
            index_buffer,
            num_elements: self.num_elements(),
        }
    }
}

impl<V> NamedHandle<GeometryName> for GeometryVertices<V> {
    open spec fn spec_name(&self) -> GeometryName {
        GeometryName(self.name)
    }

    fn name(&self) -> (name: GeometryName) {
        GeometryName(self.name.clone())
    }
}

/// The buffers of one geometry on the device: `G` is the type of a buffer.
#[derive(Debug)]
pub struct GeometryBuf<G> {
    pub name: String,
    pub vertex_buffer: G,
    pub index_buffer: G,
    pub num_elements: u32,
}

impl<G> NamedHandle<GeometryName> for GeometryBuf<G> {
    open spec fn spec_name(&self) -> GeometryName {
        GeometryName(self.name)
    }

    fn name(&self) -> (name: GeometryName) {
        GeometryName(self.name.clone())
    }
}

} // verus!
