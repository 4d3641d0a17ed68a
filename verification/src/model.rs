//! Model descriptors, and the models that are made from them.

use vstd::prelude::*;
use vstd::std_specs::cmp::{PartialEqSpecImpl, PartialOrdSpecImpl};
use vstd::string::StringExecFns;
use std::cmp::Ordering;
use std::rc::Rc;
use crate::material::Material;
use crate::mesh::{names_of, MeshBuf};
use crate::names::{GeometryName, MaterialName, MeshName, ModelName, NamedHandle};
use crate::pipeline::NamedPipeline;
use crate::text::{compare, lexical};

verus! {

/// Describes a model: the mesh it draws, the material of each geometry of
/// that mesh, and the pipeline that draws it. The pairs of geometry and
/// material may stand in any order.
#[derive(Debug)]
pub struct ModelDescriptor {
    pub name: String,
    pub mesh: MeshName,
    pub geometries_materials: Vec<(GeometryName, MaterialName)>,
    pub pipeline_name: String,
}

/// The material that `pairs` declares for the geometry called `geometry`:
/// that of the first pair with this geometry, if there is one.
pub open spec fn material_of(pairs: Seq<(GeometryName, MaterialName)>, geometry: Seq<char>) -> Option<
    MaterialName,
>
    decreases pairs.len(),
{
    if pairs.len() == 0 {
        None
    } else if pairs[0].0@ == geometry {
        Some(pairs[0].1)
    } else {
        material_of(pairs.drop_first(), geometry)
    }
}

/// The first geometry that `pairs` declares a material for and that is none
/// of `geometries`, if there is one.
pub open spec fn first_stray(pairs: Seq<(GeometryName, MaterialName)>, geometries: Seq<Seq<char>>) -> Option<
    Seq<char>,
>
    decreases pairs.len(),
{
    if pairs.len() == 0 {
        None
    } else if !geometries.contains(pairs[0].0@) {
        Some(pairs[0].0@)
    } else {
        first_stray(pairs.drop_first(), geometries)
    }
}

/// Whether one of the items bears the name.
fn is_among<N: NamedHandle<GeometryName>>(name: &GeometryName, items: &Vec<N>) -> (found: bool)
    ensures
        found == names_of(items@).contains(name@),
{
    let mut i: usize = 0;
    while i < items.len()
        invariant
            i <= items@.len(),
            forall|j: int| 0 <= j < i ==> names_of(items@)[j] != name@,
        decreases items@.len() - i,
    {
        if items[i].name().same(name) {
            assert(names_of(items@)[i as int] == name@);
            return true;
        }
        i += 1;
    }
    false
}

impl ModelDescriptor {
    pub fn _new_(
        name: String,
        mesh: MeshName,
        geometries_materials: Vec<(GeometryName, MaterialName)>,
        pipeline_name: String,
    ) -> (descriptor: Self)
        ensures
            descriptor == (ModelDescriptor { name, mesh, geometries_materials, pipeline_name }),
    {
        Self { name, mesh, geometries_materials, pipeline_name }
    }

    /// The material declared for a geometry, if one is.
    pub fn material_for(&self, geometry: &GeometryName) -> (material: Option<&MaterialName>)
        ensures
            material == match material_of(self.geometries_materials@, geometry@) {
                Some(m) => Some(&m),
                None => None,
            },
    {
        let mut i: usize = 0;
        proof {
            assert(self.geometries_materials@.skip(0) == self.geometries_materials@);
        }
        while i < self.geometries_materials.len()
            invariant
                i <= self.geometries_materials@.len(),
                material_of(self.geometries_materials@, geometry@) == material_of(
                    self.geometries_materials@.skip(i as int),
                    geometry@,
                ),
            decreases self.geometries_materials@.len() - i,
        {
            proof {
                let tail = self.geometries_materials@.skip(i as int);
                assert(tail[0] == self.geometries_materials@[i as int]);
                assert(tail.drop_first() == self.geometries_materials@.skip(i + 1));
            }
            if self.geometries_materials[i].0.same(geometry) {
                return Some(&self.geometries_materials[i].1);
            }
            i += 1;
        }
        None
    }
}

impl ModelDescriptor {
    /// The first geometry with a declared material that is none of the
    /// given geometries, if there is one.
    pub fn stray_geometry<N: NamedHandle<GeometryName>>(&self, geometries: &Vec<N>) -> (stray:
        Option<&GeometryName>)
        ensures
            match first_stray(self.geometries_materials@, names_of(geometries@)) {
                Some(name) => stray matches Some(found) && found@ == name,
                None => stray is None,
            },
    {
        let mut i: usize = 0;
        proof {
            assert(self.geometries_materials@.skip(0) == self.geometries_materials@);
        }
        while i < self.geometries_materials.len()
            invariant
                i <= self.geometries_materials@.len(),
                first_stray(self.geometries_materials@, names_of(geometries@)) == first_stray(
                    self.geometries_materials@.skip(i as int),
                    names_of(geometries@),
                ),
            decreases self.geometries_materials@.len() - i,
        {
            proof {
                let tail = self.geometries_materials@.skip(i as int);
                assert(tail[0] == self.geometries_materials@[i as int]);
                assert(tail.drop_first() == self.geometries_materials@.skip(i + 1));
            }
            if !is_among(&self.geometries_materials[i].0, geometries) {
                return Some(&self.geometries_materials[i].0);
            }
            i += 1;
        }
        None
    }
}

impl NamedHandle<ModelName> for ModelDescriptor {
    open spec fn spec_name(&self) -> ModelName {
        ModelName(self.name)
    }

    fn name(&self) -> (name: ModelName) {
        ModelName(self.name.clone())
    }
}

/// A model ready to be drawn: its pipeline, its mesh, and one material for
/// each geometry of the mesh, `materials[i]` going with `mesh.geometries[i]`.
/// A pipeline that draws without materials has none.
#[derive(Debug)]
pub struct Model<B, G, P> {
    pub name: String,
    pub pipeline: Rc<NamedPipeline<P>>,
    pub mesh: Rc<MeshBuf<G>>,
    pub materials: Vec<Rc<Material<B>>>,
}

/// [`Model`] as a mathematical value.
pub struct ModelView<B, G, P> {
    pub name: Seq<char>,
    pub pipeline: Rc<NamedPipeline<P>>,
    pub mesh: Rc<MeshBuf<G>>,
    pub materials: Seq<Rc<Material<B>>>,
}

impl<B, G, P> View for Model<B, G, P> {
    type V = ModelView<B, G, P>;

    open spec fn view(&self) -> ModelView<B, G, P> {
        ModelView {
            name: self.name@,
            pipeline: self.pipeline,
            mesh: self.mesh,
            materials: self.materials@,
        }
    }
}

impl<B, G, P> Model<B, G, P> {
    /// A model without materials yet.
    pub fn new(name: String, pipeline: Rc<NamedPipeline<P>>, mesh: Rc<MeshBuf<G>>) -> (model: Self)
        ensures
            model.name == name,
            model.pipeline == pipeline,
            model.mesh == mesh,
            model.materials@ == Seq::<Rc<Material<B>>>::empty(),
    {
        Self { name, pipeline, mesh, materials: Vec::new() }
    }

    pub fn name(&self) -> (name: String)
        ensures
            name == self.name,
    {
        self.name.clone()
    }
}

impl<B, G, P> NamedHandle<ModelName> for Model<B, G, P> {
    open spec fn spec_name(&self) -> ModelName {
        ModelName(self.name)
    }

    fn name(&self) -> (name: ModelName) {
        ModelName(self.name.clone())
    }
}

/// The names one after the other, a space before each.
pub open spec fn joined(names: Seq<Seq<char>>) -> Seq<char>
    decreases names.len(),
{
    if names.len() == 0 {
        Seq::empty()
    } else {
        joined(names.drop_last()) + " "@ + names.last()
    }
}

impl<B, G, P> Model<B, G, P> {
    /// The names of the materials, in their order.
    pub open spec fn material_names(&self) -> Seq<Seq<char>> {
        Seq::new(self.materials@.len(), |i: int| self.materials@[i].name@)
    }

    /// The names of the materials one after the other, a space before each.
    fn joined_material_names(&self) -> (text: String)
        ensures
            text@ == joined(self.material_names()),
    {
        let mut text = String::new();
        let mut i: usize = 0;
        while i < self.materials.len()
            invariant
                i <= self.materials@.len(),
                text@ == joined(self.material_names().take(i as int)),
            decreases self.materials@.len() - i,
        {
            proof {
                let next = self.material_names().take(i + 1);
                assert(next.drop_last() == self.material_names().take(i as int));
                assert(next.last() == self.materials@[i as int].name@);
            }
            text = text.concat(" ").concat(self.materials[i].name.as_str());
            i += 1;
        }
        assert(self.material_names().take(i as int) == self.material_names());
        text
    }
}

impl<B, G, P> PartialEqSpecImpl for Model<B, G, P> {
    open spec fn obeys_eq_spec() -> bool {
        true
    }

    /// Two models are the same where they draw the same mesh with the same
    /// pipeline and their materials are as many and spell the same.
    open spec fn eq_spec(&self, other: &Model<B, G, P>) -> bool {
        &&& self.pipeline.name@ == other.pipeline.name@
        &&& self.mesh.name@ == other.mesh.name@
        &&& self.materials@.len() == other.materials@.len()
        &&& joined(self.material_names()) == joined(other.material_names())
    }
}

impl<B, G, P> PartialEq for Model<B, G, P> {
    fn eq(&self, other: &Self) -> (same: bool) {
        self.pipeline.name == other.pipeline.name && self.mesh.name == other.mesh.name
            && self.materials.len() == other.materials.len() && self.joined_material_names()
            == other.joined_material_names()
    }
}

impl<B, G, P> Eq for Model<B, G, P> {

}

impl<B, G, P> Model<B, G, P> {
    /// The order in which models are best drawn: by the name of the
    /// pipeline, and under one pipeline by the name of the mesh.
    pub open spec fn drawing_order(&self, other: &Model<B, G, P>) -> Ordering {
        match lexical(self.pipeline.name@, other.pipeline.name@) {
            Ordering::Equal => lexical(self.mesh.name@, other.mesh.name@),
            order => order,
        }
    }

    /// The order in which models are best drawn.
    pub fn cmp(&self, other: &Self) -> (order: Ordering)
        ensures
            order == self.drawing_order(other),
    {
        match compare(self.pipeline.name.as_str(), other.pipeline.name.as_str()) {
            Ordering::Equal => compare(self.mesh.name.as_str(), other.mesh.name.as_str()),
            order => order,
        }
    }
}

impl<B, G, P> PartialOrdSpecImpl for Model<B, G, P> {
    open spec fn obeys_partial_cmp_spec() -> bool {
        true
    }

    open spec fn partial_cmp_spec(&self, other: &Model<B, G, P>) -> Option<Ordering> {
        Some(self.drawing_order(other))
    }
}

impl<B, G, P> PartialOrd for Model<B, G, P> {
    fn partial_cmp(&self, other: &Self) -> (order: Option<Ordering>) {
        Some(self.cmp(other))
    }
}

} // verus!
