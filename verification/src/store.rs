//! The store: every resource that was made, shared under its name. One
//! cache for each kind of resource; nothing ever leaves a cache.

use vstd::prelude::*;
use vstd::hash_map::StringHashMap;
use vstd::string::StringExecFns;
use std::rc::Rc;
use crate::material::Material;
use crate::mesh::MeshBuf;
use crate::model::Model;
use crate::pipeline::NamedPipeline;

verus! {

/// `Rc::clone`: another handle to the same value. The contract says that
/// the handle it returns stands for the value that the given one stands for.
#[verifier::external_body]
pub(crate) fn share<V>(handle: &Rc<V>) -> (shared: Rc<V>)
    ensures
        shared == *handle,
{
    Rc::clone(handle)
}

/// The caches. `T` is a texture of the device, `B` what binds a material,
/// `G` a buffer and `P` a pipeline.
#[verifier::reject_recursive_types(T)]
#[verifier::reject_recursive_types(B)]
#[verifier::reject_recursive_types(G)]
#[verifier::reject_recursive_types(P)]
pub struct Store<T, B, G, P> {
    textures: StringHashMap<Rc<T>>,
    materials: StringHashMap<Rc<Material<B>>>,
    meshes: StringHashMap<Rc<MeshBuf<G>>>,
    pipelines: StringHashMap<Rc<NamedPipeline<P>>>,
    models: StringHashMap<Rc<Model<B, G, P>>>,
}

impl<T, B, G, P> Store<T, B, G, P> {
    /// The textures, by name.
    pub closed spec fn textures(&self) -> Map<Seq<char>, Rc<T>> {
        self.textures@
    }

    /// The materials, by name.
    pub closed spec fn materials(&self) -> Map<Seq<char>, Rc<Material<B>>> {
        self.materials@
    }

    /// The meshes, by name.
    pub closed spec fn meshes(&self) -> Map<Seq<char>, Rc<MeshBuf<G>>> {
        self.meshes@
    }

    /// The pipelines, by name.
    pub closed spec fn pipelines(&self) -> Map<Seq<char>, Rc<NamedPipeline<P>>> {
        self.pipelines@
    }

    /// The models, by name.
    pub closed spec fn models(&self) -> Map<Seq<char>, Rc<Model<B, G, P>>> {
        self.models@
    }

    /// Every resource that has a name is kept under that name.
    pub open spec fn wf(&self) -> bool {
        &&& forall|name: Seq<char>| #[trigger]
            self.materials().contains_key(name) ==> self.materials()[name].name@ == name
        &&& forall|name: Seq<char>| #[trigger]
            self.meshes().contains_key(name) ==> self.meshes()[name].name@ == name
        &&& forall|name: Seq<char>| #[trigger]
            self.pipelines().contains_key(name) ==> self.pipelines()[name].name@ == name
        &&& forall|name: Seq<char>| #[trigger]
            self.models().contains_key(name) ==> self.models()[name].name@ == name
    }

    /// Whether two stores hold the same resources.
    pub open spec fn same_as(&self, other: &Self) -> bool {
        &&& self.textures() == other.textures()
        &&& self.materials() == other.materials()
        &&& self.meshes() == other.meshes()
        &&& self.pipelines() == other.pipelines()
        &&& self.models() == other.models()
    }

    /// A store that holds nothing.
    pub fn new() -> (store: Self)
        ensures
            store.wf(),
            store.textures() == Map::<Seq<char>, Rc<T>>::empty(),
            store.materials() == Map::<Seq<char>, Rc<Material<B>>>::empty(),
            store.meshes() == Map::<Seq<char>, Rc<MeshBuf<G>>>::empty(),
            store.pipelines() == Map::<Seq<char>, Rc<NamedPipeline<P>>>::empty(),
            store.models() == Map::<Seq<char>, Rc<Model<B, G, P>>>::empty(),
    {
        Self {
            textures: StringHashMap::new(),
            materials: StringHashMap::new(),
            meshes: StringHashMap::new(),
            models: StringHashMap::new(),
            pipelines: StringHashMap::new(),
        }
    }

    /// Registers a pipeline under its own name.
    pub fn add_pipeline(&mut self, pipeline: Rc<NamedPipeline<P>>)
        requires
            old(self).wf(),
        ensures
            final(self).wf(),
            final(self).pipelines() == old(self).pipelines().insert(pipeline.name@, pipeline),
            final(self).textures() == old(self).textures(),
            final(self).materials() == old(self).materials(),
            final(self).meshes() == old(self).meshes(),
            final(self).models() == old(self).models(),
    {
        let key = pipeline.name.clone();
        self.pipelines.insert(key, pipeline);
        proof {
            assert(self.pipelines() == old(self).pipelines().insert(pipeline.name@, pipeline));
            assert(self.textures() == old(self).textures());
            assert(self.materials() == old(self).materials());
            assert(self.meshes() == old(self).meshes());
            assert(self.models() == old(self).models());
        }
    }

    pub fn get_pipeline(&self, name: &str) -> (found: Option<Rc<NamedPipeline<P>>>)
        ensures
            found == (if self.pipelines().contains_key(name@) {
                Some(self.pipelines()[name@])
            } else {
                None
            }),
    {
        match self.pipelines.get(name) {
            Some(pipeline) => Some(share(pipeline)),
            None => None,
        }
    }

    /// Keeps a mesh under its own name.
    pub fn add_mesh(&mut self, mesh: Rc<MeshBuf<G>>)
        requires
            old(self).wf(),
        ensures
            final(self).wf(),
            final(self).meshes() == old(self).meshes().insert(mesh.name@, mesh),
            final(self).textures() == old(self).textures(),
            final(self).materials() == old(self).materials(),
            final(self).pipelines() == old(self).pipelines(),
            final(self).models() == old(self).models(),
    {
        let key = mesh.name.clone();
        self.meshes.insert(key, mesh);
        proof {
            assert(self.meshes() == old(self).meshes().insert(mesh.name@, mesh));
            assert(self.textures() == old(self).textures());
            assert(self.materials() == old(self).materials());
            assert(self.pipelines() == old(self).pipelines());
            assert(self.models() == old(self).models());
        }
    }

    pub fn contains_mesh(&self, mesh: &str) -> (held: bool)
        ensures
            held == self.meshes().contains_key(mesh@),
    {
        self.meshes.contains_key(mesh)
    }

    pub fn get_mesh(&self, name: &str) -> (found: Option<Rc<MeshBuf<G>>>)
        ensures
            found == (if self.meshes().contains_key(name@) {
                Some(self.meshes()[name@])
            } else {
                None
            }),
    {
        match self.meshes.get(name) {
            Some(mesh) => Some(share(mesh)),
            None => None,
        }
    }

    /// Keeps a model under its own name.
    pub fn add_model(&mut self, entity: Rc<Model<B, G, P>>)
        requires
            old(self).wf(),
        ensures
            final(self).wf(),
            final(self).models() == old(self).models().insert(entity.name@, entity),
            final(self).textures() == old(self).textures(),
            final(self).materials() == old(self).materials(),
            final(self).meshes() == old(self).meshes(),
            final(self).pipelines() == old(self).pipelines(),
    {
        let key = entity.name.clone();
        self.models.insert(key, entity);
        proof {
            assert(self.models() == old(self).models().insert(entity.name@, entity));
            assert(self.textures() == old(self).textures());
            assert(self.materials() == old(self).materials());
            assert(self.meshes() == old(self).meshes());
            assert(self.pipelines() == old(self).pipelines());
        }
    }

    pub fn contains_model(&self, model: &str) -> (held: bool)
        ensures
            held == self.models().contains_key(model@),
    {
        self.models.contains_key(model)
    }

    pub fn get_model(&self, name: &str) -> (found: Option<Rc<Model<B, G, P>>>)
        ensures
            found == (if self.models().contains_key(name@) {
                Some(self.models()[name@])
            } else {
                None
            }),
    {
        match self.models.get(name) {
            Some(model) => Some(share(model)),
            None => None,
        }
    }

    /// Keeps a material under its own name.
    pub fn add_material(&mut self, material: Rc<Material<B>>)
        requires
            old(self).wf(),
        ensures
            final(self).wf(),
            final(self).materials() == old(self).materials().insert(material.name@, material),
            final(self).textures() == old(self).textures(),
            final(self).meshes() == old(self).meshes(),
            final(self).pipelines() == old(self).pipelines(),
            final(self).models() == old(self).models(),
    {
        let key = material.name.clone();
        self.materials.insert(key, material);
        proof {
            assert(self.materials() == old(self).materials().insert(material.name@, material));
            assert(self.textures() == old(self).textures());
            assert(self.meshes() == old(self).meshes());
            assert(self.pipelines() == old(self).pipelines());
            assert(self.models() == old(self).models());
        }
    }

    pub fn contains_material(&self, material: &str) -> (held: bool)
        ensures
            held == self.materials().contains_key(material@),
    {
        self.materials.contains_key(material)
    }

    pub fn get_material(&self, name: &str) -> (found: Option<Rc<Material<B>>>)
        ensures
            found == (if self.materials().contains_key(name@) {
                Some(self.materials()[name@])
            } else {
                None
            }),
    {
        match self.materials.get(name) {
            Some(material) => Some(share(material)),
            None => None,
        }
    }

    /// Keeps a texture under the given name.
    pub fn add_texture(&mut self, name: &str, texture: Rc<T>)
        requires
            old(self).wf(),
        ensures
            final(self).wf(),
            final(self).textures() == old(self).textures().insert(name@, texture),
            final(self).materials() == old(self).materials(),
            final(self).meshes() == old(self).meshes(),
            final(self).pipelines() == old(self).pipelines(),
            final(self).models() == old(self).models(),
    {
        self.textures.insert(String::from_str(name), texture);
        proof {
            assert(self.materials() == old(self).materials());
            assert(self.meshes() == old(self).meshes());
            assert(self.pipelines() == old(self).pipelines());
            assert(self.models() == old(self).models());
        }
    }

    pub fn contains_texture(&self, texture: &str) -> (held: bool)
        ensures
            held == self.textures().contains_key(texture@),
    {
        self.textures.contains_key(texture)
    }

    pub fn get_texture(&self, name: &str) -> (found: Option<Rc<T>>)
        ensures
            found == (if self.textures().contains_key(name@) {
                Some(self.textures()[name@])
            } else {
                None
            }),
    {
        match self.textures.get(name) {
            Some(texture) => Some(share(texture)),
            None => None,
        }
    }
}

} // verus!
