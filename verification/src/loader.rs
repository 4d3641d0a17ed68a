//! Resolution: from a name, through its descriptor, to the shared resource.
//!
//! Resolution decides and never makes anything on the device. Where a
//! resource has to be made first, it answers with a [`Request`]. The caller
//! makes what is asked for, hands it in with `install`, and resolves again:
//! what has been installed is found in the store from then on.

use vstd::prelude::*;
use vstd::string::StringExecFns;
use std::rc::Rc;
use crate::assets::{AssetDescriptor, AssetError, AssetErrorView, AssetKey, AssetsDescriptors, TryAsRef};
use crate::error::{MeshError, MeshErrorView, ModelError, ModelErrorView};
use crate::geometry::GeometryBuf;
use crate::material::{
    ColorMaterialDescriptor, Material, MaterialDescriptor, MaterialKind, TextureMaterialDescriptor,
};
use crate::mesh::{arranged, is_undeclared, MeshBuf, MeshDescriptor};
use crate::model::{first_stray, material_of, Model, ModelDescriptor, ModelView};
use crate::names::{MaterialName, MeshName, ModelName, NamedHandle, TextureName};
use crate::pipeline::NamedPipeline;
use crate::store::Store;
use crate::texture::{PixelFormat, TextureDescriptor};

verus! {

/// Why a resolution failed.
#[derive(Debug)]
pub enum LoadError {
    /// A name is not in the catalog, or not as the kind asked for.
    Asset(AssetError),
    /// The descriptor of a model does not go with its mesh, its pipeline or
    /// its materials.
    Model(ModelError),
}

/// [`LoadError`] as a mathematical value.
pub enum LoadErrorView {
    Asset(AssetErrorView),
    Model(ModelErrorView),
}

impl View for LoadError {
    type V = LoadErrorView;

    open spec fn view(&self) -> LoadErrorView {
        match self {
            LoadError::Asset(e) => LoadErrorView::Asset(e@),
            LoadError::Model(e) => LoadErrorView::Model(e@),
        }
    }
}

impl LoadErrorView {
    /// The text that the failure prints.
    pub open spec fn message(self) -> Seq<char> {
        match self {
            LoadErrorView::Asset(e) => e.message(),
            LoadErrorView::Model(e) => e.message(),
        }
    }
}

impl LoadError {
    /// The text that the failure prints.
    pub fn to_string(&self) -> (text: String)
        ensures
            text@ == self@.message(),
    {
        match self {
            LoadError::Asset(e) => e.to_string(),
            LoadError::Model(e) => e.to_string(),
        }
    }
}

/// A resource that has to be made on the device before resolution can go
/// on. `T` is the type of a texture of the device.
pub enum Request<'a, T> {
    /// Read the image of this texture and make the texture, its pixels in
    /// the given format.
    Texture { texture: &'a TextureDescriptor, format: PixelFormat },
    /// Make the material of these colours.
    ColorMaterial { colors: &'a ColorMaterialDescriptor },
    /// Make the material that binds these two textures.
    TextureMaterial { textures: &'a TextureMaterialDescriptor, diffuse: Rc<T>, normal: Rc<T> },
    /// Read the geometries of this mesh from its source and make their
    /// buffers.
    Mesh { mesh: &'a MeshDescriptor },
}

/// How a resolution ended.
pub enum Loaded<'a, T, R> {
    /// The resource is in the store: here is a handle to it.
    Ready(R),
    /// Something has to be made first.
    Pending(Request<'a, T>),
    /// The descriptors do not allow it.
    Failed(LoadError),
}

/// [`Loaded`] as a mathematical value.
pub enum Outcome<'a, T, R> {
    Ready(R),
    Pending(Request<'a, T>),
    Failed(LoadErrorView),
}

impl<'a, T, R> View for Loaded<'a, T, R> {
    type V = Outcome<'a, T, R>;

    open spec fn view(&self) -> Outcome<'a, T, R> {
        match self {
            Loaded::Ready(handle) => Outcome::Ready(*handle),
            Loaded::Pending(request) => Outcome::Pending(*request),
            Loaded::Failed(e) => Outcome::Failed(e@),
        }
    }
}

/// The failure of a name that the catalog does not hold.
pub open spec fn not_found<'a, T, R>(key: AssetKey) -> Outcome<'a, T, R> {
    Outcome::Failed(LoadErrorView::Asset(AssetErrorView::AssetNotFound { key: key.text() }))
}

/// The failure of a descriptor that is not of the kind asked for.
pub open spec fn wrong_kind<'a, T, R>(found: AssetDescriptor, wanted: Seq<char>) -> Outcome<'a, T, R> {
    Outcome::Failed(
        LoadErrorView::Asset(
            AssetErrorView::TryAsRefFailed { descriptor: found.key(), target_type: wanted },
        ),
    )
}

impl TextureDescriptor {
    /// How loading this texture ends, given what the store holds.
    pub open spec fn outcome<'a, T, B, G, P>(&'a self, store: &Store<T, B, G, P>) -> Outcome<
        'a,
        T,
        Rc<T>,
    > {
        if store.textures().contains_key(self.name@) {
            Outcome::Ready(store.textures()[self.name@])
        } else {
            Outcome::Pending(
                Request::Texture { texture: self, format: self.kind.spec_pixel_format() },
            )
        }
    }

    /// The texture from the store, or the request to make it.
    pub fn load<'a, T, B, G, P>(&'a self, store: &Store<T, B, G, P>) -> (loaded: Loaded<
        'a,
        T,
        Rc<T>,
    >)
        ensures
            loaded@ == self.outcome(store),
    {
        match store.get_texture(self.name.as_str()) {
            Some(texture) => Loaded::Ready(texture),
            None => Loaded::Pending(
                Request::Texture { texture: self, format: self.kind.pixel_format() },
            ),
        }
    }

    /// Hands in the texture that was made for this descriptor: the store
    /// keeps it under the descriptor's name.
    pub fn install<T, B, G, P>(&self, texture: T, store: &mut Store<T, B, G, P>) -> (handle: Rc<T>)
        requires
            old(store).wf(),
        ensures
            final(store).wf(),
            handle == texture,
            final(store).textures() == old(store).textures().insert(self.name@, handle),
            final(store).materials() == old(store).materials(),
            final(store).meshes() == old(store).meshes(),
            final(store).pipelines() == old(store).pipelines(),
            final(store).models() == old(store).models(),
    {
        let handle = Rc::new(texture);
        store.add_texture(self.name.as_str(), crate::store::share(&handle));
        handle
    }
}

impl TextureName {
    /// How resolving this name ends, given the catalog and the store.
    pub open spec fn outcome<'a, T, B, G, P>(
        &self,
        assets: Map<AssetKey, AssetDescriptor>,
        store: &Store<T, B, G, P>,
    ) -> Outcome<'a, T, Rc<T>> {
        let key = AssetKey::Texture(self@);
        if !assets.contains_key(key) {
            not_found(key)
        } else {
            match assets[key] {
                AssetDescriptor::Texture(descriptor) => descriptor.outcome(store),
                other => wrong_kind(other, "TextureDescriptor"@),
            }
        }
    }

    /// Resolves the name to its texture.
    pub fn resolve<'a, T, B, G, P>(
        &self,
        assets: &'a AssetsDescriptors,
        store: &Store<T, B, G, P>,
    ) -> (loaded: Loaded<'a, T, Rc<T>>)
        ensures
            loaded@ == self.outcome(assets@, store),
    {
        let found = match assets.lookup(&crate::assets::AssetName::Texture(self.clone())) {
            Some(found) => found,
            None => {
                return Loaded::Failed(
                    LoadError::Asset(
                        AssetError::AssetNotFound {
                            key: self.to_string(),
                        },
                    ),
                );
            },
        };
        let descriptor: &TextureDescriptor = match found.try_as_ref() {
            Ok(descriptor) => descriptor,
            Err(e) => {
                return Loaded::Failed(LoadError::Asset(e));
            },
        };
        descriptor.load(store)
    }
}

impl MeshDescriptor {
    /// How loading this mesh ends, given what the store holds.
    pub open spec fn outcome<'a, T, B, G, P>(&'a self, store: &Store<T, B, G, P>) -> Outcome<
        'a,
        T,
        Rc<MeshBuf<G>>,
    > {
        if store.meshes().contains_key(self.name@) {
            Outcome::Ready(store.meshes()[self.name@])
        } else {
            Outcome::Pending(Request::Mesh { mesh: self })
        }
    }

    /// The mesh from the store, or the request to make it.
    pub fn load<'a, T, B, G, P>(&'a self, store: &Store<T, B, G, P>) -> (loaded: Loaded<
        'a,
        T,
        Rc<MeshBuf<G>>,
    >)
        ensures
            loaded@ == self.outcome(store),
    {
        match store.get_mesh(self.name.as_str()) {
            Some(mesh) => Loaded::Ready(mesh),
            None => Loaded::Pending(Request::Mesh { mesh: self }),
        }
    }

    /// Hands in the buffers that were made from the source of this mesh.
    ///
    /// Where the source held a geometry that the descriptor does not
    /// declare, the whole mesh is refused and the store stays as it was.
    /// Else the store keeps the mesh under the descriptor's name, its
    /// geometries in the declared order.
    pub fn install<T, B, G, P>(
        &self,
        geometries: Vec<GeometryBuf<G>>,
        store: &mut Store<T, B, G, P>,
    ) -> (outcome: Result<Rc<MeshBuf<G>>, MeshError>)
        requires
            old(store).wf(),
        ensures
            final(store).wf(),
            final(store).textures() == old(store).textures(),
            final(store).materials() == old(store).materials(),
            final(store).pipelines() == old(store).pipelines(),
            final(store).models() == old(store).models(),
            match outcome {
                Ok(mesh) => {
                    &&& geometries@.filter(is_undeclared(self.declared_names())).len() == 0
                    &&& mesh.name@ == self.name@
                    &&& mesh.geometries@ == arranged(self.declared_names(), geometries@)
                    &&& final(store).meshes() == old(store).meshes().insert(self.name@, mesh)
                },
                Err(e) => {
                    let strangers = geometries@.filter(is_undeclared(self.declared_names()));
                    &&& strangers.len() > 0
                    &&& e@ == (MeshErrorView::UnexpectedGeometry {
                        mesh: self.name@,
                        geometry: strangers[0].spec_name()@,
                    })
                    &&& final(store).meshes() == old(store).meshes()
                },
            },
    {
        match self.arrange(geometries) {
            Ok(ordered) => {
                let mesh = Rc::new(MeshBuf { name: self.name.clone(), geometries: ordered });
                store.add_mesh(crate::store::share(&mesh));
                Ok(mesh)
            },
            Err(e) => Err(e),
        }
    }
}

impl MeshName {
    /// How resolving this name ends, given the catalog and the store.
    pub open spec fn outcome<'a, T, B, G, P>(
        &self,
        assets: Map<AssetKey, AssetDescriptor>,
        store: &Store<T, B, G, P>,
    ) -> Outcome<'a, T, Rc<MeshBuf<G>>> {
        let key = AssetKey::Mesh(self@);
        if !assets.contains_key(key) {
            not_found(key)
        } else {
            match assets[key] {
                AssetDescriptor::Mesh(descriptor) => descriptor.outcome(store),
                other => wrong_kind(other, "MeshDescriptor"@),
            }
        }
    }

    /// Resolves the name to its mesh.
    pub fn resolve<'a, T, B, G, P>(
        &self,
        assets: &'a AssetsDescriptors,
        store: &Store<T, B, G, P>,
    ) -> (loaded: Loaded<'a, T, Rc<MeshBuf<G>>>)
        ensures
            loaded@ == self.outcome(assets@, store),
    {
        let found = match assets.lookup(&crate::assets::AssetName::Mesh(self.clone())) {
            Some(found) => found,
            None => {
                return Loaded::Failed(
                    LoadError::Asset(AssetError::AssetNotFound { key: self.to_string() }),
                );
            },
        };
        let descriptor: &MeshDescriptor = match found.try_as_ref() {
            Ok(descriptor) => descriptor,
            Err(e) => {
                return Loaded::Failed(LoadError::Asset(e));
            },
        };
        descriptor.load(store)
    }
}

impl ColorMaterialDescriptor {
    /// Hands in what binds the material that was made of these colours:
    /// the store keeps it under the descriptor's name, tagged as a material
    /// of colours.
    pub fn install<T, B, G, P>(&self, bind_group: B, store: &mut Store<T, B, G, P>) -> (handle: Rc<
        Material<B>,
    >)
        requires
            old(store).wf(),
        ensures
            final(store).wf(),
            handle.name@ == self.name@,
            handle.kind == MaterialKind::Color,
            handle.bind_group == bind_group,
            final(store).materials() == old(store).materials().insert(self.name@, handle),
            final(store).textures() == old(store).textures(),
            final(store).meshes() == old(store).meshes(),
            final(store).pipelines() == old(store).pipelines(),
            final(store).models() == old(store).models(),
    {
        let handle = Rc::new(Material::new(self.name.as_str(), MaterialKind::Color, bind_group));
        store.add_material(crate::store::share(&handle));
        handle
    }
}

impl TextureMaterialDescriptor {
    /// Hands in what binds the material that was made of the two textures:
    /// the store keeps it under the descriptor's name, tagged as a material
    /// of textures.
    pub fn install<T, B, G, P>(&self, bind_group: B, store: &mut Store<T, B, G, P>) -> (handle: Rc<
        Material<B>,
    >)
        requires
            old(store).wf(),
        ensures
            final(store).wf(),
            handle.name@ == self.name@,
            handle.kind == MaterialKind::Texture,
            handle.bind_group == bind_group,
            final(store).materials() == old(store).materials().insert(self.name@, handle),
            final(store).textures() == old(store).textures(),
            final(store).meshes() == old(store).meshes(),
            final(store).pipelines() == old(store).pipelines(),
            final(store).models() == old(store).models(),
    {
        let handle = Rc::new(Material::new(self.name.as_str(), MaterialKind::Texture, bind_group));
        store.add_material(crate::store::share(&handle));
        handle
    }
}

impl MaterialDescriptor {
    /// How loading this material ends, given the catalog and the store.
    pub open spec fn outcome<'a, T, B, G, P>(
        &'a self,
        assets: Map<AssetKey, AssetDescriptor>,
        store: &Store<T, B, G, P>,
    ) -> Outcome<'a, T, Rc<Material<B>>> {
        if store.materials().contains_key(self.spec_name()@) {
            Outcome::Ready(store.materials()[self.spec_name()@])
        } else {
            match self {
                MaterialDescriptor::Color(color) => Outcome::Pending(
                    Request::ColorMaterial { colors: color },
                ),
                MaterialDescriptor::Texture(texture) => match texture.diffuse_texture.outcome(
                    assets,
                    store,
                ) {
                    Outcome::Ready(diffuse) => match texture.normal_texture.outcome(assets, store) {
                        Outcome::Ready(normal) => Outcome::Pending(
                            Request::TextureMaterial { textures: texture, diffuse, normal },
                        ),
                        Outcome::Pending(request) => Outcome::Pending(request),
                        Outcome::Failed(e) => Outcome::Failed(e),
                    },
                    Outcome::Pending(request) => Outcome::Pending(request),
                    Outcome::Failed(e) => Outcome::Failed(e),
                },
            }
        }
    }

    /// The material from the store, or what has to be made for it: first
    /// the texture of its colours, then the texture of its normals, then the
    /// material itself.
    pub fn load<'a, T, B, G, P>(
        &'a self,
        assets: &'a AssetsDescriptors,
        store: &Store<T, B, G, P>,
    ) -> (loaded: Loaded<'a, T, Rc<Material<B>>>)
        ensures
            loaded@ == self.outcome(assets@, store),
    {
        let name = self.name();
        match store.get_material(name.0.as_str()) {
            Some(material) => {
                return Loaded::Ready(material);
            },
            None => {},
        }
        match self {
            MaterialDescriptor::Color(color) => Loaded::Pending(
                Request::ColorMaterial { colors: color },
            ),
            MaterialDescriptor::Texture(texture) => {
                let diffuse = match texture.diffuse_texture.resolve(assets, store) {
                    Loaded::Ready(diffuse) => diffuse,
                    Loaded::Pending(request) => {
                        return Loaded::Pending(request);
                    },
                    Loaded::Failed(e) => {
                        return Loaded::Failed(e);
                    },
                };
                let normal = match texture.normal_texture.resolve(assets, store) {
                    Loaded::Ready(normal) => normal,
                    Loaded::Pending(request) => {
                        return Loaded::Pending(request);
                    },
                    Loaded::Failed(e) => {
                        return Loaded::Failed(e);
                    },
                };
                Loaded::Pending(Request::TextureMaterial { textures: texture, diffuse, normal })
            },
        }
    }
}

impl MaterialName {
    /// How resolving this name ends, given the catalog and the store.
    pub open spec fn outcome<'a, T, B, G, P>(
        &self,
        assets: Map<AssetKey, AssetDescriptor>,
        store: &Store<T, B, G, P>,
    ) -> Outcome<'a, T, Rc<Material<B>>> {
        let key = AssetKey::Material(self@);
        if !assets.contains_key(key) {
            not_found(key)
        } else {
            match assets[key] {
                AssetDescriptor::Material(descriptor) => descriptor.outcome(assets, store),
                other => wrong_kind(other, "MaterialDescriptor"@),
            }
        }
    }

    /// Resolves the name to its material.
    pub fn resolve<'a, T, B, G, P>(
        &self,
        assets: &'a AssetsDescriptors,
        store: &Store<T, B, G, P>,
    ) -> (loaded: Loaded<'a, T, Rc<Material<B>>>)
        ensures
            loaded@ == self.outcome(assets@, store),
    {
        let found = match assets.lookup(&crate::assets::AssetName::Material(self.clone())) {
            Some(found) => found,
            None => {
                return Loaded::Failed(
                    LoadError::Asset(AssetError::AssetNotFound { key: self.to_string() }),
                );
            },
        };
        let descriptor: &MaterialDescriptor = match found.try_as_ref() {
            Ok(descriptor) => descriptor,
            Err(e) => {
                return Loaded::Failed(LoadError::Asset(e));
            },
        };
        descriptor.load(assets, store)
    }
}

/// How resolving a model ends.
pub enum ModelOutcome<'a, T, B, G, P> {
    /// The store held the model already.
    Cached(Rc<Model<B, G, P>>),
    /// The model is put together from what the store holds, and kept.
    Built(ModelView<B, G, P>),
    /// Something has to be made first.
    Pending(Request<'a, T>),
    /// The descriptors do not allow it.
    Failed(LoadErrorView),
}

/// The failure of a model, by its cause.
pub open spec fn rejected(cause: ModelErrorView) -> LoadErrorView {
    LoadErrorView::Model(cause)
}

/// The reason given where materials are declared for a pipeline that draws
/// without any.
pub open spec fn no_material_expected() -> Seq<char> {
    "pipeline does not expect material"@
}

/// The reason given where a pipeline does not accept the kind of a material.
pub open spec fn kind_not_accepted(kind: MaterialKind) -> Seq<char> {
    "pipeline does not accept "@ + kind.label()
}

impl ModelDescriptor {
    /// How finding the material of one geometry ends: the material that the
    /// descriptor declares for the geometry, resolved, and held against the
    /// kinds that the pipeline accepts.
    pub open spec fn material_step<'a, T, B, G, P>(
        &self,
        assets: Map<AssetKey, AssetDescriptor>,
        store: &Store<T, B, G, P>,
        pipeline: Rc<NamedPipeline<P>>,
        geometry: Seq<char>,
    ) -> Outcome<'a, T, Rc<Material<B>>> {
        match material_of(self.geometries_materials@, geometry) {
            None => Outcome::Failed(
                rejected(
                    ModelErrorView::MaterialNotSetForGeometry { geometry, model: self.name@ },
                ),
            ),
            Some(name) => match name.outcome(assets, store) {
                Outcome::Ready(material) => if pipeline.spec_can_use(material.kind) {
                    Outcome::Ready(material)
                } else {
                    Outcome::Failed(
                        rejected(
                            ModelErrorView::InvalidMaterialAndPipeline {
                                model: self.name@,
                                pipeline: self.pipeline_name@,
                                reason: kind_not_accepted(material.kind),
                            },
                        ),
                    )
                },
                other => other,
            },
        }
    }

    /// The first geometry from position `from` on whose material is not
    /// ready, by how finding it ends; `None` where all are ready.
    pub open spec fn first_blocked<'a, T, B, G, P>(
        &self,
        assets: Map<AssetKey, AssetDescriptor>,
        store: &Store<T, B, G, P>,
        pipeline: Rc<NamedPipeline<P>>,
        geometries: Seq<Seq<char>>,
        from: int,
    ) -> Option<Outcome<'a, T, Rc<Material<B>>>>
        decreases geometries.len() - from,
    {
        if from < 0 || from >= geometries.len() {
            None
        } else {
            match self.material_step(assets, store, pipeline, geometries[from]) {
                Outcome::Ready(_) => self.first_blocked(assets, store, pipeline, geometries, from + 1),
                other => Some(other),
            }
        }
    }

    /// The materials of the geometries, in the order of the geometries.
    pub open spec fn materials_in_order<T, B, G, P>(
        &self,
        assets: Map<AssetKey, AssetDescriptor>,
        store: &Store<T, B, G, P>,
        pipeline: Rc<NamedPipeline<P>>,
        geometries: Seq<Seq<char>>,
    ) -> Seq<Rc<Material<B>>> {
        Seq::new(
            geometries.len(),
            |i: int| self.material_step(assets, store, pipeline, geometries[i])->Ready_0,
        )
    }

    /// How loading this model ends, given the catalog and the store.
    ///
    /// A model of the store is handed out as it is. Else the mesh is
    /// resolved, then the pipeline is looked up. A pipeline without
    /// materials takes a model that declares none. A pipeline with
    /// materials takes as many as the mesh has geometries, one for each
    /// geometry in the order of the mesh, whatever the order in which the
    /// descriptor declares them; and the descriptor may declare no material
    /// for a geometry that the mesh does not have.
    pub open spec fn outcome<'a, T, B, G, P>(
        &'a self,
        assets: Map<AssetKey, AssetDescriptor>,
        store: &Store<T, B, G, P>,
    ) -> ModelOutcome<'a, T, B, G, P> {
        if store.models().contains_key(self.name@) {
            ModelOutcome::Cached(store.models()[self.name@])
        } else {
            match self.mesh.outcome(assets, store) {
                Outcome::Failed(e) => ModelOutcome::Failed(e),
                Outcome::Pending(request) => ModelOutcome::Pending(request),
                Outcome::Ready(mesh) => if !store.pipelines().contains_key(self.pipeline_name@) {
                    ModelOutcome::Failed(
                        rejected(
                            ModelErrorView::PipelineNotFoundInStore {
                                model: self.name@,
                                pipeline: self.pipeline_name@,
                            },
                        ),
                    )
                } else {
                    let pipeline = store.pipelines()[self.pipeline_name@];
                    let declared = self.geometries_materials@.len();
                    if !pipeline.spec_needs_material() {
                        if declared == 0 {
                            ModelOutcome::Built(
                                ModelView {
                                    name: self.name@,
                                    pipeline,
                                    mesh,
                                    materials: Seq::empty(),
                                },
                            )
                        } else {
                            ModelOutcome::Failed(
                                rejected(
                                    ModelErrorView::InvalidMaterialAndPipeline {
                                        model: self.name@,
                                        pipeline: self.pipeline_name@,
                                        reason: no_material_expected(),
                                    },
                                ),
                            )
                        }
                    } else if declared != mesh.geometries@.len() {
                        ModelOutcome::Failed(
                            rejected(
                                ModelErrorView::InvalidMaterialCount {
                                    model_name: self.name@,
                                    mesh_name: self.mesh@,
                                    descriptor_materials_count: declared,
                                    model_geometries_count: mesh.geometries@.len(),
                                },
                            ),
                        )
                    } else {
                        match self.first_blocked(assets, store, pipeline, mesh.geometry_names(), 0) {
                            Some(Outcome::Pending(request)) => ModelOutcome::Pending(request),
                            Some(Outcome::Failed(e)) => ModelOutcome::Failed(e),
                            _ => match first_stray(
                                self.geometries_materials@,
                                mesh.geometry_names(),
                            ) {
                                Some(geometry) => ModelOutcome::Failed(
                                    rejected(
                                        ModelErrorView::GeometryNotFound {
                                            geometry,
                                            model: self.name@,
                                        },
                                    ),
                                ),
                                None => ModelOutcome::Built(
                                    ModelView {
                                        name: self.name@,
                                        pipeline,
                                        mesh,
                                        materials: self.materials_in_order(
                                            assets,
                                            store,
                                            pipeline,
                                            mesh.geometry_names(),
                                        ),
                                    },
                                ),
                            },
                        }
                    }
                },
            }
        }
    }

    /// The model from the store; or the model put together from its mesh,
    /// its pipeline and its materials, and kept in the store; or the request
    /// for what has to be made first; or the reason why the descriptors do
    /// not allow the model. The store changes only where a model is put
    /// together.
    #[verifier::loop_isolation(false)]
    pub fn load<'a, T, B, G, P>(
        &'a self,
        assets: &'a AssetsDescriptors,
        store: &mut Store<T, B, G, P>,
    ) -> (loaded: Loaded<'a, T, Rc<Model<B, G, P>>>)
        requires
            old(store).wf(),
        ensures
            final(store).wf(),
            final(store).textures() == old(store).textures(),
            final(store).materials() == old(store).materials(),
            final(store).meshes() == old(store).meshes(),
            final(store).pipelines() == old(store).pipelines(),
            match self.outcome(assets@, old(store)) {
                ModelOutcome::Cached(model) => {
                    &&& loaded@ == Outcome::<T, Rc<Model<B, G, P>>>::Ready(model)
                    &&& final(store).models() == old(store).models()
                },
                ModelOutcome::Built(view) => {
                    &&& loaded matches Loaded::Ready(model)
                    &&& model@ == view
                    &&& final(store).models() == old(store).models().insert(self.name@, model)
                },
                ModelOutcome::Pending(request) => {
                    &&& loaded@ == Outcome::<T, Rc<Model<B, G, P>>>::Pending(request)
                    &&& final(store).models() == old(store).models()
                },
                ModelOutcome::Failed(e) => {
                    &&& loaded@ == Outcome::<T, Rc<Model<B, G, P>>>::Failed(e)
                    &&& final(store).models() == old(store).models()
                },
            },
    {
        match store.get_model(self.name.as_str()) {
            Some(model) => {
                return Loaded::Ready(model);
            },
            None => {},
        }
        let mesh = match self.mesh.resolve(assets, store) {
            Loaded::Ready(mesh) => mesh,
            Loaded::Pending(request) => {
                return Loaded::Pending(request);
            },
            Loaded::Failed(e) => {
                return Loaded::Failed(e);
            },
        };
        let pipeline = match store.get_pipeline(self.pipeline_name.as_str()) {
            Some(pipeline) => pipeline,
            None => {
                return Loaded::Failed(
                    LoadError::Model(
                        ModelError::PipelineNotFoundInStore {
                            model: self.name(),
                            pipeline: self.pipeline_name.clone(),
                        },
                    ),
                );
            },
        };
        let declared = self.geometries_materials.len();
        let mut model = Model::new(self.name.clone(), pipeline, mesh);
        if !model.pipeline.needs_material() {
            if declared != 0 {
                return Loaded::Failed(
                    LoadError::Model(
                        ModelError::InvalidMaterialAndPipeline {
                            model: self.name(),
                            pipeline: self.pipeline_name.clone(),
                            reason: String::from_str("pipeline does not expect material"),
                        },
                    ),
                );
            }
        } else if declared != model.mesh.geometries.len() {
            return Loaded::Failed(
                LoadError::Model(
                    ModelError::InvalidMaterialCount {
                        model_name: self.name(),
                        mesh_name: self.mesh.clone(),
                        descriptor_materials_count: declared,
                        model_geometries_count: model.mesh.geometries.len(),
                    },
                ),
            );
        } else {
            let ghost names = model.mesh.geometry_names();
            let ghost mesh = model.mesh;
            let mut i: usize = 0;
            while i < model.mesh.geometries.len()
                invariant
                    *store == *old(store),
                    names == model.mesh.geometry_names(),
                    model.name == self.name,
                    model.pipeline == old(store).pipelines()[self.pipeline_name@],
                    model.mesh == mesh,
                    i <= names.len(),
                    model.materials@.len() == i,
                    forall|j: int|
                        0 <= j < i ==> self.material_step::<T, B, G, P>(
                            assets@,
                            old(store),
                            model.pipeline,
                            names[j],
                        ) == Outcome::<T, Rc<Material<B>>>::Ready(#[trigger] model.materials@[j]),
                    self.first_blocked::<T, B, G, P>(assets@, old(store), model.pipeline, names, 0)
                        == self.first_blocked::<T, B, G, P>(
                        assets@,
                        old(store),
                        model.pipeline,
                        names,
                        i as int,
                    ),
                decreases names.len() - i,
            {
                let geometry = model.mesh.geometries[i].name();
                assert(geometry@ == names[i as int]);
                let material_name = match self.material_for(&geometry) {
                    Some(name) => name,
                    None => {
                        return Loaded::Failed(
                            LoadError::Model(
                                ModelError::MaterialNotSetForGeometry {
                                    geometry,
                                    model: self.name(),
                                },
                            ),
                        );
                    },
                };
                let material = match material_name.resolve(assets, store) {
                    Loaded::Ready(material) => material,
                    Loaded::Pending(request) => {
                        return Loaded::Pending(request);
                    },
                    Loaded::Failed(e) => {
                        return Loaded::Failed(e);
                    },
                };
                if !model.pipeline.can_use(material.kind) {
                    return Loaded::Failed(
                        LoadError::Model(
                            ModelError::InvalidMaterialAndPipeline {
                                model: self.name(),
                                pipeline: self.pipeline_name.clone(),
                                reason: String::from_str("pipeline does not accept ").concat(
                                    String::from(material.kind).as_str(),
                                ),
                            },
                        ),
                    );
                }
                model.materials.push(material);
                i += 1;
            }
            assert(model.materials@ == self.materials_in_order(
                assets@,
                old(store),
                model.pipeline,
                names,
            ));
            match self.stray_geometry(&model.mesh.geometries) {
                Some(stray) => {
                    return Loaded::Failed(
                        LoadError::Model(
                            ModelError::GeometryNotFound {
                                geometry: stray.clone(),
                                model: self.name(),
                            },
                        ),
                    );
                },
                None => {},
            }
        }
        let model = Rc::new(model);
        store.add_model(crate::store::share(&model));
        Loaded::Ready(model)
    }
}

impl ModelName {
    /// How resolving this name ends, given the catalog and the store.
    pub open spec fn outcome<'a, T, B, G, P>(
        &self,
        assets: Map<AssetKey, AssetDescriptor>,
        store: &Store<T, B, G, P>,
    ) -> ModelOutcome<'a, T, B, G, P> {
        let key = AssetKey::Model(self@);
        if !assets.contains_key(key) {
            ModelOutcome::Failed(
                LoadErrorView::Asset(AssetErrorView::AssetNotFound { key: key.text() }),
            )
        } else {
            match assets[key] {
                AssetDescriptor::Model(descriptor) => descriptor.outcome(assets, store),
                other => ModelOutcome::Failed(
                    LoadErrorView::Asset(
                        AssetErrorView::TryAsRefFailed {
                            descriptor: other.key(),
                            target_type: "ModelDescriptor"@,
                        },
                    ),
                ),
            }
        }
    }

    /// Resolves the name to its model. The store changes only where a model
    /// is put together.
    pub fn resolve<'a, T, B, G, P>(
        &self,
        assets: &'a AssetsDescriptors,
        store: &mut Store<T, B, G, P>,
    ) -> (loaded: Loaded<'a, T, Rc<Model<B, G, P>>>)
        requires
            old(store).wf(),
        ensures
            final(store).wf(),
            final(store).textures() == old(store).textures(),
            final(store).materials() == old(store).materials(),
            final(store).meshes() == old(store).meshes(),
            final(store).pipelines() == old(store).pipelines(),
            match self.outcome(assets@, old(store)) {
                ModelOutcome::Cached(model) => {
                    &&& loaded@ == Outcome::<T, Rc<Model<B, G, P>>>::Ready(model)
                    &&& final(store).models() == old(store).models()
                },
                ModelOutcome::Built(view) => {
                    &&& loaded matches Loaded::Ready(model)
                    &&& model@ == view
                    &&& final(store).models() == old(store).models().insert(view.name, model)
                },
                ModelOutcome::Pending(request) => {
                    &&& loaded@ == Outcome::<T, Rc<Model<B, G, P>>>::Pending(request)
                    &&& final(store).models() == old(store).models()
                },
                ModelOutcome::Failed(e) => {
                    &&& loaded@ == Outcome::<T, Rc<Model<B, G, P>>>::Failed(e)
                    &&& final(store).models() == old(store).models()
                },
            },
    {
        let found = match assets.lookup(&crate::assets::AssetName::Model(self.clone())) {
            Some(found) => found,
            None => {
                return Loaded::Failed(
                    LoadError::Asset(AssetError::AssetNotFound { key: self.to_string() }),
                );
            },
        };
        let descriptor: &ModelDescriptor = match found.try_as_ref() {
            Ok(descriptor) => descriptor,
            Err(e) => {
                return Loaded::Failed(LoadError::Asset(e));
            },
        };
        descriptor.load(assets, store)
    }
}

} // verus!
