//! The catalog of descriptors: every descriptor that the configuration
//! gave, found again by its name and kind.

use vstd::prelude::*;
use vstd::hash_map::StringHashMap;
use vstd::std_specs::convert::{FromSpec, FromSpecImpl, IntoSpec};
use vstd::string::StringExecFns;
use crate::material::MaterialDescriptor;
use crate::mesh::MeshDescriptor;
use crate::model::ModelDescriptor;
use crate::names::{tagged, MaterialName, MeshName, ModelName, NamedHandle, TextureName};
use crate::texture::TextureDescriptor;

verus! {

/// A descriptor of any kind.
#[derive(Debug)]
pub enum AssetDescriptor {
    Texture(TextureDescriptor),
    Material(MaterialDescriptor),
    Mesh(MeshDescriptor),
    Model(ModelDescriptor),
}

/// The name of an asset together with its kind. Two names of different
/// kinds are different names, whatever they spell.
#[derive(Hash, Eq, PartialEq, Debug)]
pub enum AssetName {
    Texture(TextureName),
    Material(MaterialName),
    Mesh(MeshName),
    Model(ModelName),
}

/// [`AssetName`] as a mathematical value.
pub enum AssetKey {
    Texture(Seq<char>),
    Material(Seq<char>),
    Mesh(Seq<char>),
    Model(Seq<char>),
}

impl AssetKey {
    /// The printed form: the kind, and the name in brackets.
    pub open spec fn text(self) -> Seq<char> {
        match self {
            AssetKey::Texture(name) => tagged("Texture"@, name),
            AssetKey::Material(name) => tagged("Material"@, name),
            AssetKey::Mesh(name) => tagged("Mesh"@, name),
            AssetKey::Model(name) => tagged("Model"@, name),
        }
    }
}

impl View for AssetName {
    type V = AssetKey;

    open spec fn view(&self) -> AssetKey {
        match self {
            AssetName::Texture(name) => AssetKey::Texture(name@),
            AssetName::Material(name) => AssetKey::Material(name@),
            AssetName::Mesh(name) => AssetKey::Mesh(name@),
            AssetName::Model(name) => AssetKey::Model(name@),
        }
    }
}

impl AssetName {
    /// The printed form of the name.
    pub fn to_string(&self) -> (text: String)
        ensures
            text@ == self@.text(),
    {
        match self {
            AssetName::Texture(name) => name.to_string(),
            AssetName::Material(name) => name.to_string(),
            AssetName::Mesh(name) => name.to_string(),
            AssetName::Model(name) => name.to_string(),
        }
    }
}

impl FromSpecImpl<TextureName> for AssetName {
    open spec fn obeys_from_spec() -> bool {
        true
    }

    open spec fn from_spec(name: TextureName) -> Self {
        AssetName::Texture(name)
    }
}

impl From<TextureName> for AssetName {
    fn from(name: TextureName) -> (asset: Self) {
        AssetName::Texture(name)
    }
}

impl FromSpecImpl<MaterialName> for AssetName {
    open spec fn obeys_from_spec() -> bool {
        true
    }

    open spec fn from_spec(name: MaterialName) -> Self {
        AssetName::Material(name)
    }
}

impl From<MaterialName> for AssetName {
    fn from(name: MaterialName) -> (asset: Self) {
        AssetName::Material(name)
    }
}

impl FromSpecImpl<MeshName> for AssetName {
    open spec fn obeys_from_spec() -> bool {
        true
    }

    open spec fn from_spec(name: MeshName) -> Self {
        AssetName::Mesh(name)
    }
}

impl From<MeshName> for AssetName {
    fn from(name: MeshName) -> (asset: Self) {
        AssetName::Mesh(name)
    }
}

impl FromSpecImpl<ModelName> for AssetName {
    open spec fn obeys_from_spec() -> bool {
        true
    }

    open spec fn from_spec(name: ModelName) -> Self {
        AssetName::Model(name)
    }
}

impl From<ModelName> for AssetName {
    fn from(name: ModelName) -> (asset: Self) {
        AssetName::Model(name)
    }
}

impl FromSpecImpl<TextureDescriptor> for AssetDescriptor {
    open spec fn obeys_from_spec() -> bool {
        true
    }

    open spec fn from_spec(descriptor: TextureDescriptor) -> Self {
        AssetDescriptor::Texture(descriptor)
    }
}

impl From<TextureDescriptor> for AssetDescriptor {
    fn from(descriptor: TextureDescriptor) -> (asset: Self) {
        AssetDescriptor::Texture(descriptor)
    }
}

impl FromSpecImpl<MaterialDescriptor> for AssetDescriptor {
    open spec fn obeys_from_spec() -> bool {
        true
    }

    open spec fn from_spec(descriptor: MaterialDescriptor) -> Self {
        AssetDescriptor::Material(descriptor)
    }
}

impl From<MaterialDescriptor> for AssetDescriptor {
    fn from(descriptor: MaterialDescriptor) -> (asset: Self) {
        AssetDescriptor::Material(descriptor)
    }
}

impl FromSpecImpl<MeshDescriptor> for AssetDescriptor {
    open spec fn obeys_from_spec() -> bool {
        true
    }

    open spec fn from_spec(descriptor: MeshDescriptor) -> Self {
        AssetDescriptor::Mesh(descriptor)
    }
}

impl From<MeshDescriptor> for AssetDescriptor {
    fn from(descriptor: MeshDescriptor) -> (asset: Self) {
        AssetDescriptor::Mesh(descriptor)
    }
}

impl FromSpecImpl<ModelDescriptor> for AssetDescriptor {
    open spec fn obeys_from_spec() -> bool {
        true
    }

    open spec fn from_spec(descriptor: ModelDescriptor) -> Self {
        AssetDescriptor::Model(descriptor)
    }
}

impl From<ModelDescriptor> for AssetDescriptor {
    fn from(descriptor: ModelDescriptor) -> (asset: Self) {
        AssetDescriptor::Model(descriptor)
    }
}

impl NamedHandle<AssetName> for AssetDescriptor {
    open spec fn spec_name(&self) -> AssetName {
        match self {
            AssetDescriptor::Texture(t) => AssetName::Texture(t.spec_name()),
            AssetDescriptor::Material(m) => AssetName::Material(m.spec_name()),
            AssetDescriptor::Mesh(m) => AssetName::Mesh(m.spec_name()),
            AssetDescriptor::Model(m) => AssetName::Model(m.spec_name()),
        }
    }

    fn name(&self) -> (name: AssetName) {
        match self {
            AssetDescriptor::Texture(t) => AssetName::Texture(t.name()),
            AssetDescriptor::Material(m) => AssetName::Material(m.name()),
            AssetDescriptor::Mesh(m) => AssetName::Mesh(m.name()),
            AssetDescriptor::Model(m) => AssetName::Model(m.name()),
        }
    }
}

impl AssetDescriptor {
    /// The name and kind under which the catalog keeps the descriptor.
    pub open spec fn key(&self) -> AssetKey {
        self.spec_name()@
    }

    /// The printed form of the descriptor.
    pub fn to_string(&self) -> (text: String)
        ensures
            text@ == "AssetDesciptor("@ + self.key().text() + ")"@,
    {
        String::from_str("AssetDesciptor(").concat(self.name().to_string().as_str()).concat(")")
    }
}

/// Failures of the catalog.
#[derive(Debug)]
pub enum AssetError {
    /// The descriptor is not of the kind that was asked for.
    TryAsRefFailed { descriptor: AssetName, target_type: String },
    /// The catalog holds nothing under this name and kind.
    AssetNotFound { key: String },
}

/// [`AssetError`] as a mathematical value.
pub enum AssetErrorView {
    TryAsRefFailed { descriptor: AssetKey, target_type: Seq<char> },
    AssetNotFound { key: Seq<char> },
}

impl View for AssetError {
    type V = AssetErrorView;

    open spec fn view(&self) -> AssetErrorView {
        match self {
            AssetError::TryAsRefFailed { descriptor, target_type } => {
                AssetErrorView::TryAsRefFailed { descriptor: descriptor@, target_type: target_type@ }
            },
            AssetError::AssetNotFound { key } => AssetErrorView::AssetNotFound { key: key@ },
        }
    }
}

impl AssetErrorView {
    /// The text that the failure prints.
    pub open spec fn message(self) -> Seq<char> {
        match self {
            AssetErrorView::TryAsRefFailed { descriptor, target_type } => {
                "Could not get reference of "@ + target_type + " from "@ + descriptor.text()
            },
            AssetErrorView::AssetNotFound { key } => key + " not found"@,
        }
    }
}

impl AssetError {
    /// The text that the failure prints.
    pub fn to_string(&self) -> (text: String)
        ensures
            text@ == self@.message(),
    {
        match self {
            AssetError::TryAsRefFailed { descriptor, target_type } => {
                String::from_str("Could not get reference of ").concat(target_type.as_str()).concat(
                    " from ",
                ).concat(descriptor.to_string().as_str())
            },
            AssetError::AssetNotFound { key } => key.clone().concat(" not found"),
        }
    }
}

/// A view of a value as one of its cases, where it is that case.
pub trait TryAsRef<T> {
    type Error;

    /// The case, where the value is that case.
    spec fn spec_as_ref(&self) -> Option<T>;

    /// Whether `error` is the failure that says that the value is not that
    /// case.
    spec fn refusal(&self, error: Self::Error) -> bool;

    fn try_as_ref(&self) -> (outcome: Result<&T, Self::Error>)
        ensures
            match outcome {
                Ok(t) => self.spec_as_ref() == Some(*t),
                Err(e) => self.spec_as_ref() is None && self.refusal(e),
            },
    ;
}

impl TryAsRef<ModelDescriptor> for AssetDescriptor {
    type Error = AssetError;

    open spec fn spec_as_ref(&self) -> Option<ModelDescriptor> {
        match self {
            AssetDescriptor::Model(model) => Some(*model),
            _ => None,
        }
    }

    open spec fn refusal(&self, error: AssetError) -> bool {
        error@ == (AssetErrorView::TryAsRefFailed {
            descriptor: self.key(),
            target_type: "ModelDescriptor"@,
        })
    }

    fn try_as_ref(&self) -> (outcome: Result<&ModelDescriptor, AssetError>) {
        if let AssetDescriptor::Model(model) = self {
            Ok(model)
        } else {
            Err(
                AssetError::TryAsRefFailed {
                    target_type: String::from_str("ModelDescriptor"),
                    descriptor: self.name(),
                },
            )
        }
    }
}

impl TryAsRef<MeshDescriptor> for AssetDescriptor {
    type Error = AssetError;

    open spec fn spec_as_ref(&self) -> Option<MeshDescriptor> {
        match self {
            AssetDescriptor::Mesh(mesh) => Some(*mesh),
            _ => None,
        }
    }

    open spec fn refusal(&self, error: AssetError) -> bool {
        error@ == (AssetErrorView::TryAsRefFailed {
            descriptor: self.key(),
            target_type: "MeshDescriptor"@,
        })
    }

    fn try_as_ref(&self) -> (outcome: Result<&MeshDescriptor, AssetError>) {
        if let AssetDescriptor::Mesh(mesh) = self {
            Ok(mesh)
        } else {
            Err(
                AssetError::TryAsRefFailed {
                    target_type: String::from_str("MeshDescriptor"),
                    descriptor: self.name(),
                },
            )
        }
    }
}

impl TryAsRef<TextureDescriptor> for AssetDescriptor {
    type Error = AssetError;

    open spec fn spec_as_ref(&self) -> Option<TextureDescriptor> {
        match self {
            AssetDescriptor::Texture(t) => Some(*t),
            _ => None,
        }
    }

    open spec fn refusal(&self, error: AssetError) -> bool {
        error@ == (AssetErrorView::TryAsRefFailed {
            descriptor: self.key(),
            target_type: "TextureDescriptor"@,
        })
    }

    fn try_as_ref(&self) -> (outcome: Result<&TextureDescriptor, AssetError>) {
        if let AssetDescriptor::Texture(t) = self {
            Ok(t)
        } else {
            Err(
                AssetError::TryAsRefFailed {
                    target_type: String::from_str("TextureDescriptor"),
                    descriptor: self.name(),
                },
            )
        }
    }
}

impl TryAsRef<MaterialDescriptor> for AssetDescriptor {
    type Error = AssetError;

    open spec fn spec_as_ref(&self) -> Option<MaterialDescriptor> {
        match self {
            AssetDescriptor::Material(m) => Some(*m),
            _ => None,
        }
    }

    open spec fn refusal(&self, error: AssetError) -> bool {
        error@ == (AssetErrorView::TryAsRefFailed {
            descriptor: self.key(),
            target_type: "MaterialDescriptor"@,
        })
    }

    fn try_as_ref(&self) -> (outcome: Result<&MaterialDescriptor, AssetError>) {
        if let AssetDescriptor::Material(m) = self {
            Ok(m)
        } else {
            Err(
                AssetError::TryAsRefFailed {
                    target_type: String::from_str("MaterialDescriptor"),
                    descriptor: self.name(),
                },
            )
        }
    }
}

/// The catalog: descriptors by name and kind.
pub struct AssetsDescriptors {
    textures: StringHashMap<AssetDescriptor>,
    materials: StringHashMap<AssetDescriptor>,
    meshes: StringHashMap<AssetDescriptor>,
    models: StringHashMap<AssetDescriptor>,
}

impl View for AssetsDescriptors {
    type V = Map<AssetKey, AssetDescriptor>;

    closed spec fn view(&self) -> Map<AssetKey, AssetDescriptor> {
        Map::new(
            |key: AssetKey|
                match key {
                    AssetKey::Texture(name) => self.textures@.contains_key(name),
                    AssetKey::Material(name) => self.materials@.contains_key(name),
                    AssetKey::Mesh(name) => self.meshes@.contains_key(name),
                    AssetKey::Model(name) => self.models@.contains_key(name),
                },
            |key: AssetKey|
                match key {
                    AssetKey::Texture(name) => self.textures@[name],
                    AssetKey::Material(name) => self.materials@[name],
                    AssetKey::Mesh(name) => self.meshes@[name],
                    AssetKey::Model(name) => self.models@[name],
                },
        )
    }
}

/// Every descriptor of the catalog is kept under its own name and kind.
pub open spec fn catalog_wf(assets: Map<AssetKey, AssetDescriptor>) -> bool {
    forall|key: AssetKey| #[trigger] assets.contains_key(key) ==> assets[key].key() == key
}

/// The catalog after each of `descriptors` was put in, in their order: of
/// two descriptors of one name and kind, the later one stays.
pub open spec fn with_all(
    assets: Map<AssetKey, AssetDescriptor>,
    descriptors: Seq<AssetDescriptor>,
) -> Map<AssetKey, AssetDescriptor>
    decreases descriptors.len(),
{
    if descriptors.len() == 0 {
        assets
    } else {
        with_all(assets, descriptors.drop_last()).insert(
            descriptors.last().key(),
            descriptors.last(),
        )
    }
}

/// Descriptors of one type as descriptors of any kind.
pub open spec fn as_assets<D: Into<AssetDescriptor>>(descriptors: Seq<D>) -> Seq<AssetDescriptor> {
    descriptors.map_values(|descriptor: D| descriptor.into_spec())
}

/// The same items, the last one first.
fn reversed<V>(items: Vec<V>) -> (turned: Vec<V>)
    ensures
        turned@ == items@.reverse(),
{
    let mut rest = items;
    let mut turned: Vec<V> = Vec::new();
    while rest.len() > 0
        invariant
            rest@.len() + turned@.len() == items@.len(),
            rest@ == items@.take(rest@.len() as int),
            forall|j: int| 0 <= j < turned@.len() ==> turned@[j] == items@[items@.len() - 1 - j],
        decreases rest@.len(),
    {
        let item = rest.pop().unwrap();
        turned.push(item);
        assert(rest@ == items@.take(rest@.len() as int));
    }
    assert(turned@ =~= items@.reverse());
    turned
}

impl AssetsDescriptors {
    /// Every descriptor is kept under its own name and kind.
    pub open spec fn wf(&self) -> bool {
        catalog_wf(self@)
    }

    /// A catalog that holds nothing.
    pub fn new() -> (catalog: Self)
        ensures
            catalog.wf(),
            catalog@ == Map::<AssetKey, AssetDescriptor>::empty(),
    {
        let catalog = Self {
            textures: StringHashMap::new(),
            materials: StringHashMap::new(),
            meshes: StringHashMap::new(),
            models: StringHashMap::new(),
        };
        assert(catalog@ =~= Map::<AssetKey, AssetDescriptor>::empty());
        catalog
    }

    /// Puts a descriptor in the catalog, under its own name and kind. What
    /// stood there before is replaced.
    pub fn push<D: Into<AssetDescriptor>>(&mut self, descriptor: D)
        requires
            old(self).wf(),
        ensures
            final(self).wf(),
            D::obeys_into_spec() ==> final(self)@ == old(self)@.insert(
                descriptor.into_spec().key(),
                descriptor.into_spec(),
            ),
    {
        let descriptor: AssetDescriptor = descriptor.into();
        self.insert(descriptor);
    }

    /// Puts a descriptor in the catalog, under its own name and kind. What
    /// stood there before is replaced.
    pub fn insert(&mut self, descriptor: AssetDescriptor)
        requires
            old(self).wf(),
        ensures
            final(self).wf(),
            final(self)@ == old(self)@.insert(descriptor.key(), descriptor),
    {
        match descriptor {
            AssetDescriptor::Texture(ref t) => {
                let key = t.name.clone();
                self.textures.insert(key, descriptor);
            },
            AssetDescriptor::Material(ref mat) => {
                let key = mat.name().0;
                self.materials.insert(key, descriptor);
            },
            AssetDescriptor::Mesh(ref mesh) => {
                let key = mesh.name.clone();
                self.meshes.insert(key, descriptor);
            },
            AssetDescriptor::Model(ref model) => {
                let key = model.name.clone();
                self.models.insert(key, descriptor);
            },
        }
        assert(self@ =~= old(self)@.insert(descriptor.key(), descriptor));
    }

    /// The descriptor kept under this name and kind, if there is one.
    pub fn find<K: Into<AssetName>>(&self, key: K) -> (found: Option<&AssetDescriptor>)
        ensures
            K::obeys_into_spec() ==> found == (if self@.contains_key(key.into_spec()@) {
                Some(&self@[key.into_spec()@])
            } else {
                None
            }),
    {
        let name: AssetName = key.into();
        self.lookup(&name)
    }

    /// The descriptor kept under this name and kind, if there is one.
    pub fn lookup(&self, name: &AssetName) -> (found: Option<&AssetDescriptor>)
        ensures
            found == (if self@.contains_key(name@) {
                Some(&self@[name@])
            } else {
                None
            }),
    {
        match name {
            AssetName::Texture(n) => self.textures.get(n.0.as_str()),
            AssetName::Material(n) => self.materials.get(n.0.as_str()),
            AssetName::Mesh(n) => self.meshes.get(n.0.as_str()),
            AssetName::Model(n) => self.models.get(n.0.as_str()),
        }
    }

    /// The descriptor kept under this name and kind, or the failure that
    /// says which name was not found.
    pub fn get<K: Into<AssetName>>(&self, key: K) -> (found: Result<&AssetDescriptor, AssetError>)
        ensures
            K::obeys_into_spec() ==> (if self@.contains_key(key.into_spec()@) {
                found == Ok::<&AssetDescriptor, AssetError>(&self@[key.into_spec()@])
            } else {
                found matches Err(e) && e@ == (AssetErrorView::AssetNotFound {
                    key: key.into_spec()@.text(),
                })
            }),
    {
        let name: AssetName = key.into();
        match self.lookup(&name) {
            Some(descriptor) => Ok(descriptor),
            None => Err(AssetError::AssetNotFound { key: name.to_string() }),
        }
    }
}

impl AssetsDescriptors {
    /// Puts each descriptor of a list in the catalog, in the order of the
    /// list.
    pub fn push_all<D: Into<AssetDescriptor>>(&mut self, descriptors: Vec<D>)
        requires
            old(self).wf(),
        ensures
            final(self).wf(),
            D::obeys_into_spec() ==> final(self)@ == with_all(old(self)@, as_assets(descriptors@)),
    {
        let ghost all = as_assets(descriptors@);
        let ghost count = descriptors@.len();
        let mut rest = reversed(descriptors);
        while rest.len() > 0
            invariant
                self.wf(),
                all == as_assets(descriptors@),
                count == descriptors@.len(),
                rest@.len() <= count,
                forall|j: int| 0 <= j < rest@.len() ==> rest@[j] == descriptors@[count - 1 - j],
                D::obeys_into_spec() ==> self@ == with_all(
                    old(self)@,
                    all.take(count - rest@.len()),
                ),
            decreases rest@.len(),
        {
            let ghost done = count - rest@.len();
            let descriptor = rest.pop().unwrap();
            assert(descriptor == descriptors@[done]);
            proof {
                let next = all.take(done + 1);
                assert(next.drop_last() == all.take(done));
                assert(next.last() == descriptor.into_spec());
            }
            self.push(descriptor);
        }
        assert(all.take(count as int) == all);
    }
}

/// The catalog of the four lists that the configuration gives: textures,
/// materials, meshes and models, put in in that order.
pub fn load_assets(
    textures: Vec<TextureDescriptor>,
    materials: Vec<MaterialDescriptor>,
    meshes: Vec<MeshDescriptor>,
    models: Vec<ModelDescriptor>,
) -> (catalog: AssetsDescriptors)
    ensures
        catalog.wf(),
        catalog@ == with_all(
            with_all(
                with_all(
                    with_all(Map::<AssetKey, AssetDescriptor>::empty(), as_assets(textures@)),
                    as_assets(materials@),
                ),
                as_assets(meshes@),
            ),
            as_assets(models@),
        ),
{
    let mut ad = AssetsDescriptors::new();
    ad.push_all(textures);
    ad.push_all(materials);
    ad.push_all(meshes);
    ad.push_all(models);
    ad
}

} // verus!
