//! Typed names: one wrapper per kind of asset, so that a texture called "x"
//! and a material called "x" can never be mistaken for one another.

use vstd::prelude::*;
use vstd::std_specs::convert::FromSpecImpl;
use vstd::string::StringExecFns;

verus! {

/// A value that carries a name of kind `H`.
pub trait NamedHandle<H> {
    /// The name as a mathematical value.
    spec fn spec_name(&self) -> H;

    /// The name, wrapped in its kind.
    fn name(&self) -> (name: H)
        ensures
            name == self.spec_name(),
    ;
}

/// `kind(name)`, the printed form of a typed name.
pub open spec fn tagged(kind: Seq<char>, name: Seq<char>) -> Seq<char> {
    kind + "("@ + name + ")"@
}

/// Builds the printed form `kind(name)`.
pub fn tag(kind: &str, name: &str) -> (text: String)
    ensures
        text@ == tagged(kind@, name@),
{
    String::from_str(kind).concat("(").concat(name).concat(")")
}

/// Name of an object placed in the scene.
#[derive(Debug, PartialEq, Eq, PartialOrd, Ord)]
pub struct ObjectName(pub String);

/// Name of one geometry inside a mesh.
#[derive(Debug, PartialEq, Eq, PartialOrd, Ord)]
pub struct GeometryName(pub String);

/// Name of a model.
#[derive(Debug, PartialEq, Eq, PartialOrd, Ord, Hash)]
pub struct ModelName(pub String);

/// Name of a texture.
#[derive(Debug, PartialEq, Eq, PartialOrd, Ord, Hash)]
pub struct TextureName(pub String);

/// Name of a material.
#[derive(Debug, PartialEq, Eq, PartialOrd, Ord, Hash)]
pub struct MaterialName(pub String);

/// Name of a mesh.
#[derive(Debug, PartialEq, Eq, PartialOrd, Ord, Hash)]
pub struct MeshName(pub String);

// Object

impl View for ObjectName {
    type V = Seq<char>;

    open spec fn view(&self) -> Seq<char> {
        self.0@
    }
}

impl Clone for ObjectName {
    fn clone(&self) -> (copy: Self)
        ensures
            copy == *self,
    {
        ObjectName(self.0.clone())
    }
}

// Geometry

impl View for GeometryName {
    type V = Seq<char>;

    open spec fn view(&self) -> Seq<char> {
        self.0@
    }
}

impl Clone for GeometryName {
    fn clone(&self) -> (copy: Self)
        ensures
            copy == *self,
    {
        GeometryName(self.0.clone())
    }
}

// What `from` gives is stated by its own `ensures`, over the view: no spec
// function builds a `String`, so `from_spec` has nothing to offer.
impl FromSpecImpl<&str> for GeometryName {
    open spec fn obeys_from_spec() -> bool {
        false
    }

    open spec fn from_spec(s: &str) -> Self {
        arbitrary()
    }
}

impl From<&str> for GeometryName {
    fn from(s: &str) -> (name: Self)
        ensures
            name@ == s@,
    {
        GeometryName(String::from_str(s))
    }
}

impl std::ops::Deref for GeometryName {
    type Target = String;

    fn deref(&self) -> (inner: &String)
        ensures
            *inner == self.0,
    {
        &self.0
    }
}

impl GeometryName {
    /// The printed form, `Geometry(name)`.
    pub fn to_string(&self) -> (text: String)
        ensures
            text@ == tagged("Geometry"@, self@),
    {
        tag("Geometry", self.0.as_str())
    }

    /// Whether both names spell the same.
    pub fn same(&self, other: &GeometryName) -> (same: bool)
        ensures
            same == (self@ == other@),
    {
        self.0 == other.0
    }
}

// Model

impl View for ModelName {
    type V = Seq<char>;

    open spec fn view(&self) -> Seq<char> {
        self.0@
    }
}

impl Clone for ModelName {
    fn clone(&self) -> (copy: Self)
        ensures
            copy == *self,
    {
        ModelName(self.0.clone())
    }
}

impl FromSpecImpl<&str> for ModelName {
    open spec fn obeys_from_spec() -> bool {
        false
    }

    open spec fn from_spec(s: &str) -> Self {
        arbitrary()
    }
}

impl From<&str> for ModelName {
    fn from(s: &str) -> (name: Self)
        ensures
            name@ == s@,
    {
        ModelName(String::from_str(s))
    }
}

impl std::ops::Deref for ModelName {
    type Target = String;

    fn deref(&self) -> (inner: &String)
        ensures
            *inner == self.0,
    {
        &self.0
    }
}

impl ModelName {
    /// The printed form, `Model(name)`.
    pub fn to_string(&self) -> (text: String)
        ensures
            text@ == tagged("Model"@, self@),
    {
        tag("Model", self.0.as_str())
    }

    /// Whether both names spell the same.
    pub fn same(&self, other: &ModelName) -> (same: bool)
        ensures
            same == (self@ == other@),
    {
        self.0 == other.0
    }
}

// Texture

impl View for TextureName {
    type V = Seq<char>;

    open spec fn view(&self) -> Seq<char> {
        self.0@
    }
}

impl Clone for TextureName {
    fn clone(&self) -> (copy: Self)
        ensures
            copy == *self,
    {
        TextureName(self.0.clone())
    }
}

impl FromSpecImpl<&str> for TextureName {
    open spec fn obeys_from_spec() -> bool {
        false
    }

    open spec fn from_spec(s: &str) -> Self {
        arbitrary()
    }
}

impl From<&str> for TextureName {
    fn from(s: &str) -> (name: Self)
        ensures
            name@ == s@,
    {
        TextureName(String::from_str(s))
    }
}

impl std::ops::Deref for TextureName {
    type Target = String;

    fn deref(&self) -> (inner: &String)
        ensures
            *inner == self.0,
    {
        &self.0
    }
}

impl TextureName {
    /// The printed form, `Texture(name)`.
    pub fn to_string(&self) -> (text: String)
        ensures
            text@ == tagged("Texture"@, self@),
    {
        tag("Texture", self.0.as_str())
    }

    /// Whether both names spell the same.
    pub fn same(&self, other: &TextureName) -> (same: bool)
        ensures
            same == (self@ == other@),
    {
        self.0 == other.0
    }
}

// Material

impl View for MaterialName {
    type V = Seq<char>;

    open spec fn view(&self) -> Seq<char> {
        self.0@
    }
}

impl Clone for MaterialName {
    fn clone(&self) -> (copy: Self)
        ensures
            copy == *self,
    {
        MaterialName(self.0.clone())
    }
}

impl FromSpecImpl<&str> for MaterialName {
    open spec fn obeys_from_spec() -> bool {
        false
    }

    open spec fn from_spec(s: &str) -> Self {
        arbitrary()
    }
}

impl From<&str> for MaterialName {
    fn from(s: &str) -> (name: Self)
        ensures
            name@ == s@,
    {
        MaterialName(String::from_str(s))
    }
}

impl std::ops::Deref for MaterialName {
    type Target = String;

    fn deref(&self) -> (inner: &String)
        ensures
            *inner == self.0,
    {
        &self.0
    }
}

impl MaterialName {
    /// The printed form, `Material(name)`.
    pub fn to_string(&self) -> (text: String)
        ensures
            text@ == tagged("Material"@, self@),
    {
        tag("Material", self.0.as_str())
    }

    /// Whether both names spell the same.
    pub fn same(&self, other: &MaterialName) -> (same: bool)
        ensures
            same == (self@ == other@),
    {
        self.0 == other.0
    }
}

// Mesh

impl View for MeshName {
    type V = Seq<char>;

    open spec fn view(&self) -> Seq<char> {
        self.0@
    }
}

impl Clone for MeshName {
    fn clone(&self) -> (copy: Self)
        ensures
            copy == *self,
    {
        MeshName(self.0.clone())
    }
}

impl FromSpecImpl<&str> for MeshName {
    open spec fn obeys_from_spec() -> bool {
        false
    }

    open spec fn from_spec(s: &str) -> Self {
        arbitrary()
    }
}

impl From<&str> for MeshName {
    fn from(s: &str) -> (name: Self)
        ensures
            name@ == s@,
    {
        MeshName(String::from_str(s))
    }
}

impl std::ops::Deref for MeshName {
    type Target = String;

    fn deref(&self) -> (inner: &String)
        ensures
            *inner == self.0,
    {
        &self.0
    }
}

impl AsRef<str> for MeshName {
    fn as_ref(&self) -> (text: &str)
        ensures
            text@ == self@,
    {
        self.0.as_str()
    }
}

impl MeshName {
    /// The printed form, `Mesh(name)`.
    pub fn to_string(&self) -> (text: String)
        ensures
            text@ == tagged("Mesh"@, self@),
    {
        tag("Mesh", self.0.as_str())
    }

    /// Whether both names spell the same.
    pub fn same(&self, other: &MeshName) -> (same: bool)
        ensures
            same == (self@ == other@),
    {
        self.0 == other.0
    }
}

} // verus!
