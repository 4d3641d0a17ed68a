//! Material descriptors, and the materials that are made from them.

use vstd::prelude::*;
use vstd::std_specs::convert::{FromSpecImpl, TryFromSpecImpl};
use vstd::string::StringExecFns;
use crate::error::{MaterialError, MaterialErrorView};
use crate::names::{MaterialName, NamedHandle, TextureName};

verus! {

/// What a material is made of. A pipeline accepts some kinds and not others.
#[derive(Clone, Copy, Hash, PartialEq, Eq, Structural, Debug)]
pub enum MaterialKind {
    Texture,
    Color,
}

impl MaterialKind {
    /// The name that the kind is written with.
    pub open spec fn label(self) -> Seq<char> {
        match self {
            MaterialKind::Texture => "MaterialKind::Texture"@,
            MaterialKind::Color => "MaterialKind::Color"@,
        }
    }

    /// The kind that `text` names, if it names one.
    pub open spec fn parse(text: Seq<char>) -> Option<MaterialKind> {
        if text == "MaterialKind::Texture"@ {
            Some(MaterialKind::Texture)
        } else if text == "MaterialKind::Color"@ {
            Some(MaterialKind::Color)
        } else {
            None
        }
    }

    /// Every kind is read back from the name it is written with.
    pub proof fn lemma_label_parses(self)
        ensures
            MaterialKind::parse(self.label()) == Some(self),
    {
        reveal_strlit("MaterialKind::Texture");
        reveal_strlit("MaterialKind::Color");
        assert("MaterialKind::Texture"@.len() != "MaterialKind::Color"@.len());
    }
}

impl FromSpecImpl<MaterialKind> for String {
    open spec fn obeys_from_spec() -> bool {
        false
    }

    open spec fn from_spec(kind: MaterialKind) -> Self {
        arbitrary()
    }
}

impl From<MaterialKind> for String {
    fn from(kind: MaterialKind) -> (text: String)
        ensures
            text@ == kind.label(),
    {
        match kind {
            MaterialKind::Texture => String::from_str("MaterialKind::Texture"),
            MaterialKind::Color => String::from_str("MaterialKind::Color"),
        }
    }
}

impl TryFromSpecImpl<&str> for MaterialKind {
    open spec fn obeys_try_from_spec() -> bool {
        false
    }

    open spec fn try_from_spec(value: &str) -> Result<Self, Self::Error> {
        arbitrary()
    }
}

impl TryFrom<&str> for MaterialKind {
    type Error = MaterialError;

    fn try_from(value: &str) -> (parsed: Result<Self, Self::Error>)
        ensures
            match MaterialKind::parse(value@) {
                Some(kind) => parsed == Ok::<MaterialKind, MaterialError>(kind),
                None => parsed matches Err(e) && e@ == (MaterialErrorView::DeserialisationError {
                    type_to_deser: "MaterialKind"@,
                    input: value@,
                }),
            },
    {
        let text = String::from_str(value);
        if text == String::from_str("MaterialKind::Texture") {
            Ok(MaterialKind::Texture)
        } else if text == String::from_str("MaterialKind::Color") {
            Ok(MaterialKind::Color)
        } else {
            Err(
                MaterialError::DeserialisationError {
                    type_to_deser: String::from_str("MaterialKind"),
                    input: text,
                },
            )
        }
    }
}

/// Describes a material of plain colours. Each channel is held as the bits
/// of a 32-bit IEEE 754 number, which this library carries and never reads.
#[derive(Debug)]
pub struct ColorMaterialDescriptor {
    pub name: String,
    pub ambient: [u32; 3],
    pub diffuse: [u32; 3],
    pub specular: [u32; 3],
}

impl ColorMaterialDescriptor {
    pub fn _new_(name: String, ambient: [u32; 3], diffuse: [u32; 3], specular: [u32; 3]) -> (descriptor:
        Self)
        ensures
            descriptor == (ColorMaterialDescriptor { name, ambient, diffuse, specular }),
    {
        Self { name, ambient, diffuse, specular }
    }
}

/// Describes a material made of two textures, each referred to by name.
#[derive(Debug)]
pub struct TextureMaterialDescriptor {
    pub name: String,
    pub diffuse_texture: TextureName,
    pub normal_texture: TextureName,
}

impl TextureMaterialDescriptor {
    pub fn _new_(name: String, diffuse_texture: TextureName, normal_texture: TextureName) -> (descriptor:
        Self)
        ensures
            descriptor == (TextureMaterialDescriptor { name, diffuse_texture, normal_texture }),
    {
        Self { name, diffuse_texture, normal_texture }
    }
}

/// Describes a material of either kind.
#[derive(Debug)]
pub enum MaterialDescriptor {
    Texture(TextureMaterialDescriptor),
    Color(ColorMaterialDescriptor),
}

impl MaterialDescriptor {
    /// The kind of material that the descriptor asks for.
    pub open spec fn spec_kind(&self) -> MaterialKind {
        match self {
            MaterialDescriptor::Texture(_) => MaterialKind::Texture,
            MaterialDescriptor::Color(_) => MaterialKind::Color,
        }
    }

    /// The kind of material that the descriptor asks for.
    pub fn kind(&self) -> (kind: MaterialKind)
        ensures
            kind == self.spec_kind(),
    {
        match self {
            MaterialDescriptor::Texture(_) => MaterialKind::Texture,
            MaterialDescriptor::Color(_) => MaterialKind::Color,
        }
    }
}

impl NamedHandle<MaterialName> for TextureMaterialDescriptor {
    open spec fn spec_name(&self) -> MaterialName {
        MaterialName(self.name)
    }

    fn name(&self) -> (name: MaterialName) {
        MaterialName(self.name.clone())
    }
}

impl NamedHandle<MaterialName> for ColorMaterialDescriptor {
    open spec fn spec_name(&self) -> MaterialName {
        MaterialName(self.name)
    }

    fn name(&self) -> (name: MaterialName) {
        MaterialName(self.name.clone())
    }
}

impl NamedHandle<MaterialName> for MaterialDescriptor {
    open spec fn spec_name(&self) -> MaterialName {
        match self {
            MaterialDescriptor::Color(color) => color.spec_name(),
            MaterialDescriptor::Texture(texture) => texture.spec_name(),
        }
    }

    fn name(&self) -> (name: MaterialName) {
        match self {
            MaterialDescriptor::Color(color) => color.name(),
            MaterialDescriptor::Texture(texture) => texture.name(),
        }
    }
}

/// A material ready for use: what binds it on the device, under its name and
/// tagged with its kind.
#[derive(Debug)]
pub struct Material<B> {
    pub name: String,
    pub kind: MaterialKind,
    pub bind_group: B,
}

impl<B> Material<B> {
    pub fn new(name: &str, kind: MaterialKind, bind_group: B) -> (material: Self)
        ensures
            material.name@ == name@,
            material.kind == kind,
            material.bind_group == bind_group,
    {
        Material { name: String::from_str(name), kind, bind_group }
    }

    pub fn name(&self) -> (name: String)
        ensures
            name == self.name,
    {
        self.name.clone()
    }

    pub fn kind(&self) -> (kind: MaterialKind)
        ensures
            kind == self.kind,
    {
        self.kind
    }
}

} // verus!
