//! Texture descriptors: which image file a texture comes from, and what the
//! image holds.

use vstd::prelude::*;
use vstd::std_specs::convert::{FromSpecImpl, TryFromSpecImpl};
use vstd::string::StringExecFns;
use crate::error::{TextureError, TextureErrorView};
use crate::names::{NamedHandle, TextureName};

verus! {

/// What the image of a texture holds.
#[derive(Debug, Clone, Copy, Hash, PartialEq, Eq, Structural, PartialOrd, Ord)]
pub enum TextureKind {
    /// Colours, stored gamma-corrected.
    Diffuse,
    /// Surface normals, stored as plain numbers.
    Normal,
}

/// How the pixels of a texture are to be read by the device.
#[derive(Debug, Clone, Copy, Hash, PartialEq, Eq, Structural)]
pub enum PixelFormat {
    /// Four linear 8-bit channels.
    Rgba8Unorm,
    /// Four 8-bit channels, the colours gamma-corrected.
    Rgba8UnormSrgb,
}

impl TextureKind {
    /// The name that the kind is written with.
    pub open spec fn label(self) -> Seq<char> {
        match self {
            TextureKind::Diffuse => "TextureKind::Diffuse"@,
            TextureKind::Normal => "TextureKind::Normal"@,
        }
    }

    /// The kind that `text` names, if it names one.
    pub open spec fn parse(text: Seq<char>) -> Option<TextureKind> {
        if text == "TextureKind::Diffuse"@ {
            Some(TextureKind::Diffuse)
        } else if text == "TextureKind::Normal"@ {
            Some(TextureKind::Normal)
        } else {
            None
        }
    }

    /// The pixel format for images of this kind: normal maps are linear,
    /// colours are gamma-corrected.
    pub open spec fn spec_pixel_format(self) -> PixelFormat {
        match self {
            TextureKind::Diffuse => PixelFormat::Rgba8UnormSrgb,
            TextureKind::Normal => PixelFormat::Rgba8Unorm,
        }
    }

    /// The pixel format for images of this kind.
    pub fn pixel_format(self) -> (format: PixelFormat)
        ensures
            format == self.spec_pixel_format(),
    {
        match self {
            TextureKind::Diffuse => PixelFormat::Rgba8UnormSrgb,
            TextureKind::Normal => PixelFormat::Rgba8Unorm,
        }
    }

    /// Every kind is read back from the name it is written with.
    pub proof fn lemma_label_parses(self)
        ensures
            TextureKind::parse(self.label()) == Some(self),
    {
        reveal_strlit("TextureKind::Diffuse");
        reveal_strlit("TextureKind::Normal");
        assert("TextureKind::Diffuse"@.len() != "TextureKind::Normal"@.len());
    }
}

impl FromSpecImpl<TextureKind> for String {
    open spec fn obeys_from_spec() -> bool {
        false
    }

    open spec fn from_spec(kind: TextureKind) -> Self {
        arbitrary()
    }
}

impl From<TextureKind> for String {
    fn from(kind: TextureKind) -> (text: String)
        ensures
            text@ == kind.label(),
    {
        match kind {
            TextureKind::Diffuse => String::from_str("TextureKind::Diffuse"),
            TextureKind::Normal => String::from_str("TextureKind::Normal"),
        }
    }
}

impl TryFromSpecImpl<&str> for TextureKind {
    open spec fn obeys_try_from_spec() -> bool {
        false
    }

    open spec fn try_from_spec(value: &str) -> Result<Self, Self::Error> {
        arbitrary()
    }
}

impl TryFrom<&str> for TextureKind {
    type Error = TextureError;

    fn try_from(value: &str) -> (parsed: Result<Self, Self::Error>)
        ensures
            match TextureKind::parse(value@) {
                Some(kind) => parsed == Ok::<TextureKind, TextureError>(kind),
                None => parsed matches Err(e) && e@ == (TextureErrorView::DeserialisationError {
                    type_to_deser: "TextureKind"@,
                    input: value@,
                }),
            },
    {
        let text = String::from_str(value);
        if text == String::from_str("TextureKind::Diffuse") {
            Ok(TextureKind::Diffuse)
        } else if text == String::from_str("TextureKind::Normal") {
            Ok(TextureKind::Normal)
        } else {
            Err(
                TextureError::DeserialisationError {
                    type_to_deser: String::from_str("TextureKind"),
                    input: text,
                },
            )
        }
    }
}

/// The bytes of one row of pixels of four 8-bit channels, where their number
/// fits 32 bits.
pub fn row_bytes(width: u32) -> (bytes: Option<u32>)
    ensures
        bytes == (if 4 * width <= u32::MAX {
            Some((4 * width) as u32)
        } else {
            None
        }),
{
    if width <= u32::MAX / 4 {
        Some(4 * width)
    } else {
        None
    }
}

/// What `{:?}` prints for a string: the string between double quotes, with
/// the characters that need it escaped.
pub uninterp spec fn debug_text(s: Seq<char>) -> Seq<char>;

/// `format!("{:?}", s)` for a string slice, that is `<str as Debug>::fmt`.
/// The result is named [`debug_text`]; nothing more is claimed of it.
#[verifier::external_body]
fn quoted(s: &str) -> (text: String)
    ensures
        text@ == debug_text(s@),
{
    format!("{:?}", s)
}

/// Describes one texture: its name, the image file and what the image holds.
#[derive(Debug)]
pub struct TextureDescriptor {
    pub name: String,
    /// Path of the image file, relative to the directory of textures.
    pub path: String,
    pub kind: TextureKind,
}

impl Clone for TextureDescriptor {
    fn clone(&self) -> (copy: Self)
        ensures
            copy == *self,
    {
        TextureDescriptor { name: self.name.clone(), path: self.path.clone(), kind: self.kind }
    }
}

impl TextureDescriptor {
    pub fn _new_(name: String, path: String, kind: TextureKind) -> (descriptor: Self)
        ensures
            descriptor == (TextureDescriptor { name, path, kind }),
    {
        Self { name, path, kind }
    }

    /// The printed form of the descriptor.
    pub open spec fn description(&self) -> Seq<char> {
        "TextureDescriptor:\""@ + self.name@ + "\" of type "@ + (if self.kind
            == TextureKind::Diffuse {
            "diffuse"@
        } else {
            "normal"@
        }) + " from "@ + debug_text(self.path@)
    }

    /// The printed form of the descriptor.
    pub fn to_string(&self) -> (text: String)
        ensures
            text@ == self.description(),
    {
        let k = if self.kind == TextureKind::Diffuse {
            "diffuse"
        } else {
            "normal"
        };
        String::from_str("TextureDescriptor:\"").concat(self.name.as_str()).concat(
            "\" of type ",
        ).concat(k).concat(" from ").concat(quoted(self.path.as_str()).as_str())
    }
}

impl NamedHandle<TextureName> for TextureDescriptor {
    open spec fn spec_name(&self) -> TextureName {
        TextureName(self.name)
    }

    fn name(&self) -> (name: TextureName) {
        TextureName(self.name.clone())
    }
}

} // verus!
