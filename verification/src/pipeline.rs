//! Pipelines are made by the application and registered by name. Each says
//! which kinds of material it accepts.

use vstd::prelude::*;
use vstd::string::StringExecFns;
use crate::material::MaterialKind;

verus! {

/// A pipeline of the device, `P`, under its name.
#[derive(Debug)]
pub struct NamedPipeline<P> {
    pub name: String,
    pub pipeline: P,
    pub supported_material_kind: Vec<MaterialKind>,
}

impl<P> NamedPipeline<P> {
    pub fn new(name: &str, pipeline: P, materials: Vec<MaterialKind>) -> (named: Self)
        ensures
            named.name@ == name@,
            named.pipeline == pipeline,
            named.supported_material_kind == materials,
    {
        Self { name: String::from_str(name), pipeline, supported_material_kind: materials }
    }

    pub fn name(&self) -> (name: String)
        ensures
            name == self.name,
    {
        self.name.clone()
    }

    /// Whether the pipeline accepts materials of this kind.
    pub open spec fn spec_can_use(&self, material_kind: MaterialKind) -> bool {
        self.supported_material_kind@.contains(material_kind)
    }

    /// Whether the pipeline accepts materials of this kind.
    #[verifier::when_used_as_spec(spec_can_use)]
    pub fn can_use(&self, material_kind: MaterialKind) -> (accepted: bool)
        ensures
            accepted == self.spec_can_use(material_kind),
    {
        let mut i: usize = 0;
        while i < self.supported_material_kind.len()
            invariant
                i <= self.supported_material_kind@.len(),
                forall|j: int| 0 <= j < i ==> self.supported_material_kind@[j] != material_kind,
            decreases self.supported_material_kind@.len() - i,
        {
            if self.supported_material_kind[i] == material_kind {
                return true;
            }
            i += 1;
        }
        false
    }

    /// Whether the pipeline draws with materials at all.
    pub open spec fn spec_needs_material(&self) -> bool {
        self.supported_material_kind@.len() > 0
    }

    /// Whether the pipeline draws with materials at all.
    #[verifier::when_used_as_spec(spec_needs_material)]
    pub fn needs_material(&self) -> (needed: bool)
        ensures
            needed == self.spec_needs_material(),
    {
        !self.supported_material_kind.is_empty()
    }
}

} // verus!
