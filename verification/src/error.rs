//! What can go wrong while descriptors are turned into resources, and the
//! message that each failure prints.

use vstd::prelude::*;
use vstd::string::StringExecFns;
use crate::names::{tagged, GeometryName, MeshName, ModelName};
use crate::text::{decimal, decimal_string};

verus! {

/// Failures about materials.
#[derive(Debug)]
pub enum MaterialError {
    MaterialBuilderIncomplete { material: String, field: String },
    DeserialisationError { type_to_deser: String, input: String },
}

/// [`MaterialError`] as a mathematical value.
pub enum MaterialErrorView {
    MaterialBuilderIncomplete { material: Seq<char>, field: Seq<char> },
    DeserialisationError { type_to_deser: Seq<char>, input: Seq<char> },
}

impl View for MaterialError {
    type V = MaterialErrorView;

    open spec fn view(&self) -> MaterialErrorView {
        match self {
            MaterialError::MaterialBuilderIncomplete { material, field } => {
                MaterialErrorView::MaterialBuilderIncomplete { material: material@, field: field@ }
            },
            MaterialError::DeserialisationError { type_to_deser, input } => {
                MaterialErrorView::DeserialisationError {
                    type_to_deser: type_to_deser@,
                    input: input@,
                }
            },
        }
    }
}

impl MaterialErrorView {
    /// The text that the failure prints.
    pub open spec fn message(self) -> Seq<char> {
        match self {
            MaterialErrorView::MaterialBuilderIncomplete { material, field } => {
                "Missing "@ + field + " to build material "@ + material
            },
            MaterialErrorView::DeserialisationError { type_to_deser, input } => {
                "Cannot build "@ + type_to_deser + " from "@ + input
            },
        }
    }
}

impl MaterialError {
    /// The text that the failure prints.
    pub fn to_string(&self) -> (text: String)
        ensures
            text@ == self@.message(),
    {
        match self {
            MaterialError::MaterialBuilderIncomplete { material, field } => {
                String::from_str("Missing ").concat(field.as_str()).concat(
                    " to build material ",
                ).concat(material.as_str())
            },
            MaterialError::DeserialisationError { type_to_deser, input } => {
                String::from_str("Cannot build ").concat(type_to_deser.as_str()).concat(
                    " from ",
                ).concat(input.as_str())
            },
        }
    }
}

/// Failures about textures.
#[derive(Debug)]
pub enum TextureError {
    DeserialisationError { type_to_deser: String, input: String },
}

/// [`TextureError`] as a mathematical value.
pub enum TextureErrorView {
    DeserialisationError { type_to_deser: Seq<char>, input: Seq<char> },
}

impl View for TextureError {
    type V = TextureErrorView;

    open spec fn view(&self) -> TextureErrorView {
        match self {
            TextureError::DeserialisationError { type_to_deser, input } => {
                TextureErrorView::DeserialisationError {
                    type_to_deser: type_to_deser@,
                    input: input@,
                }
            },
        }
    }
}

impl TextureErrorView {
    /// The text that the failure prints.
    pub open spec fn message(self) -> Seq<char> {
        match self {
            TextureErrorView::DeserialisationError { type_to_deser, input } => {
                "Cannot build "@ + type_to_deser + " from "@ + input
            },
        }
    }
}

impl TextureError {
    /// The text that the failure prints.
    pub fn to_string(&self) -> (text: String)
        ensures
            text@ == self@.message(),
    {
        match self {
            TextureError::DeserialisationError { type_to_deser, input } => {
                String::from_str("Cannot build ").concat(type_to_deser.as_str()).concat(
                    " from ",
                ).concat(input.as_str())
            },
        }
    }
}

/// Failures about meshes.
#[derive(Debug)]
pub enum MeshError {
    /// The geometry source holds a geometry that the mesh does not declare.
    UnexpectedGeometry { mesh: MeshName, geometry: GeometryName },
}

/// [`MeshError`] as a mathematical value.
pub enum MeshErrorView {
    UnexpectedGeometry { mesh: Seq<char>, geometry: Seq<char> },
}

impl View for MeshError {
    type V = MeshErrorView;

    open spec fn view(&self) -> MeshErrorView {
        match self {
            MeshError::UnexpectedGeometry { mesh, geometry } => MeshErrorView::UnexpectedGeometry {
                mesh: mesh@,
                geometry: geometry@,
            },
        }
    }
}

impl MeshErrorView {
    /// The text that the failure prints.
    pub open spec fn message(self) -> Seq<char> {
        match self {
            MeshErrorView::UnexpectedGeometry { mesh, geometry } => {
                "Expected geometry does not match file loaded: "@ + tagged("Geometry"@, geometry)
                    + " is not declared by "@ + tagged("Mesh"@, mesh)
            },
        }
    }
}

impl MeshError {
    /// The text that the failure prints.
    pub fn to_string(&self) -> (text: String)
        ensures
            text@ == self@.message(),
    {
        match self {
            MeshError::UnexpectedGeometry { mesh, geometry } => {
                String::from_str("Expected geometry does not match file loaded: ").concat(
                    geometry.to_string().as_str(),
                ).concat(" is not declared by ").concat(mesh.to_string().as_str())
            },
        }
    }
}

/// Failures about models.
#[derive(Debug)]
pub enum ModelError {
    /// The model names a pipeline that was never registered.
    PipelineNotFoundInStore { model: ModelName, pipeline: String },
    /// The model declares another number of materials than its mesh has geometries.
    InvalidMaterialCount {
        model_name: ModelName,
        mesh_name: MeshName,
        descriptor_materials_count: usize,
        model_geometries_count: usize,
    },
    /// The materials of the model and its pipeline do not go together.
    InvalidMaterialAndPipeline { model: ModelName, pipeline: String, reason: String },
    /// A geometry of the mesh has no material among those that the model declares.
    MaterialNotSetForGeometry { geometry: GeometryName, model: ModelName },
    /// The model declares a material for a geometry that its mesh does not have.
    GeometryNotFound { geometry: GeometryName, model: ModelName },
}

/// [`ModelError`] as a mathematical value.
pub enum ModelErrorView {
    PipelineNotFoundInStore { model: Seq<char>, pipeline: Seq<char> },
    InvalidMaterialCount {
        model_name: Seq<char>,
        mesh_name: Seq<char>,
        descriptor_materials_count: nat,
        model_geometries_count: nat,
    },
    InvalidMaterialAndPipeline { model: Seq<char>, pipeline: Seq<char>, reason: Seq<char> },
    MaterialNotSetForGeometry { geometry: Seq<char>, model: Seq<char> },
    GeometryNotFound { geometry: Seq<char>, model: Seq<char> },
}

impl View for ModelError {
    type V = ModelErrorView;

    open spec fn view(&self) -> ModelErrorView {
        match self {
            ModelError::PipelineNotFoundInStore { model, pipeline } => {
                ModelErrorView::PipelineNotFoundInStore { model: model@, pipeline: pipeline@ }
            },
            ModelError::InvalidMaterialCount {
                model_name,
                mesh_name,
                descriptor_materials_count,
                model_geometries_count,
            } => ModelErrorView::InvalidMaterialCount {
                model_name: model_name@,
                mesh_name: mesh_name@,
                descriptor_materials_count: *descriptor_materials_count as nat,
                model_geometries_count: *model_geometries_count as nat,
            },
            ModelError::InvalidMaterialAndPipeline { model, pipeline, reason } => {
                ModelErrorView::InvalidMaterialAndPipeline {
                    model: model@,
                    pipeline: pipeline@,
                    reason: reason@,
                }
            },
            ModelError::MaterialNotSetForGeometry { geometry, model } => {
                ModelErrorView::MaterialNotSetForGeometry { geometry: geometry@, model: model@ }
            },
            ModelError::GeometryNotFound { geometry, model } => {
                ModelErrorView::GeometryNotFound { geometry: geometry@, model: model@ }
            },
        }
    }
}

impl ModelErrorView {
    /// The text that the failure prints.
    pub open spec fn message(self) -> Seq<char> {
        match self {
            ModelErrorView::PipelineNotFoundInStore { model, pipeline } => {
                "Pipeline "@ + pipeline + " not found in store while trying to build "@ + tagged(
                    "Model"@,
                    model,
                ) + " model description"@
            },
            ModelErrorView::InvalidMaterialCount {
                model_name,
                mesh_name,
                descriptor_materials_count,
                model_geometries_count,
            } => {
                "Materials count ("@ + decimal(descriptor_materials_count)
                    + ") does not match with geometries count ("@ + decimal(model_geometries_count)
                    + ") for model "@ + tagged("Model"@, model_name) + " (mesh: "@ + tagged(
                    "Mesh"@,
                    mesh_name,
                ) + ")"@
            },
            ModelErrorView::InvalidMaterialAndPipeline { model, pipeline, reason } => {
                "Invalid materials configuration for model "@ + tagged("Model"@, model)
                    + " using pipeline "@ + pipeline + ": "@ + reason
            },
            ModelErrorView::MaterialNotSetForGeometry { geometry, model } => {
                "Material not set for geometry "@ + tagged("Geometry"@, geometry) + " for model "@
                    + tagged("Model"@, model)
            },
            ModelErrorView::GeometryNotFound { geometry, model } => {
                "Geometry "@ + geometry + " not found in store for model "@ + tagged(
                    "Model"@,
                    model,
                )
            },
        }
    }
}

impl ModelError {
    /// The text that the failure prints.
    pub fn to_string(&self) -> (text: String)
        ensures
            text@ == self@.message(),
    {
        match self {
            ModelError::PipelineNotFoundInStore { model, pipeline } => {
                String::from_str("Pipeline ").concat(pipeline.as_str()).concat(
                    " not found in store while trying to build ",
                ).concat(model.to_string().as_str()).concat(" model description")
            },
            ModelError::InvalidMaterialCount {
                model_name,
                mesh_name,
                descriptor_materials_count,
                model_geometries_count,
            } => {
                String::from_str("Materials count (").concat(
                    decimal_string(*descriptor_materials_count).as_str(),
                ).concat(") does not match with geometries count (").concat(
                    decimal_string(*model_geometries_count).as_str(),
                ).concat(") for model ").concat(model_name.to_string().as_str()).concat(
                    " (mesh: ",
                ).concat(mesh_name.to_string().as_str()).concat(")")
            },
            ModelError::InvalidMaterialAndPipeline { model, pipeline, reason } => {
                String::from_str("Invalid materials configuration for model ").concat(
                    model.to_string().as_str(),
                ).concat(" using pipeline ").concat(pipeline.as_str()).concat(": ").concat(
                    reason.as_str(),
                )
            },
            ModelError::MaterialNotSetForGeometry { geometry, model } => {
                String::from_str("Material not set for geometry ").concat(
                    geometry.to_string().as_str(),
                ).concat(" for model ").concat(model.to_string().as_str())
            },
            ModelError::GeometryNotFound { geometry, model } => {
                String::from_str("Geometry ").concat(geometry.0.as_str()).concat(
                    " not found in store for model ",
                ).concat(model.to_string().as_str())
            },
        }
    }
}

} // verus!
