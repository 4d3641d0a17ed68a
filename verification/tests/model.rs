use pomarin::material::{Material, MaterialKind};
use pomarin::mesh::MeshBuf;
use pomarin::model::Model;
use pomarin::pipeline::NamedPipeline;
use std::cmp::Ordering;
use std::rc::Rc;

type TestModel = Model<u32, u8, ()>;

fn model(name: &str, pipeline: &str, mesh: &str, materials: &[&str]) -> TestModel {
    let mut model = Model::new(
        name.to_string(),
        Rc::new(NamedPipeline::new(pipeline, (), vec![MaterialKind::Color])),
        Rc::new(MeshBuf { name: mesh.to_string(), geometries: vec![] }),
    );
    for material in materials {
        model.materials.push(Rc::new(Material::new(material, MaterialKind::Color, 0)));
    }
    model
}

#[test]
fn a_new_model_has_no_materials() {
    let fresh = model("m", "p", "mesh", &[]);
    assert_eq!(Model::name(&fresh), "m");
    assert!(fresh.materials.is_empty());
    assert_eq!(fresh.pipeline.name, "p");
    assert_eq!(fresh.mesh.name, "mesh");
}

#[test]
fn models_are_equal_whatever_their_names() {
    assert!(model("a", "p", "m", &["white", "grey"]) == model("b", "p", "m", &["white", "grey"]));
}

#[test]
fn models_differ_by_pipeline_mesh_or_materials() {
    let base = model("a", "p", "m", &["white", "grey"]);
    assert!(base != model("a", "q", "m", &["white", "grey"]));
    assert!(base != model("a", "p", "n", &["white", "grey"]));
    assert!(base != model("a", "p", "m", &["grey", "white"]));
    assert!(base != model("a", "p", "m", &["white"]));
    assert!(base != model("a", "p", "m", &["white", "grey", "grey"]));
}

#[test]
fn materials_are_compared_by_their_names_joined_with_spaces() {
    assert!(model("a", "p", "m", &["a b", "c"]) == model("a", "p", "m", &["a", "b c"]));
    assert!(model("a", "p", "m", &["ab", "c"]) != model("a", "p", "m", &["a", "bc"]));
}

#[test]
fn models_are_ordered_by_pipeline_then_mesh() {
    let first = model("z", "colors_pipeline", "zodiac", &[]);
    assert_eq!(first.cmp(&model("a", "textures_pipeline", "cube", &[])), Ordering::Less);
    assert_eq!(first.cmp(&model("a", "colors_pipeline", "cube", &[])), Ordering::Greater);
    assert_eq!(first.cmp(&model("a", "colors_pipeline", "zodiac", &["white"])), Ordering::Equal);
    assert_eq!(first.cmp(&model("a", "colors", "zodiac", &[])), Ordering::Greater);
    assert_eq!(first.cmp(&model("a", "colors_pipeline", "zodiacs", &[])), Ordering::Less);
    assert!(first < model("a", "textures_pipeline", "cube", &[]));
    assert!(first > model("a", "colors_pipeline", "cube", &[]));
    assert_eq!(
        first.partial_cmp(&model("a", "colors_pipeline", "zodiac", &[])),
        Some(Ordering::Equal)
    );
}

#[test]
fn names_are_ordered_by_code_point() {
    let upper = model("a", "Z", "m", &[]);
    let lower = model("a", "a", "m", &[]);
    assert_eq!(upper.cmp(&lower), Ordering::Less);
    let accented = model("a", "\u{e9}", "m", &[]);
    assert_eq!(lower.cmp(&accented), Ordering::Less);
    let far = model("a", "\u{1F600}", "m", &[]);
    let bmp = model("a", "\u{FFFD}", "m", &[]);
    assert_eq!(bmp.cmp(&far), Ordering::Less);
    let empty = model("a", "", "m", &[]);
    assert_eq!(empty.cmp(&lower), Ordering::Less);
    assert_eq!(empty.cmp(&model("b", "", "m", &[])), Ordering::Equal);
}
