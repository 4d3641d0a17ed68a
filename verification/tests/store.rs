use pomarin::geometry::GeometryBuf;
use pomarin::material::{Material, MaterialKind};
use pomarin::mesh::MeshBuf;
use pomarin::model::Model;
use pomarin::names::{ModelName, NamedHandle};
use pomarin::pipeline::NamedPipeline;
use pomarin::store::Store;
use std::rc::Rc;

type TestStore = Store<String, u32, u8, &'static str>;

fn mesh(name: &str, geometries: &[&str]) -> Rc<MeshBuf<u8>> {
    Rc::new(MeshBuf {
        name: name.to_string(),
        geometries: geometries
            .iter()
            .map(|g| GeometryBuf {
                name: g.to_string(),
                vertex_buffer: 1,
                index_buffer: 2,
                num_elements: 3,
            })
            .collect(),
    })
}

#[test]
fn a_new_store_holds_nothing() {
    let store = TestStore::new();
    assert!(!store.contains_texture("x"));
    assert!(!store.contains_material("x"));
    assert!(!store.contains_mesh("x"));
    assert!(!store.contains_model("x"));
    assert!(store.get_texture("x").is_none());
    assert!(store.get_material("x").is_none());
    assert!(store.get_mesh("x").is_none());
    assert!(store.get_pipeline("x").is_none());
    assert!(store.get_model("x").is_none());
}

#[test]
fn a_texture_is_shared_under_its_name() {
    let mut store = TestStore::new();
    let texture = Rc::new("pixels".to_string());
    store.add_texture("wall", texture.clone());
    assert!(store.contains_texture("wall"));
    assert!(!store.contains_texture("Wall"));
    let first = store.get_texture("wall").unwrap();
    let second = store.get_texture("wall").unwrap();
    assert!(Rc::ptr_eq(&first, &texture));
    assert!(Rc::ptr_eq(&first, &second));
    assert_eq!(*first, "pixels");
}

#[test]
fn a_material_is_kept_under_its_own_name() {
    let mut store = TestStore::new();
    let white = Rc::new(Material::new("white", MaterialKind::Color, 7u32));
    store.add_material(white.clone());
    assert!(store.contains_material("white"));
    let found = store.get_material("white").unwrap();
    assert!(Rc::ptr_eq(&found, &white));
    assert_eq!(found.name(), "white");
    assert_eq!(found.kind(), MaterialKind::Color);
    assert_eq!(found.bind_group, 7);
    assert!(store.get_material("grey").is_none());
}

#[test]
fn caches_of_different_kinds_are_apart() {
    let mut store = TestStore::new();
    store.add_texture("x", Rc::new("t".to_string()));
    assert!(store.contains_texture("x"));
    assert!(!store.contains_material("x"));
    assert!(!store.contains_mesh("x"));
    assert!(!store.contains_model("x"));
    assert!(store.get_pipeline("x").is_none());
    store.add_material(Rc::new(Material::new("x", MaterialKind::Texture, 1u32)));
    assert_eq!(*store.get_texture("x").unwrap(), "t");
    assert_eq!(store.get_material("x").unwrap().bind_group, 1);
}

#[test]
fn the_last_resource_of_a_name_stays() {
    let mut store = TestStore::new();
    store.add_material(Rc::new(Material::new("m", MaterialKind::Color, 1u32)));
    store.add_material(Rc::new(Material::new("m", MaterialKind::Color, 2u32)));
    assert_eq!(store.get_material("m").unwrap().bind_group, 2);
}

#[test]
fn meshes_pipelines_and_models_are_kept_under_their_names() {
    let mut store = TestStore::new();
    let zodiac = mesh("zodiac", &["hull", "inflatable"]);
    store.add_mesh(zodiac.clone());
    assert!(store.contains_mesh("zodiac"));
    assert!(Rc::ptr_eq(&store.get_mesh("zodiac").unwrap(), &zodiac));

    let pipeline = Rc::new(NamedPipeline::new("colors_pipeline", "gpu", vec![MaterialKind::Color]));
    store.add_pipeline(pipeline.clone());
    assert!(Rc::ptr_eq(&store.get_pipeline("colors_pipeline").unwrap(), &pipeline));
    assert_eq!(store.get_pipeline("colors_pipeline").unwrap().name(), "colors_pipeline");

    let model = Rc::new(Model::new("color_zod".to_string(), pipeline, zodiac));
    store.add_model(model.clone());
    assert!(store.contains_model("color_zod"));
    let found = store.get_model("color_zod").unwrap();
    assert!(Rc::ptr_eq(&found, &model));
    assert_eq!(Model::name(&found), "color_zod");
    assert_eq!(NamedHandle::name(&*found), ModelName::from("color_zod"));
    assert!(found.materials.is_empty());
}
