use pomarin::assets::{load_assets, AssetError, AssetsDescriptors};
use pomarin::error::ModelError;
use pomarin::geometry::{GeometryBuf, GeometryDescriptor};
use pomarin::loader::{LoadError, Loaded, Request};
use pomarin::material::{
    ColorMaterialDescriptor, Material, MaterialDescriptor, MaterialKind, TextureMaterialDescriptor,
};
use pomarin::mesh::{MeshBuf, MeshDescriptor, VerticesSource};
use pomarin::model::{Model, ModelDescriptor};
use pomarin::names::{GeometryName, MaterialName, MeshName, ModelName, TextureName};
use pomarin::pipeline::NamedPipeline;
use pomarin::store::Store;
use pomarin::texture::{PixelFormat, TextureDescriptor, TextureKind};
use std::rc::Rc;

type Texture = String;
type TestStore = Store<Texture, u32, u8, &'static str>;
type TestModel = Model<u32, u8, &'static str>;

/// Stands for the device: makes what is asked for, and keeps count.
struct Device {
    made: Vec<String>,
    /// The geometries that the source of each mesh holds, by the name of the mesh.
    sources: Vec<(&'static str, Vec<&'static str>)>,
}

impl Device {
    fn new() -> Self {
        Device {
            made: vec![],
            sources: vec![
                ("zodiac", vec!["hull", "inflatable"]),
                ("shuffled", vec!["inflatable", "hull"]),
                ("cube", vec!["cube"]),
                ("light", vec!["bulb"]),
                ("pair", vec!["A", "B"]),
                ("twin", vec!["A", "A"]),
            ],
        }
    }

    fn source(&self, mesh: &str) -> Vec<GeometryBuf<u8>> {
        let (_, geometries) = self.sources.iter().find(|(name, _)| *name == mesh).unwrap();
        geometries
            .iter()
            .enumerate()
            .map(|(i, g)| GeometryBuf {
                name: g.to_string(),
                vertex_buffer: i as u8,
                index_buffer: i as u8,
                num_elements: 3,
            })
            .collect()
    }

    /// Makes what one request asks for and installs it.
    fn fulfil(&mut self, request: Request<Texture>, store: &mut TestStore) -> Result<(), String> {
        match request {
            Request::Texture { texture, format } => {
                self.made.push(format!("texture {} {:?}", texture.name, format));
                texture.install(format!("pixels of {}", texture.path), store);
            }
            Request::ColorMaterial { colors } => {
                self.made.push(format!("material {}", colors.name));
                colors.install(colors.ambient[0], store);
            }
            Request::TextureMaterial { textures, diffuse, normal } => {
                self.made.push(format!("material {} of {} and {}", textures.name, diffuse, normal));
                textures.install(0, store);
            }
            Request::Mesh { mesh } => {
                self.made.push(format!("mesh {}", mesh.name));
                mesh.install(self.source(&mesh.name), store).map_err(|e| e.to_string())?;
            }
        }
        Ok(())
    }

    /// Resolves a model, making whatever is asked for on the way.
    fn model(
        &mut self,
        name: &str,
        assets: &AssetsDescriptors,
        store: &mut TestStore,
    ) -> Result<Rc<TestModel>, String> {
        for _ in 0..100 {
            match ModelName::from(name).resolve(assets, store) {
                Loaded::Ready(model) => return Ok(model),
                Loaded::Failed(e) => return Err(e.to_string()),
                Loaded::Pending(request) => self.fulfil(request, store)?,
            }
        }
        panic!("resolution does not end");
    }
}

fn color(name: &str, shade: u32) -> MaterialDescriptor {
    MaterialDescriptor::Color(ColorMaterialDescriptor::_new_(
        name.to_string(),
        [shade; 3],
        [shade; 3],
        [shade; 3],
    ))
}

fn textured(name: &str, diffuse: &str, normal: &str) -> MaterialDescriptor {
    MaterialDescriptor::Texture(TextureMaterialDescriptor::_new_(
        name.to_string(),
        TextureName::from(diffuse),
        TextureName::from(normal),
    ))
}

fn mesh(name: &'static str, geometries: &[&str]) -> MeshDescriptor {
    MeshDescriptor::_new_(
        name.to_string(),
        VerticesSource::Obj(format!("{}_001.obj", name)),
        geometries.iter().map(|g| GeometryDescriptor::from(*g)).collect(),
    )
}

fn model(name: &str, mesh: &str, pairs: &[(&str, &str)], pipeline: &str) -> ModelDescriptor {
    ModelDescriptor::_new_(
        name.to_string(),
        MeshName::from(mesh),
        pairs.iter().map(|(g, m)| (GeometryName::from(*g), MaterialName::from(*m))).collect(),
        pipeline.to_string(),
    )
}

fn catalog(models: Vec<ModelDescriptor>) -> AssetsDescriptors {
    load_assets(
        vec![
            TextureDescriptor::_new_("d_wall".to_string(), "wall.png".to_string(), TextureKind::Diffuse),
            TextureDescriptor::_new_("n_wall".to_string(), "wall_n.png".to_string(), TextureKind::Normal),
        ],
        vec![
            color("white", 1),
            color("grey", 2),
            textured("wall", "d_wall", "n_wall"),
            textured("broken", "d_wall", "n_missing"),
        ],
        vec![
            mesh("zodiac", &["hull", "inflatable"]),
            mesh("shuffled", &["hull", "inflatable"]),
            mesh("cube", &["cube"]),
            mesh("light", &["bulb"]),
            mesh("pair", &["A"]),
            mesh("twin", &["A"]),
        ],
        models,
    )
}

fn store() -> TestStore {
    let mut store = TestStore::new();
    store.add_pipeline(Rc::new(NamedPipeline::new(
        "textures_pipeline",
        "gpu textures",
        vec![MaterialKind::Texture],
    )));
    store.add_pipeline(Rc::new(NamedPipeline::new(
        "colors_pipeline",
        "gpu colors",
        vec![MaterialKind::Color],
    )));
    store.add_pipeline(Rc::new(NamedPipeline::new("light_pipeline", "gpu light", vec![])));
    store
}

fn material_names(model: &TestModel) -> Vec<String> {
    model.materials.iter().map(|m| m.name.clone()).collect()
}

fn geometry_names(mesh: &MeshBuf<u8>) -> Vec<String> {
    mesh.geometries.iter().map(|g| g.name.clone()).collect()
}

#[test]
fn the_zodiac_of_colours_resolves_with_its_materials_in_order() {
    let assets = catalog(vec![model(
        "color_zod",
        "zodiac",
        &[("hull", "white"), ("inflatable", "grey")],
        "colors_pipeline",
    )]);
    let mut store = store();
    let mut device = Device::new();
    let resolved = device.model("color_zod", &assets, &mut store).unwrap();
    assert_eq!(resolved.name, "color_zod");
    assert_eq!(material_names(&resolved), vec!["white", "grey"]);
    assert_eq!(resolved.pipeline.name, "colors_pipeline");
    assert_eq!(resolved.mesh.name, "zodiac");
    assert_eq!(geometry_names(&resolved.mesh), vec!["hull", "inflatable"]);
    assert_eq!(device.made, vec!["mesh zodiac", "material white", "material grey"]);
}

#[test]
fn resolving_twice_gives_the_same_model_and_makes_nothing_again() {
    let assets = catalog(vec![model(
        "color_zod",
        "zodiac",
        &[("hull", "white"), ("inflatable", "grey")],
        "colors_pipeline",
    )]);
    let mut store = store();
    let mut device = Device::new();
    let first = device.model("color_zod", &assets, &mut store).unwrap();
    let made = device.made.clone();
    let second = device.model("color_zod", &assets, &mut store).unwrap();
    assert!(Rc::ptr_eq(&first, &second));
    assert_eq!(device.made, made);
    match ModelName::from("color_zod").resolve(&assets, &mut store) {
        Loaded::Ready(third) => assert!(Rc::ptr_eq(&first, &third)),
        _ => panic!("the model should be ready"),
    }
}

#[test]
fn two_models_share_what_they_have_in_common() {
    let assets = catalog(vec![
        model("one", "zodiac", &[("hull", "white"), ("inflatable", "grey")], "colors_pipeline"),
        model("two", "zodiac", &[("hull", "grey"), ("inflatable", "grey")], "colors_pipeline"),
    ]);
    let mut store = store();
    let mut device = Device::new();
    let one = device.model("one", &assets, &mut store).unwrap();
    let two = device.model("two", &assets, &mut store).unwrap();
    assert!(Rc::ptr_eq(&one.mesh, &two.mesh));
    assert!(Rc::ptr_eq(&one.pipeline, &two.pipeline));
    assert!(Rc::ptr_eq(&one.materials[1], &two.materials[0]));
    assert!(Rc::ptr_eq(&two.materials[0], &two.materials[1]));
    assert_eq!(device.made, vec!["mesh zodiac", "material white", "material grey"]);
}

#[test]
fn a_name_of_another_kind_is_not_found_as_a_model() {
    let assets = catalog(vec![]);
    let mut store = store();
    match ModelName::from("d_wall").resolve(&assets, &mut store) {
        Loaded::Failed(LoadError::Asset(AssetError::AssetNotFound { key })) => {
            assert_eq!(key, "Model(d_wall)")
        }
        _ => panic!("the model should not be found"),
    }
    assert!(matches!(
        TextureName::from("d_wall").resolve(&assets, &store),
        Loaded::Pending(Request::Texture { .. })
    ));
    assert!(matches!(
        MaterialName::from("d_wall").resolve::<Texture, u32, u8, &str>(&assets, &store),
        Loaded::Failed(LoadError::Asset(AssetError::AssetNotFound { .. }))
    ));
}

#[test]
fn a_texture_and_a_material_of_one_name_resolve_apart() {
    let assets = load_assets(
        vec![TextureDescriptor::_new_("x".to_string(), "x.png".to_string(), TextureKind::Diffuse)],
        vec![color("x", 9)],
        vec![],
        vec![],
    );
    let mut store = store();
    match TextureName::from("x").resolve(&assets, &store) {
        Loaded::Pending(Request::Texture { texture, .. }) => {
            texture.install("pixels".to_string(), &mut store);
        }
        _ => panic!("the texture should be requested"),
    }
    match MaterialName::from("x").resolve(&assets, &store) {
        Loaded::Pending(Request::ColorMaterial { colors }) => {
            colors.install(9, &mut store);
        }
        _ => panic!("the material should be requested"),
    }
    match TextureName::from("x").resolve(&assets, &store) {
        Loaded::Ready(texture) => assert_eq!(*texture, "pixels"),
        _ => panic!("the texture should be ready"),
    }
    match MaterialName::from("x").resolve(&assets, &store) {
        Loaded::Ready(material) => {
            assert_eq!(material.bind_group, 9);
            assert_eq!(material.kind, MaterialKind::Color);
        }
        _ => panic!("the material should be ready"),
    }
    assert!(matches!(
        ModelName::from("x").resolve(&assets, &mut store),
        Loaded::Failed(LoadError::Asset(AssetError::AssetNotFound { .. }))
    ));
}

#[test]
fn a_count_of_materials_other_than_that_of_the_geometries_is_refused() {
    let assets = catalog(vec![
        model("few", "zodiac", &[("hull", "white")], "colors_pipeline"),
        model("none", "zodiac", &[], "colors_pipeline"),
        model(
            "many",
            "zodiac",
            &[("hull", "white"), ("inflatable", "grey"), ("hull", "grey")],
            "colors_pipeline",
        ),
    ]);
    let mut store = store();
    let mut device = Device::new();
    assert_eq!(
        device.model("few", &assets, &mut store).unwrap_err(),
        "Materials count (1) does not match with geometries count (2) for model Model(few) (mesh: Mesh(zodiac))"
    );
    assert_eq!(
        device.model("none", &assets, &mut store).unwrap_err(),
        "Materials count (0) does not match with geometries count (2) for model Model(none) (mesh: Mesh(zodiac))"
    );
    match ModelName::from("many").resolve(&assets, &mut store) {
        Loaded::Failed(LoadError::Model(ModelError::InvalidMaterialCount {
            model_name,
            mesh_name,
            descriptor_materials_count,
            model_geometries_count,
        })) => {
            assert_eq!(model_name, ModelName::from("many"));
            assert_eq!(mesh_name, MeshName::from("zodiac"));
            assert_eq!(descriptor_materials_count, 3);
            assert_eq!(model_geometries_count, 2);
        }
        _ => panic!("the count should be refused"),
    }
    assert!(!store.contains_model("few"));
    assert!(!store.contains_model("many"));
}

#[test]
fn materials_for_a_pipeline_without_materials_are_refused() {
    let assets = catalog(vec![model("lamp", "light", &[("bulb", "white")], "light_pipeline")]);
    let mut store = store();
    let mut device = Device::new();
    match device.model("lamp", &assets, &mut store) {
        Err(message) => assert_eq!(
            message,
            "Invalid materials configuration for model Model(lamp) using pipeline light_pipeline: pipeline does not expect material"
        ),
        Ok(_) => panic!("the materials should be refused"),
    }
    assert_eq!(device.made, vec!["mesh light"]);
}

#[test]
fn a_pipeline_without_materials_takes_a_model_without_any() {
    let assets = catalog(vec![model("lamp", "light", &[], "light_pipeline")]);
    let mut store = store();
    let mut device = Device::new();
    let lamp = device.model("lamp", &assets, &mut store).unwrap();
    assert!(lamp.materials.is_empty());
    assert_eq!(lamp.mesh.geometries.len(), 1);
    assert_eq!(lamp.pipeline.pipeline, "gpu light");
    assert!(store.contains_model("lamp"));
}

#[test]
fn with_a_material_for_each_geometry_the_model_has_as_many_materials() {
    let assets = catalog(vec![
        model("cube", "cube", &[("cube", "white")], "colors_pipeline"),
        model("boat", "zodiac", &[("inflatable", "white"), ("hull", "white")], "colors_pipeline"),
    ]);
    let mut store = store();
    let mut device = Device::new();
    let cube = device.model("cube", &assets, &mut store).unwrap();
    assert_eq!(cube.materials.len(), cube.mesh.geometries.len());
    assert_eq!(cube.materials.len(), 1);
    let boat = device.model("boat", &assets, &mut store).unwrap();
    assert_eq!(boat.materials.len(), boat.mesh.geometries.len());
    assert_eq!(boat.materials.len(), 2);
}

#[test]
fn materials_follow_the_geometries_whatever_the_order_of_declaration() {
    let assets = catalog(vec![
        model("forward", "zodiac", &[("hull", "white"), ("inflatable", "grey")], "colors_pipeline"),
        model("backward", "zodiac", &[("inflatable", "grey"), ("hull", "white")], "colors_pipeline"),
    ]);
    let mut store = store();
    let mut device = Device::new();
    let forward = device.model("forward", &assets, &mut store).unwrap();
    let backward = device.model("backward", &assets, &mut store).unwrap();
    assert_eq!(material_names(&forward), vec!["white", "grey"]);
    assert_eq!(material_names(&backward), vec!["white", "grey"]);
    for i in 0..2 {
        assert!(Rc::ptr_eq(&forward.materials[i], &backward.materials[i]));
    }
}

#[test]
fn materials_follow_the_declared_order_of_the_mesh_not_that_of_its_source() {
    let assets = catalog(vec![model(
        "boat",
        "shuffled",
        &[("inflatable", "grey"), ("hull", "white")],
        "colors_pipeline",
    )]);
    let mut store = store();
    let mut device = Device::new();
    let boat = device.model("boat", &assets, &mut store).unwrap();
    assert_eq!(geometry_names(&boat.mesh), vec!["hull", "inflatable"]);
    assert_eq!(material_names(&boat), vec!["white", "grey"]);
    assert_eq!(boat.mesh.geometries[0].vertex_buffer, 1);
}

#[test]
fn of_two_materials_declared_for_one_geometry_the_first_counts() {
    let descriptor = model("m", "zodiac", &[("hull", "white"), ("hull", "grey")], "p");
    assert_eq!(
        descriptor.material_for(&GeometryName::from("hull")),
        Some(&MaterialName::from("white"))
    );
    assert_eq!(descriptor.material_for(&GeometryName::from("inflatable")), None);
}

#[test]
fn a_geometry_without_material_is_named_in_the_failure() {
    let assets = catalog(vec![
        model("half", "zodiac", &[("hull", "white"), ("hull", "grey")], "colors_pipeline"),
        model("astray", "zodiac", &[("hull", "white"), ("keel", "grey")], "colors_pipeline"),
    ]);
    let mut store = store();
    let mut device = Device::new();
    assert_eq!(
        device.model("half", &assets, &mut store).unwrap_err(),
        "Material not set for geometry Geometry(inflatable) for model Model(half)"
    );
    match ModelName::from("astray").resolve(&assets, &mut store) {
        Loaded::Failed(LoadError::Model(ModelError::MaterialNotSetForGeometry { geometry, model })) => {
            assert_eq!(geometry, GeometryName::from("inflatable"));
            assert_eq!(model, ModelName::from("astray"));
        }
        _ => panic!("the geometry without material should be named"),
    }
    assert!(!store.contains_model("half"));
    assert!(!store.contains_model("astray"));
}

#[test]
fn a_failed_model_leaves_what_was_made_for_others() {
    let assets = catalog(vec![
        model("half", "zodiac", &[("hull", "white"), ("hull", "grey")], "colors_pipeline"),
        model("whole", "zodiac", &[("hull", "white"), ("inflatable", "grey")], "colors_pipeline"),
    ]);
    let mut store = store();
    let mut device = Device::new();
    assert!(device.model("half", &assets, &mut store).is_err());
    assert_eq!(device.made, vec!["mesh zodiac", "material white"]);
    assert!(store.contains_mesh("zodiac"));
    assert!(store.contains_material("white"));
    let whole = device.model("whole", &assets, &mut store).unwrap();
    assert_eq!(material_names(&whole), vec!["white", "grey"]);
    assert_eq!(device.made, vec!["mesh zodiac", "material white", "material grey"]);
}

#[test]
fn a_source_with_an_undeclared_geometry_fails_the_model() {
    let assets = catalog(vec![model("boat", "pair", &[("A", "white")], "colors_pipeline")]);
    let mut store = store();
    let mut device = Device::new();
    assert_eq!(
        device.model("boat", &assets, &mut store).unwrap_err(),
        "Expected geometry does not match file loaded: Geometry(B) is not declared by Mesh(pair)"
    );
    assert!(!store.contains_mesh("pair"));
    assert!(!store.contains_model("boat"));
}

#[test]
fn a_missing_mesh_is_not_found() {
    let assets = catalog(vec![model("ghost", "nowhere", &[], "light_pipeline")]);
    let mut store = store();
    match ModelName::from("ghost").resolve(&assets, &mut store) {
        Loaded::Failed(LoadError::Asset(AssetError::AssetNotFound { key })) => {
            assert_eq!(key, "Mesh(nowhere)")
        }
        _ => panic!("the mesh should not be found"),
    }
}

#[test]
fn a_pipeline_that_was_not_registered_is_reported() {
    let assets = catalog(vec![model("boat", "zodiac", &[], "water_pipeline")]);
    let mut store = store();
    let mut device = Device::new();
    assert_eq!(
        device.model("boat", &assets, &mut store).unwrap_err(),
        "Pipeline water_pipeline not found in store while trying to build Model(boat) model description"
    );
    assert_eq!(device.made, vec!["mesh zodiac"]);
    match ModelName::from("boat").resolve(&assets, &mut store) {
        Loaded::Failed(LoadError::Model(ModelError::PipelineNotFoundInStore { model, pipeline })) => {
            assert_eq!(model, ModelName::from("boat"));
            assert_eq!(pipeline, "water_pipeline");
        }
        _ => panic!("the pipeline should be reported"),
    }
}

#[test]
fn a_missing_material_is_not_found() {
    let assets = catalog(vec![model("cube", "cube", &[("cube", "gold")], "colors_pipeline")]);
    let mut store = store();
    let mut device = Device::new();
    assert_eq!(device.model("cube", &assets, &mut store).unwrap_err(), "Material(gold) not found");
}

#[test]
fn a_material_of_a_kind_that_the_pipeline_does_not_accept_is_refused() {
    let assets = catalog(vec![
        model("cube", "cube", &[("cube", "wall")], "colors_pipeline"),
        model("other", "cube", &[("cube", "white")], "textures_pipeline"),
    ]);
    let mut store = store();
    let mut device = Device::new();
    assert_eq!(
        device.model("cube", &assets, &mut store).unwrap_err(),
        "Invalid materials configuration for model Model(cube) using pipeline colors_pipeline: pipeline does not accept MaterialKind::Texture"
    );
    match device.model("other", &assets, &mut store) {
        Err(message) => assert_eq!(
            message,
            "Invalid materials configuration for model Model(other) using pipeline textures_pipeline: pipeline does not accept MaterialKind::Color"
        ),
        Ok(_) => panic!("the material should be refused"),
    }
    assert!(!store.contains_model("cube"));
}

#[test]
fn a_material_of_textures_asks_for_its_textures_first() {
    let assets = catalog(vec![model("cube", "cube", &[("cube", "wall")], "textures_pipeline")]);
    let mut store = store();
    let mut device = Device::new();
    let cube = device.model("cube", &assets, &mut store).unwrap();
    assert_eq!(
        device.made,
        vec![
            "mesh cube",
            "texture d_wall Rgba8UnormSrgb",
            "texture n_wall Rgba8Unorm",
            "material wall of pixels of wall.png and pixels of wall_n.png",
        ]
    );
    assert_eq!(material_names(&cube), vec!["wall"]);
    assert_eq!(cube.materials[0].kind, MaterialKind::Texture);
    assert!(store.contains_texture("d_wall"));
    assert!(store.contains_texture("n_wall"));
}

#[test]
fn a_texture_is_asked_for_in_the_format_of_its_kind() {
    let normal = TextureDescriptor::_new_("n".to_string(), "n.png".to_string(), TextureKind::Normal);
    let diffuse = TextureDescriptor::_new_("d".to_string(), "d.png".to_string(), TextureKind::Diffuse);
    let mut store = store();
    match normal.load(&store) {
        Loaded::Pending(Request::Texture { texture, format }) => {
            assert_eq!(texture.name, "n");
            assert_eq!(format, PixelFormat::Rgba8Unorm);
        }
        _ => panic!("the texture should be requested"),
    }
    match diffuse.load(&store) {
        Loaded::Pending(Request::Texture { format, .. }) => {
            assert_eq!(format, PixelFormat::Rgba8UnormSrgb)
        }
        _ => panic!("the texture should be requested"),
    }
    let installed = normal.install("pixels".to_string(), &mut store);
    match normal.load(&store) {
        Loaded::Ready(texture) => assert!(Rc::ptr_eq(&texture, &installed)),
        _ => panic!("the texture should be ready"),
    }
    assert!(matches!(diffuse.load(&store), Loaded::Pending(_)));
}

#[test]
fn a_material_with_a_missing_texture_fails_after_the_first_texture_was_made() {
    let assets = catalog(vec![]);
    let mut store = store();
    let mut device = Device::new();
    let name = MaterialName::from("broken");
    match name.resolve(&assets, &store) {
        Loaded::Pending(request) => {
            assert!(matches!(request, Request::Texture { .. }));
            device.fulfil(request, &mut store).unwrap();
        }
        _ => panic!("the first texture should be requested"),
    }
    match name.resolve(&assets, &store) {
        Loaded::Failed(LoadError::Asset(AssetError::AssetNotFound { key })) => {
            assert_eq!(key, "Texture(n_missing)")
        }
        _ => panic!("the second texture should not be found"),
    }
    assert_eq!(device.made, vec!["texture d_wall Rgba8UnormSrgb"]);
    assert!(!store.contains_material("broken"));
}

#[test]
fn a_material_of_the_store_is_handed_out_whatever_its_descriptor_needs() {
    let assets = catalog(vec![]);
    let mut store = store();
    let ready = Rc::new(Material::new("broken", MaterialKind::Texture, 5u32));
    store.add_material(ready.clone());
    match MaterialName::from("broken").resolve(&assets, &store) {
        Loaded::Ready(material) => assert!(Rc::ptr_eq(&material, &ready)),
        _ => panic!("the material should be ready"),
    }
}

#[test]
fn installed_materials_are_tagged_with_their_kind() {
    let mut store = store();
    let colors = ColorMaterialDescriptor::_new_("white".to_string(), [1; 3], [2; 3], [3; 3]);
    let white = colors.install(11, &mut store);
    assert_eq!(white.name, "white");
    assert_eq!(white.kind, MaterialKind::Color);
    assert_eq!(white.bind_group, 11);
    let textures = TextureMaterialDescriptor::_new_(
        "wall".to_string(),
        TextureName::from("d"),
        TextureName::from("n"),
    );
    let wall = textures.install(12, &mut store);
    assert_eq!(wall.name, "wall");
    assert_eq!(wall.kind, MaterialKind::Texture);
    assert!(Rc::ptr_eq(&store.get_material("white").unwrap(), &white));
    assert!(Rc::ptr_eq(&store.get_material("wall").unwrap(), &wall));
}

#[test]
fn a_mesh_is_resolved_by_name() {
    let assets = catalog(vec![]);
    let mut store = store();
    let mut device = Device::new();
    let name = MeshName::from("cube");
    match name.resolve(&assets, &store) {
        Loaded::Pending(request) => device.fulfil(request, &mut store).unwrap(),
        _ => panic!("the mesh should be requested"),
    }
    match name.resolve(&assets, &store) {
        Loaded::Ready(mesh) => assert_eq!(geometry_names(&mesh), vec!["cube"]),
        _ => panic!("the mesh should be ready"),
    }
    assert!(matches!(
        MeshName::from("white").resolve(&assets, &store),
        Loaded::Failed(LoadError::Asset(AssetError::AssetNotFound { .. }))
    ));
}

#[test]
fn a_model_of_the_store_is_handed_out_as_it_is() {
    let assets = catalog(vec![model("ghost", "nowhere", &[], "nothing")]);
    let mut store = store();
    let pipeline = store.get_pipeline("light_pipeline").unwrap();
    let mesh = Rc::new(MeshBuf { name: "m".to_string(), geometries: vec![] });
    let ready = Rc::new(Model::new("ghost".to_string(), pipeline, mesh));
    store.add_model(ready.clone());
    match ModelName::from("ghost").resolve(&assets, &mut store) {
        Loaded::Ready(model) => assert!(Rc::ptr_eq(&model, &ready)),
        _ => panic!("the model should be ready"),
    }
}

#[test]
fn models_compare_by_pipeline_mesh_and_material_names() {
    let assets = catalog(vec![
        model("one", "zodiac", &[("hull", "white"), ("inflatable", "grey")], "colors_pipeline"),
        model("two", "zodiac", &[("inflatable", "grey"), ("hull", "white")], "colors_pipeline"),
        model("three", "zodiac", &[("hull", "grey"), ("inflatable", "grey")], "colors_pipeline"),
        model("four", "cube", &[("cube", "white")], "colors_pipeline"),
    ]);
    let mut store = store();
    let mut device = Device::new();
    let one = device.model("one", &assets, &mut store).unwrap();
    let two = device.model("two", &assets, &mut store).unwrap();
    let three = device.model("three", &assets, &mut store).unwrap();
    let four = device.model("four", &assets, &mut store).unwrap();
    assert!(*one == *two);
    assert!(*one != *three);
    assert!(*one != *four);
}

#[test]
fn a_material_for_a_geometry_that_the_mesh_lacks_is_refused() {
    let assets = catalog(vec![
        model("astray", "twin", &[("A", "white"), ("keel", "grey")], "colors_pipeline"),
        model("twice", "twin", &[("A", "white"), ("A", "grey")], "colors_pipeline"),
    ]);
    let mut store = store();
    let mut device = Device::new();
    assert_eq!(
        device.model("astray", &assets, &mut store).unwrap_err(),
        "Geometry keel not found in store for model Model(astray)"
    );
    match ModelName::from("astray").resolve(&assets, &mut store) {
        Loaded::Failed(LoadError::Model(ModelError::GeometryNotFound { geometry, model })) => {
            assert_eq!(geometry, GeometryName::from("keel"));
            assert_eq!(model, ModelName::from("astray"));
        }
        _ => panic!("the stray geometry should be named"),
    }
    assert!(!store.contains_model("astray"));
    let twice = device.model("twice", &assets, &mut store).unwrap();
    assert_eq!(geometry_names(&twice.mesh), vec!["A", "A"]);
    assert_eq!(material_names(&twice), vec!["white", "white"]);
}

#[test]
fn the_first_stray_geometry_in_the_order_of_declaration_is_found() {
    let descriptor = model("m", "zodiac", &[("hull", "a"), ("keel", "b"), ("mast", "c")], "p");
    let geometries = vec![
        GeometryBuf { name: "hull".to_string(), vertex_buffer: 0u8, index_buffer: 0u8, num_elements: 0 },
        GeometryBuf { name: "mast".to_string(), vertex_buffer: 0u8, index_buffer: 0u8, num_elements: 0 },
    ];
    assert_eq!(descriptor.stray_geometry(&geometries), Some(&GeometryName::from("keel")));
    let all = vec![GeometryDescriptor::from("mast"), GeometryDescriptor::from("keel"), GeometryDescriptor::from("hull")];
    assert_eq!(descriptor.stray_geometry(&all), None);
    let none: Vec<GeometryDescriptor> = vec![];
    assert_eq!(descriptor.stray_geometry(&none), Some(&GeometryName::from("hull")));
    let empty = model("m", "zodiac", &[], "p");
    assert_eq!(empty.stray_geometry(&none), None);
}
