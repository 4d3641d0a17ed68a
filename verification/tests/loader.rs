use pomarin::geometry::GeometryDescriptor;
use pomarin::material::{ColorMaterialDescriptor, MaterialDescriptor, TextureMaterialDescriptor};
use pomarin::mesh::{MeshDescriptor, VerticesSource};
use pomarin::model::ModelDescriptor;
use pomarin::names::{GeometryName, MaterialName, MeshName, ModelName, NamedHandle, TextureName};

const MODEL_ASSET_EXAMPLE_CONFIG: &'static str = r#"
    [
    (
        name:"model0_name",
        mesh:("model0_meshname"),
        geometries_materials:[
        (("model0_geometry0_name"),("model0_material0_name")),
        (("model0_geometry1_name"),("model0_material1_name"))
        ],
        pipeline_name:"model0_pipeline"
    ),
    (
        name:"pink_house",
        mesh:("tiny_house"),
        geometries_materials:[
        (("wall_geometry"),("pink_material")),
        (("door_geometry"),("wood_material"))
        ],
        pipeline_name:"model1_pipeline"
    ),
    (
        name:"green_house",
        mesh:("tiny_house"),
        geometries_materials:[
        (("wall_geometry"),("green_material")),
        (("door_geometry"),("wood_material"))
        ],
        pipeline_name:"model2_pipeline"
    ),
    (
        name:"alien",
        mesh:("body"),
        geometries_materials:[
        (("skin"),("green")),
        ],
        pipeline_name:"model3_pipeline"
    ),
    ]
"#;

/// The text of a value that holds one string, bare or as a tuple of one.
fn text(value: &ron::Value) -> String {
    match value {
        ron::Value::String(s) => s.clone(),
        ron::Value::Seq(items) if items.len() == 1 => text(&items[0]),
        other => panic!("no text: {:?}", other),
    }
}

/// The field of a record, by the text of its key.
fn field<'a>(record: &'a ron::Value, key: &str) -> &'a ron::Value {
    match record {
        ron::Value::Map(map) => {
            map.iter().find(|(k, _)| text(k) == key).map(|(_, v)| v).expect("no such field")
        }
        other => panic!("no record: {:?}", other),
    }
}

fn model_of(record: &ron::Value) -> ModelDescriptor {
    let pairs = match field(record, "geometries_materials") {
        ron::Value::Seq(pairs) => pairs
            .iter()
            .map(|pair| match pair {
                ron::Value::Seq(both) if both.len() == 2 => (
                    GeometryName::from(text(&both[0]).as_str()),
                    MaterialName::from(text(&both[1]).as_str()),
                ),
                other => panic!("no pair: {:?}", other),
            })
            .collect(),
        other => panic!("no list: {:?}", other),
    };
    ModelDescriptor::_new_(
        text(field(record, "name")),
        MeshName::from(text(field(record, "mesh")).as_str()),
        pairs,
        text(field(record, "pipeline_name")),
    )
}

#[test]
fn read_models_conf() {
    let parsed: ron::Value = ron::from_str(&MODEL_ASSET_EXAMPLE_CONFIG).unwrap();
    let models: Vec<ModelDescriptor> = match &parsed {
        ron::Value::Seq(records) => records.iter().map(model_of).collect(),
        other => panic!("no list: {:?}", other),
    };
    let model0 = models.get(0).expect("item not found");
    assert_eq!(model0.name(), ModelName::from("model0_name"));
    assert_eq!(models.len(), 4);
    assert_eq!(models[3].mesh, MeshName::from("body"));
    assert_eq!(
        models[1].geometries_materials[1],
        (GeometryName::from("door_geometry"), MaterialName::from("wood_material"))
    );
    assert_eq!(models[2].pipeline_name, "model2_pipeline");
}

#[test]
pub fn example_model() {
    let model = ModelDescriptor::_new_(
        "test".to_string(),
        MeshName::from("house"),
        vec![
            (GeometryName::from("hull"), MaterialName::from("wall")),
            (
                GeometryName::from("inflatable"),
                MaterialName::from("default"),
            ),
        ],
        "textures_pipeline".to_string(),
    );
    let model2 = ModelDescriptor::_new_(
        "tex_zodiac".to_string(),
        MeshName::from("zodiac"),
        vec![
            (GeometryName::from("hull"), MaterialName::from("color_001")),
            (
                GeometryName::from("inflatable"),
                MaterialName::from("color_002"),
            ),
        ],
        "colors_pipeline".to_string(),
    );

    let meshes = vec![
        MeshDescriptor::_new_(
            "zodiac".to_string(),
            VerticesSource::Obj("zodiac_001.obj".to_string()),
            vec![
                GeometryDescriptor::from("hull"),
                GeometryDescriptor::from("inflatable"),
            ],
        ),
        MeshDescriptor::_new_(
            "cube".to_string(),
            VerticesSource::Obj("cube_001.obj".to_string()),
            vec![GeometryDescriptor::from("cube")],
        ),
    ];

    let models = vec![model, model2];

    let materials: Vec<MaterialDescriptor> = vec![
        MaterialDescriptor::Texture(TextureMaterialDescriptor::_new_(
            "default".to_string(),
            TextureName::from("d_default"),
            TextureName::from("n_default"),
        )),
        MaterialDescriptor::Texture(TextureMaterialDescriptor::_new_(
            "wall".to_string(),
            TextureName::from("d_wall"),
            TextureName::from("n_wall"),
        )),
        MaterialDescriptor::Color(ColorMaterialDescriptor::_new_(
            "color_001".to_string(),
            [0.1f32.to_bits(), 0.2f32.to_bits(), 0.3f32.to_bits()],
            [0.5f32.to_bits(), 0.6f32.to_bits(), 0.7f32.to_bits()],
            [0.5f32.to_bits(), 0.5f32.to_bits(), 0.5f32.to_bits()],
        )),
    ];

    println!("\n\n{:?}\n\n", models);
    println!("\n\n{:?}\n\n", meshes);
    println!("\n\n{:?}\n\n", materials);
}
