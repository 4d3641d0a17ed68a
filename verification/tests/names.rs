use pomarin::geometry::{GeometryBuf, GeometryDescriptor, GeometryVertices};
use pomarin::material::{ColorMaterialDescriptor, MaterialDescriptor, TextureMaterialDescriptor};
use pomarin::mesh::{MeshDescriptor, VerticesSource};
use pomarin::model::ModelDescriptor;
use pomarin::names::{
    tag, GeometryName, MaterialName, MeshName, ModelName, NamedHandle, ObjectName, TextureName,
};
use pomarin::texture::{TextureDescriptor, TextureKind};

#[test]
fn names_print_with_their_kind() {
    assert_eq!(GeometryName::from("hull").to_string(), "Geometry(hull)");
    assert_eq!(ModelName::from("color_zod").to_string(), "Model(color_zod)");
    assert_eq!(MeshName::from("zodiac").to_string(), "Mesh(zodiac)");
    assert_eq!(TextureName::from("d_wall").to_string(), "Texture(d_wall)");
    assert_eq!(MaterialName::from("white").to_string(), "Material(white)");
}

#[test]
fn empty_name_prints_empty_brackets() {
    assert_eq!(MeshName::from("").to_string(), "Mesh()");
    assert_eq!(tag("Kind", ""), "Kind()");
}

#[test]
fn tag_puts_the_name_in_brackets() {
    assert_eq!(tag("Mesh", "a b"), "Mesh(a b)");
}

#[test]
fn names_of_one_kind_compare_by_spelling() {
    assert_eq!(ModelName::from("a"), ModelName::from("a"));
    assert_ne!(ModelName::from("a"), ModelName::from("b"));
    assert!(GeometryName::from("hull").same(&GeometryName::from("hull")));
    assert!(!GeometryName::from("hull").same(&GeometryName::from("Hull")));
    assert!(TextureName::from("x").same(&TextureName::from("x")));
    assert!(!MaterialName::from("x").same(&MaterialName::from("y")));
    assert!(MeshName::from("m").same(&MeshName::from("m")));
    assert!(!ModelName::from("m").same(&ModelName::from("")));
}

#[test]
fn names_order_as_their_spelling_does() {
    assert!(MeshName::from("a") < MeshName::from("b"));
    assert!(ObjectName("z".to_string()) > ObjectName("a".to_string()));
}

#[test]
fn names_give_their_spelling_back() {
    let name = MeshName::from("zodiac");
    let inner: &String = &name;
    assert_eq!(inner, "zodiac");
    let as_str: &str = name.as_ref();
    assert_eq!(as_str, "zodiac");
    assert_eq!(GeometryName::from("hull").len(), 4);
    assert_eq!(ModelName::from("m").as_str(), "m");
    assert_eq!(TextureName::from("t").as_str(), "t");
    assert_eq!(MaterialName::from("white").as_str(), "white");
}

#[test]
fn clones_of_names_are_equal() {
    let name = ModelName::from("color_zod");
    assert_eq!(name.clone(), name);
    let geometry = GeometryName::from("hull");
    assert_eq!(geometry.clone(), geometry);
    let object = ObjectName("sea".to_string());
    assert_eq!(object.clone(), object);
    assert_eq!(TextureName::from("t").clone(), TextureName::from("t"));
    assert_eq!(MaterialName::from("m").clone(), MaterialName::from("m"));
    assert_eq!(MeshName::from("m").clone(), MeshName::from("m"));
}

#[test]
fn descriptors_are_named_by_kind() {
    let geometry = GeometryDescriptor::from("hull");
    assert_eq!(geometry.name(), GeometryName::from("hull"));

    let texture =
        TextureDescriptor::_new_("d_wall".to_string(), "wall.png".to_string(), TextureKind::Diffuse);
    assert_eq!(texture.name(), TextureName::from("d_wall"));

    let color = ColorMaterialDescriptor::_new_("white".to_string(), [0; 3], [0; 3], [0; 3]);
    assert_eq!(color.name(), MaterialName::from("white"));
    assert_eq!(MaterialDescriptor::Color(color).name(), MaterialName::from("white"));

    let textured = TextureMaterialDescriptor::_new_(
        "wall".to_string(),
        TextureName::from("d_wall"),
        TextureName::from("n_wall"),
    );
    assert_eq!(textured.name(), MaterialName::from("wall"));
    assert_eq!(MaterialDescriptor::Texture(textured).name(), MaterialName::from("wall"));

    let mesh = MeshDescriptor::_new_(
        "zodiac".to_string(),
        VerticesSource::Obj("zodiac_001.obj".to_string()),
        vec![],
    );
    assert_eq!(mesh.name(), MeshName::from("zodiac"));

    let model = ModelDescriptor::_new_(
        "color_zod".to_string(),
        MeshName::from("zodiac"),
        vec![],
        "colors_pipeline".to_string(),
    );
    assert_eq!(model.name(), ModelName::from("color_zod"));
}

#[test]
fn geometries_are_named_before_and_after_their_buffers_are_made() {
    let vertices = GeometryVertices::new("hull", vec![1.5f32, 2.5, 3.5], vec![0, 1, 2, 0]);
    assert_eq!(vertices.name(), GeometryName::from("hull"));
    assert_eq!(vertices.num_elements(), 4);
    let buffers: GeometryBuf<&str> = vertices.to_geometry_buffer("vertices", "indices");
    assert_eq!(buffers.name(), GeometryName::from("hull"));
    assert_eq!(buffers.num_elements, 4);
    assert_eq!(buffers.vertex_buffer, "vertices");
    assert_eq!(buffers.index_buffer, "indices");
}

#[test]
fn a_geometry_without_indices_draws_nothing() {
    let vertices: GeometryVertices<u8> = GeometryVertices::new("empty", vec![], vec![]);
    assert_eq!(vertices.num_elements(), 0);
}
