//! What holds of resolution whatever the catalog and the store hold.

use vstd::prelude::*;
use std::rc::Rc;
use crate::assets::{catalog_wf, with_all, AssetDescriptor, AssetErrorView, AssetKey};
use crate::error::ModelErrorView;
use crate::loader::{
    no_material_expected, rejected, LoadErrorView, ModelOutcome, Outcome, Request,
};
use crate::material::{Material, MaterialDescriptor};
use crate::mesh::{MeshBuf, MeshDescriptor};
use crate::model::{first_stray, material_of, Model, ModelDescriptor};
use crate::names::{tagged, GeometryName, MaterialName, ModelName, NamedHandle, TextureName};
use crate::pipeline::NamedPipeline;
use crate::store::Store;
use crate::texture::TextureDescriptor;

verus! {

/// Whether the store lacks what the request asks for, and holds what the
/// request brings along.
pub open spec fn is_needed<T, B, G, P>(request: Request<T>, store: &Store<T, B, G, P>) -> bool {
    match request {
        Request::Texture { texture, format } => {
            &&& !store.textures().contains_key(texture.name@)
            &&& format == texture.kind.spec_pixel_format()
        },
        Request::ColorMaterial { colors } => !store.materials().contains_key(colors.name@),
        Request::TextureMaterial { textures, diffuse, normal } => {
            &&& !store.materials().contains_key(textures.name@)
            &&& store.textures().contains_key(textures.diffuse_texture@)
            &&& store.textures()[textures.diffuse_texture@] == diffuse
            &&& store.textures().contains_key(textures.normal_texture@)
            &&& store.textures()[textures.normal_texture@] == normal
        },
        Request::Mesh { mesh } => !store.meshes().contains_key(mesh.name@),
    }
}

/// Idempotent caching, textures: a texture that was installed is handed out
/// by every later load, which asks for nothing.
pub proof fn lemma_texture_is_made_once<T, B, G, P>(
    descriptor: TextureDescriptor,
    before: Store<T, B, G, P>,
    after: Store<T, B, G, P>,
    handle: Rc<T>,
)
    requires
        after.textures() == before.textures().insert(descriptor.name@, handle),
    ensures
        descriptor.outcome(&after) == Outcome::<T, Rc<T>>::Ready(handle),
{
}

/// Idempotent caching, materials: a material that was installed is handed
/// out by every later load, which asks for nothing.
pub proof fn lemma_material_is_made_once<T, B, G, P>(
    descriptor: MaterialDescriptor,
    assets: Map<AssetKey, AssetDescriptor>,
    before: Store<T, B, G, P>,
    after: Store<T, B, G, P>,
    handle: Rc<Material<B>>,
)
    requires
        after.materials() == before.materials().insert(descriptor.spec_name()@, handle),
    ensures
        descriptor.outcome(assets, &after) == Outcome::<T, Rc<Material<B>>>::Ready(handle),
{
}

/// Idempotent caching, meshes: a mesh that was installed is handed out by
/// every later load, which asks for nothing.
pub proof fn lemma_mesh_is_made_once<T, B, G, P>(
    descriptor: MeshDescriptor,
    before: Store<T, B, G, P>,
    after: Store<T, B, G, P>,
    handle: Rc<MeshBuf<G>>,
)
    requires
        after.meshes() == before.meshes().insert(descriptor.name@, handle),
    ensures
        descriptor.outcome(&after) == Outcome::<T, Rc<MeshBuf<G>>>::Ready(handle),
{
}

/// Idempotent caching, models: where a load has handed out a model, from
/// the store or newly put together, the next load hands out that very
/// model from the store.
pub proof fn lemma_model_is_built_once<T, B, G, P>(
    descriptor: ModelDescriptor,
    assets: Map<AssetKey, AssetDescriptor>,
    before: Store<T, B, G, P>,
    after: Store<T, B, G, P>,
    model: Rc<Model<B, G, P>>,
)
    requires
        match descriptor.outcome(assets, &before) {
            ModelOutcome::Cached(cached) => model == cached && after.models() == before.models(),
            ModelOutcome::Built(view) => model@ == view && after.models()
                == before.models().insert(descriptor.name@, model),
            _ => false,
        },
    ensures
        descriptor.outcome(assets, &after) == ModelOutcome::<T, B, G, P>::Cached(model),
{
}

/// Nothing is asked for twice: a texture is requested only while the store
/// lacks it.
pub proof fn lemma_texture_request_is_needed<T, B, G, P>(
    name: TextureName,
    assets: Map<AssetKey, AssetDescriptor>,
    store: Store<T, B, G, P>,
)
    requires
        catalog_wf(assets),
    ensures
        name.outcome(assets, &store) matches Outcome::Pending(request) ==> is_needed(
            request,
            &store,
        ),
{
    let key = AssetKey::Texture(name@);
    if assets.contains_key(key) {
        assert(assets[key].key() == key);
    }
}

/// Nothing is asked for twice: what the load of a material requests, the
/// store lacks, and the textures that the request brings along are those
/// of the store.
pub proof fn lemma_material_request_is_needed<T, B, G, P>(
    descriptor: MaterialDescriptor,
    assets: Map<AssetKey, AssetDescriptor>,
    store: Store<T, B, G, P>,
)
    requires
        catalog_wf(assets),
    ensures
        descriptor.outcome(assets, &store) matches Outcome::Pending(request) ==> is_needed(
            request,
            &store,
        ),
{
    match descriptor {
        MaterialDescriptor::Color(_) => {},
        MaterialDescriptor::Texture(texture) => {
            lemma_texture_request_is_needed(texture.diffuse_texture, assets, store);
            lemma_texture_request_is_needed(texture.normal_texture, assets, store);
            let diffuse = AssetKey::Texture(texture.diffuse_texture@);
            if assets.contains_key(diffuse) {
                assert(assets[diffuse].key() == diffuse);
            }
            let normal = AssetKey::Texture(texture.normal_texture@);
            if assets.contains_key(normal) {
                assert(assets[normal].key() == normal);
            }
        },
    }
}

/// Nothing is asked for twice: what the resolution of a material requests,
/// the store lacks.
pub proof fn lemma_material_name_request_is_needed<T, B, G, P>(
    name: MaterialName,
    assets: Map<AssetKey, AssetDescriptor>,
    store: Store<T, B, G, P>,
)
    requires
        catalog_wf(assets),
    ensures
        name.outcome(assets, &store) matches Outcome::Pending(request) ==> is_needed(
            request,
            &store,
        ),
{
    let key = AssetKey::Material(name@);
    if assets.contains_key(key) {
        match assets[key] {
            AssetDescriptor::Material(descriptor) => {
                lemma_material_request_is_needed(descriptor, assets, store);
            },
            _ => {},
        }
    }
}

/// Where the search for the first geometry without a ready material ends
/// in a request, the store lacks what is asked for.
proof fn lemma_blocked_request_is_needed<T, B, G, P>(
    descriptor: ModelDescriptor,
    assets: Map<AssetKey, AssetDescriptor>,
    store: Store<T, B, G, P>,
    pipeline: Rc<NamedPipeline<P>>,
    geometries: Seq<Seq<char>>,
    from: int,
)
    requires
        catalog_wf(assets),
    ensures
        descriptor.first_blocked(assets, &store, pipeline, geometries, from) matches Some(
            Outcome::Pending(request),
        ) ==> is_needed(request, &store),
    decreases geometries.len() - from,
{
    if 0 <= from < geometries.len() {
        match material_of(descriptor.geometries_materials@, geometries[from]) {
            Some(name) => {
                lemma_material_name_request_is_needed(name, assets, store);
            },
            None => {},
        }
        lemma_blocked_request_is_needed(descriptor, assets, store, pipeline, geometries, from + 1);
    }
}

/// Nothing is asked for twice: what the load of a model requests, the
/// store lacks. So each resource is made once: it is asked for while the
/// store lacks it, and found there once it was installed.
pub proof fn lemma_model_request_is_needed<T, B, G, P>(
    descriptor: ModelDescriptor,
    assets: Map<AssetKey, AssetDescriptor>,
    store: Store<T, B, G, P>,
)
    requires
        catalog_wf(assets),
    ensures
        descriptor.outcome(assets, &store) matches ModelOutcome::Pending(request) ==> is_needed(
            request,
            &store,
        ),
{
    if !store.models().contains_key(descriptor.name@) {
        let key = AssetKey::Mesh(descriptor.mesh@);
        if assets.contains_key(key) {
            assert(assets[key].key() == key);
        }
        match descriptor.mesh.outcome(assets, &store) {
            Outcome::Ready(mesh) => {
                if store.pipelines().contains_key(descriptor.pipeline_name@) {
                    lemma_blocked_request_is_needed(
                        descriptor,
                        assets,
                        store,
                        store.pipelines()[descriptor.pipeline_name@],
                        mesh.geometry_names(),
                        0,
                    );
                }
            },
            _ => {},
        }
    }
}

/// Whether two names are of the same kind.
pub open spec fn same_kind(a: AssetKey, b: AssetKey) -> bool {
    ||| a is Texture && b is Texture
    ||| a is Material && b is Material
    ||| a is Mesh && b is Mesh
    ||| a is Model && b is Model
}

/// Kind isolation in the catalog: a descriptor that is put in changes
/// nothing under a name of another kind, whatever the two names spell.
pub proof fn lemma_kinds_do_not_collide(
    assets: Map<AssetKey, AssetDescriptor>,
    descriptor: AssetDescriptor,
    other: AssetKey,
)
    requires
        !same_kind(descriptor.key(), other),
    ensures
        assets.insert(descriptor.key(), descriptor).contains_key(other) == assets.contains_key(
            other,
        ),
        assets.insert(descriptor.key(), descriptor)[other] == assets[other],
{
}

/// Kind isolation in resolution: a name that the catalog holds as a texture
/// only is not found as a model, exactly as if the catalog did not hold it
/// at all; and what the store holds as materials, meshes, pipelines and
/// models changes nothing for a texture.
pub proof fn lemma_kinds_resolve_apart<T, B, G, P>(
    spelling: Seq<char>,
    texture: TextureName,
    model: ModelName,
    assets: Map<AssetKey, AssetDescriptor>,
    store: Store<T, B, G, P>,
    other: Store<T, B, G, P>,
)
    requires
        texture@ == spelling,
        model@ == spelling,
        !assets.contains_key(AssetKey::Model(spelling)),
        other.textures() == store.textures(),
    ensures
        model.outcome(assets, &store) == ModelOutcome::<T, B, G, P>::Failed(
            LoadErrorView::Asset(
                AssetErrorView::AssetNotFound { key: tagged("Model"@, spelling) },
            ),
        ),
        texture.outcome(assets, &other) == texture.outcome(assets, &store),
{
}

/// In a catalog that keeps every descriptor under its own name and kind, no
/// resolution fails for a descriptor of the wrong kind.
pub proof fn lemma_kind_is_as_asked(assets: Map<AssetKey, AssetDescriptor>, key: AssetKey)
    requires
        catalog_wf(assets),
        assets.contains_key(key),
    ensures
        key is Texture <==> assets[key] is Texture,
        key is Material <==> assets[key] is Material,
        key is Mesh <==> assets[key] is Mesh,
        key is Model <==> assets[key] is Model,
{
    assert(assets[key].key() == key);
}

/// Where every geometry from `from` on has its material ready, none is
/// blocked.
proof fn lemma_none_blocked<T, B, G, P>(
    descriptor: ModelDescriptor,
    assets: Map<AssetKey, AssetDescriptor>,
    store: Store<T, B, G, P>,
    pipeline: Rc<NamedPipeline<P>>,
    geometries: Seq<Seq<char>>,
    from: int,
)
    requires
        forall|i: int|
            from <= i < geometries.len() ==> (#[trigger] descriptor.material_step(
                assets,
                &store,
                pipeline,
                geometries[i],
            )) is Ready,
    ensures
        descriptor.first_blocked(assets, &store, pipeline, geometries, from) is None,
    decreases geometries.len() - from,
{
    if 0 <= from < geometries.len() {
        lemma_none_blocked(descriptor, assets, store, pipeline, geometries, from + 1);
    }
}

/// What is blocked is not ready.
proof fn lemma_blocked_is_not_ready<T, B, G, P>(
    descriptor: ModelDescriptor,
    assets: Map<AssetKey, AssetDescriptor>,
    store: Store<T, B, G, P>,
    pipeline: Rc<NamedPipeline<P>>,
    geometries: Seq<Seq<char>>,
    from: int,
)
    ensures
        descriptor.first_blocked(assets, &store, pipeline, geometries, from) matches Some(
            blocked,
        ) ==> !(blocked is Ready),
        descriptor.first_blocked(assets, &store, pipeline, geometries, from) is None ==> forall|
            i: int,
        |
            0 <= from <= i < geometries.len() ==> (#[trigger] descriptor.material_step(
                assets,
                &store,
                pipeline,
                geometries[i],
            )) is Ready,
    decreases geometries.len() - from,
{
    if 0 <= from < geometries.len() {
        lemma_blocked_is_not_ready(descriptor, assets, store, pipeline, geometries, from + 1);
    }
}

/// The arity of materials. For a model that the store does not hold yet,
/// whose mesh is in the store and whose pipeline is registered:
///
/// - a pipeline with materials refuses every count of declared materials
///   but the number of geometries of the mesh;
/// - a pipeline without materials refuses every declared material;
/// - a pipeline with materials, with one material declared and ready for
///   each geometry and none declared for a geometry that the mesh does not
///   have, gives a model with as many materials as geometries.
pub proof fn lemma_material_arity<T, B, G, P>(
    descriptor: ModelDescriptor,
    assets: Map<AssetKey, AssetDescriptor>,
    store: Store<T, B, G, P>,
    mesh: Rc<MeshBuf<G>>,
)
    requires
        !store.models().contains_key(descriptor.name@),
        descriptor.mesh.outcome(assets, &store) == Outcome::<T, Rc<MeshBuf<G>>>::Ready(mesh),
        store.pipelines().contains_key(descriptor.pipeline_name@),
    ensures
        ({
            let pipeline = store.pipelines()[descriptor.pipeline_name@];
            let declared = descriptor.geometries_materials@.len();
            let geometries = mesh.geometries@.len();
            &&& pipeline.spec_needs_material() && declared != geometries ==> descriptor.outcome(
                assets,
                &store,
            ) == ModelOutcome::<T, B, G, P>::Failed(
                rejected(
                    ModelErrorView::InvalidMaterialCount {
                        model_name: descriptor.name@,
                        mesh_name: descriptor.mesh@,
                        descriptor_materials_count: declared,
                        model_geometries_count: geometries,
                    },
                ),
            )
            &&& !pipeline.spec_needs_material() && declared > 0 ==> descriptor.outcome(
                assets,
                &store,
            ) == ModelOutcome::<T, B, G, P>::Failed(
                rejected(
                    ModelErrorView::InvalidMaterialAndPipeline {
                        model: descriptor.name@,
                        pipeline: descriptor.pipeline_name@,
                        reason: no_material_expected(),
                    },
                ),
            )
            &&& pipeline.spec_needs_material() && declared == geometries && first_stray(
                descriptor.geometries_materials@,
                mesh.geometry_names(),
            ) is None && (forall|i: int|
                0 <= i < geometries ==> (#[trigger] descriptor.material_step(
                    assets,
                    &store,
                    pipeline,
                    mesh.geometry_names()[i],
                )) is Ready) ==> (descriptor.outcome(assets, &store) matches ModelOutcome::Built(
                model,
            ) && model.materials.len() == geometries)
        }),
{
    let pipeline = store.pipelines()[descriptor.pipeline_name@];
    let declared = descriptor.geometries_materials@.len();
    let geometries = mesh.geometries@.len();
    if pipeline.spec_needs_material() && declared == geometries && (forall|i: int|
        0 <= i < geometries ==> (#[trigger] descriptor.material_step(
            assets,
            &store,
            pipeline,
            mesh.geometry_names()[i],
        )) is Ready) {
        lemma_none_blocked(descriptor, assets, store, pipeline, mesh.geometry_names(), 0);
    }
}

/// Every model that resolution puts together has no material where its
/// pipeline draws without, and one material for each geometry of its mesh
/// where its pipeline draws with materials, each of a kind that the
/// pipeline accepts; and its descriptor declares no material for a geometry
/// that its mesh does not have.
pub proof fn lemma_built_model_fits<T, B, G, P>(
    descriptor: ModelDescriptor,
    assets: Map<AssetKey, AssetDescriptor>,
    store: Store<T, B, G, P>,
)
    ensures
        descriptor.outcome(assets, &store) matches ModelOutcome::Built(model) ==> {
            &&& model.name == descriptor.name@
            &&& !model.pipeline.spec_needs_material() ==> model.materials.len() == 0
            &&& model.pipeline.spec_needs_material() ==> model.materials.len()
                == model.mesh.geometries@.len()
            &&& forall|i: int|
                0 <= i < model.materials.len() ==> model.pipeline.spec_can_use(
                    (#[trigger] model.materials[i]).kind,
                )
            &&& first_stray(descriptor.geometries_materials@, model.mesh.geometry_names()) is None
        },
{
    if descriptor.outcome(assets, &store) is Built {
        let model = descriptor.outcome(assets, &store)->Built_0;
        let mesh = descriptor.mesh.outcome(assets, &store)->Ready_0;
        let pipeline = store.pipelines()[descriptor.pipeline_name@];
        if pipeline.spec_needs_material() {
            lemma_blocked_is_not_ready(descriptor, assets, store, pipeline, mesh.geometry_names(), 0);
            assert forall|i: int| 0 <= i < model.materials.len() implies model.pipeline.spec_can_use(
                (#[trigger] model.materials[i]).kind,
            ) by {
                assert(descriptor.material_step(assets, &store, pipeline, mesh.geometry_names()[i])
                    is Ready);
            }
        }
    }
}

/// Positional correspondence. In a model that resolution puts together for
/// a pipeline with materials, the material at each position is the one
/// that the descriptor declares for the geometry at that position of the
/// mesh: it is the material that the store keeps under the declared name,
/// and it bears that name.
pub proof fn lemma_materials_follow_geometries<T, B, G, P>(
    descriptor: ModelDescriptor,
    assets: Map<AssetKey, AssetDescriptor>,
    store: Store<T, B, G, P>,
)
    requires
        catalog_wf(assets),
        store.wf(),
    ensures
        descriptor.outcome(assets, &store) matches ModelOutcome::Built(model) ==> (
        model.pipeline.spec_needs_material() ==> forall|i: int|
            0 <= i < model.mesh.geometries@.len() ==> match material_of(
                descriptor.geometries_materials@,
                #[trigger] model.mesh.geometry_names()[i],
            ) {
                Some(declared) => {
                    &&& store.materials().contains_key(declared@)
                    &&& model.materials[i] == store.materials()[declared@]
                    &&& model.materials[i].name@ == declared@
                },
                None => false,
            }),
{
    if descriptor.outcome(assets, &store) is Built {
        let model = descriptor.outcome(assets, &store)->Built_0;
        let mesh = descriptor.mesh.outcome(assets, &store)->Ready_0;
        let pipeline = store.pipelines()[descriptor.pipeline_name@];
        let names = mesh.geometry_names();
        if pipeline.spec_needs_material() {
            lemma_blocked_is_not_ready(descriptor, assets, store, pipeline, names, 0);
            assert forall|i: int| 0 <= i < model.mesh.geometries@.len() implies match material_of(
                descriptor.geometries_materials@,
                #[trigger] model.mesh.geometry_names()[i],
            ) {
                Some(declared) => {
                    &&& store.materials().contains_key(declared@)
                    &&& model.materials[i] == store.materials()[declared@]
                    &&& model.materials[i].name@ == declared@
                },
                None => false,
            } by {
                assert(descriptor.material_step(assets, &store, pipeline, names[i]) is Ready);
                let declared = material_of(descriptor.geometries_materials@, names[i])->Some_0;
                let key = AssetKey::Material(declared@);
                assert(assets[key].key() == key);
            }
        }
    }
}

/// A pair of names as a mathematical value.
pub open spec fn pair_view(pair: (GeometryName, MaterialName)) -> (Seq<char>, Seq<char>) {
    (pair.0@, pair.1@)
}

/// Pairs of names as mathematical values.
pub open spec fn pair_views(pairs: Seq<(GeometryName, MaterialName)>) -> Seq<
    (Seq<char>, Seq<char>),
> {
    pairs.map_values(|pair: (GeometryName, MaterialName)| pair_view(pair))
}

/// No geometry is declared twice.
pub open spec fn declared_once(pairs: Seq<(GeometryName, MaterialName)>) -> bool {
    forall|i: int, j: int| 0 <= i < j < pairs.len() ==> pairs[i].0@ != pairs[j].0@
}

/// What is declared for a geometry is one of the pairs, and a geometry for
/// which nothing is declared is in none of them.
proof fn lemma_material_of_is_a_pair(pairs: Seq<(GeometryName, MaterialName)>, geometry: Seq<char>)
    ensures
        match material_of(pairs, geometry) {
            Some(material) => exists|i: int|
                0 <= i < pairs.len() && pairs[i].0@ == geometry && #[trigger] pairs[i].1
                    == material,
            None => forall|i: int| 0 <= i < pairs.len() ==> (#[trigger] pairs[i]).0@ != geometry,
        },
    decreases pairs.len(),
{
    if pairs.len() > 0 {
        if pairs[0].0@ == geometry {
            assert(pairs[0].1 == material_of(pairs, geometry)->Some_0);
        } else {
            let tail = pairs.drop_first();
            lemma_material_of_is_a_pair(tail, geometry);
            match material_of(tail, geometry) {
                Some(material) => {
                    let i = choose|i: int|
                        0 <= i < tail.len() && tail[i].0@ == geometry && #[trigger] tail[i].1
                            == material;
                    assert(pairs[i + 1].1 == material);
                },
                None => {
                    assert forall|i: int| 0 <= i < pairs.len() implies (#[trigger] pairs[i]).0@
                        != geometry by {
                        if i > 0 {
                            assert(tail[i - 1] == pairs[i]);
                        }
                    }
                },
            }
        }
    }
}

/// Where no geometry is declared twice, each pair is what is declared for
/// its geometry.
proof fn lemma_pair_is_material_of(pairs: Seq<(GeometryName, MaterialName)>, at: int)
    requires
        declared_once(pairs),
        0 <= at < pairs.len(),
    ensures
        material_of(pairs, pairs[at].0@) == Some(pairs[at].1),
    decreases pairs.len(),
{
    if at > 0 {
        let tail = pairs.drop_first();
        assert forall|i: int, j: int| 0 <= i < j < tail.len() implies tail[i].0@ != tail[j].0@ by {
            assert(tail[i] == pairs[i + 1]);
            assert(tail[j] == pairs[j + 1]);
        }
        assert(tail[at - 1] == pairs[at]);
        lemma_pair_is_material_of(tail, at - 1);
    }
}

/// Where two lists hold the same pairs, in whatever order, and neither
/// declares a geometry twice, both declare the same for every geometry.
proof fn lemma_same_pairs_declare_the_same(
    first: Seq<(GeometryName, MaterialName)>,
    second: Seq<(GeometryName, MaterialName)>,
    geometry: Seq<char>,
)
    requires
        pair_views(first).to_multiset() == pair_views(second).to_multiset(),
        declared_once(first),
        declared_once(second),
    ensures
        match material_of(first, geometry) {
            Some(material) => material_of(second, geometry) matches Some(other) && other@
                == material@,
            None => material_of(second, geometry) is None,
        },
{
    broadcast use vstd::seq_lib::to_multiset_contains;

    lemma_material_of_is_a_pair(first, geometry);
    lemma_material_of_is_a_pair(second, geometry);
    match material_of(first, geometry) {
        Some(material) => {
            let i = choose|i: int|
                0 <= i < first.len() && first[i].0@ == geometry && #[trigger] first[i].1
                    == material;
            let wanted = pair_view(first[i]);
            assert(pair_views(first)[i] == wanted);
            assert(pair_views(first).contains(wanted));
            assert(pair_views(first).to_multiset().count(wanted) > 0);
            assert(pair_views(second).to_multiset().count(wanted) > 0);
            assert(pair_views(second).contains(wanted));
            let j = choose|j: int| 0 <= j < pair_views(second).len() && pair_views(second)[j]
                == wanted;
            assert(pair_view(second[j]) == wanted);
            lemma_pair_is_material_of(second, j);
        },
        None => {
            match material_of(second, geometry) {
                Some(other) => {
                    let j = choose|j: int|
                        0 <= j < second.len() && second[j].0@ == geometry && #[trigger] second[j].1
                            == other;
                    let wanted = pair_view(second[j]);
                    assert(pair_views(second)[j] == wanted);
                    assert(pair_views(second).contains(wanted));
                    assert(pair_views(second).to_multiset().count(wanted) > 0);
                    assert(pair_views(first).to_multiset().count(wanted) > 0);
                    assert(pair_views(first).contains(wanted));
                    let i = choose|i: int| 0 <= i < pair_views(first).len() && pair_views(
                        first,
                    )[i] == wanted;
                    assert(pair_view(first[i]) == wanted);
                    assert(first[i].0@ == geometry);
                },
                None => {},
            }
        },
    }
}

/// Whether two descriptors differ at most in the order of their pairs: the
/// same names, the same pairs, and no geometry declared twice.
pub open spec fn same_but_for_order(first: ModelDescriptor, second: ModelDescriptor) -> bool {
    &&& first.name@ == second.name@
    &&& first.mesh@ == second.mesh@
    &&& first.pipeline_name@ == second.pipeline_name@
    &&& pair_views(first.geometries_materials@).to_multiset() == pair_views(
        second.geometries_materials@,
    ).to_multiset()
    &&& declared_once(first.geometries_materials@)
    &&& declared_once(second.geometries_materials@)
}

/// The search for the first blocked geometry ends alike for two descriptors
/// that differ in the order of their pairs only.
proof fn lemma_order_is_irrelevant_from<T, B, G, P>(
    first: ModelDescriptor,
    second: ModelDescriptor,
    assets: Map<AssetKey, AssetDescriptor>,
    store: Store<T, B, G, P>,
    pipeline: Rc<NamedPipeline<P>>,
    geometries: Seq<Seq<char>>,
    from: int,
)
    requires
        same_but_for_order(first, second),
    ensures
        first.first_blocked(assets, &store, pipeline, geometries, from) == second.first_blocked(
            assets,
            &store,
            pipeline,
            geometries,
            from,
        ),
        forall|i: int|
            0 <= i < geometries.len() ==> #[trigger] first.material_step(
                assets,
                &store,
                pipeline,
                geometries[i],
            ) == second.material_step(assets, &store, pipeline, geometries[i]),
    decreases geometries.len() - from,
{
    assert forall|i: int| 0 <= i < geometries.len() implies #[trigger] first.material_step(
        assets,
        &store,
        pipeline,
        geometries[i],
    ) == second.material_step(assets, &store, pipeline, geometries[i]) by {
        lemma_same_pairs_declare_the_same(
            first.geometries_materials@,
            second.geometries_materials@,
            geometries[i],
        );
    }
    if 0 <= from < geometries.len() {
        lemma_order_is_irrelevant_from(first, second, assets, store, pipeline, geometries, from + 1);
    }
}

/// A geometry is astray exactly where one of the pairs names a geometry
/// that is none of the given ones.
proof fn lemma_stray_is_a_pair(pairs: Seq<(GeometryName, MaterialName)>, geometries: Seq<Seq<char>>)
    ensures
        first_stray(pairs, geometries) is Some <==> exists|i: int|
            0 <= i < pairs.len() && !geometries.contains((#[trigger] pairs[i]).0@),
    decreases pairs.len(),
{
    if pairs.len() > 0 {
        let tail = pairs.drop_first();
        lemma_stray_is_a_pair(tail, geometries);
        if geometries.contains(pairs[0].0@) {
            if first_stray(tail, geometries) is Some {
                let i = choose|i: int|
                    0 <= i < tail.len() && !geometries.contains((#[trigger] tail[i]).0@);
                assert(pairs[i + 1] == tail[i]);
            }
            if exists|i: int| 0 <= i < pairs.len() && !geometries.contains((#[trigger] pairs[i]).0@) {
                let i = choose|i: int|
                    0 <= i < pairs.len() && !geometries.contains((#[trigger] pairs[i]).0@);
                assert(tail[i - 1] == pairs[i]);
            }
        }
    }
}

/// Where one of two lists of the same pairs names a geometry astray, so
/// does the other.
proof fn lemma_same_pairs_stray_alike(
    first: Seq<(GeometryName, MaterialName)>,
    second: Seq<(GeometryName, MaterialName)>,
    geometries: Seq<Seq<char>>,
)
    requires
        pair_views(first).to_multiset() == pair_views(second).to_multiset(),
        first_stray(first, geometries) is Some,
    ensures
        first_stray(second, geometries) is Some,
{
    broadcast use vstd::seq_lib::to_multiset_contains;

    lemma_stray_is_a_pair(first, geometries);
    lemma_stray_is_a_pair(second, geometries);
    let i = choose|i: int| 0 <= i < first.len() && !geometries.contains((#[trigger] first[i]).0@);
    let wanted = pair_view(first[i]);
    assert(pair_views(first)[i] == wanted);
    assert(pair_views(first).contains(wanted));
    assert(pair_views(first).to_multiset().count(wanted) > 0);
    assert(pair_views(second).to_multiset().count(wanted) > 0);
    assert(pair_views(second).contains(wanted));
    let j = choose|j: int| 0 <= j < pair_views(second).len() && pair_views(second)[j] == wanted;
    assert(pair_view(second[j]) == wanted);
    assert(!geometries.contains(second[j].0@));
}

/// Whether resolution failed for a material declared for a geometry that
/// the mesh does not have.
pub open spec fn is_astray<T, B, G, P>(outcome: ModelOutcome<T, B, G, P>) -> bool {
    outcome matches ModelOutcome::Failed(
        LoadErrorView::Model(ModelErrorView::GeometryNotFound { .. }),
    )
}

/// Positional correspondence, whatever the order of declaration: two
/// descriptors that differ in the order of their pairs only resolve alike,
/// to the same materials at the same positions. Where they declare a
/// material for a geometry that the mesh does not have, both fail for it,
/// each naming the first such geometry in its own order.
pub proof fn lemma_declaration_order_is_irrelevant<T, B, G, P>(
    first: ModelDescriptor,
    second: ModelDescriptor,
    assets: Map<AssetKey, AssetDescriptor>,
    store: Store<T, B, G, P>,
)
    requires
        same_but_for_order(first, second),
    ensures
        first.outcome(assets, &store) == second.outcome(assets, &store) || (is_astray(
            first.outcome(assets, &store),
        ) && is_astray(second.outcome(assets, &store))),
{
    vstd::seq_lib::to_multiset_len(pair_views(first.geometries_materials@));
    vstd::seq_lib::to_multiset_len(pair_views(second.geometries_materials@));
    assert(first.geometries_materials@.len() == second.geometries_materials@.len());
    if !store.models().contains_key(first.name@) {
        match first.mesh.outcome(assets, &store) {
            Outcome::Ready(mesh) => {
                if store.pipelines().contains_key(first.pipeline_name@) {
                    let pipeline = store.pipelines()[first.pipeline_name@];
                    let names = mesh.geometry_names();
                    lemma_order_is_irrelevant_from(first, second, assets, store, pipeline, names, 0);
                    assert(first.materials_in_order(assets, &store, pipeline, names)
                        =~= second.materials_in_order(assets, &store, pipeline, names));
                    if first_stray(first.geometries_materials@, names) is Some {
                        lemma_same_pairs_stray_alike(
                            first.geometries_materials@,
                            second.geometries_materials@,
                            names,
                        );
                    }
                    if first_stray(second.geometries_materials@, names) is Some {
                        lemma_same_pairs_stray_alike(
                            second.geometries_materials@,
                            first.geometries_materials@,
                            names,
                        );
                    }
                }
            },
            _ => {},
        }
    }
}

/// The last descriptor of a list that bears a name and kind, if one does.
pub open spec fn last_of(descriptors: Seq<AssetDescriptor>, key: AssetKey) -> Option<
    AssetDescriptor,
>
    decreases descriptors.len(),
{
    if descriptors.len() == 0 {
        None
    } else if descriptors.last().key() == key {
        Some(descriptors.last())
    } else {
        last_of(descriptors.drop_last(), key)
    }
}

/// The last write wins: after a list of descriptors was put in the
/// catalog, a name and kind holds the last descriptor of the list that
/// bears it, and what it held before where the list has none.
pub proof fn lemma_last_write_wins(
    assets: Map<AssetKey, AssetDescriptor>,
    descriptors: Seq<AssetDescriptor>,
    key: AssetKey,
)
    ensures
        with_all(assets, descriptors).contains_key(key) == (assets.contains_key(key) || last_of(
            descriptors,
            key,
        ) is Some),
        with_all(assets, descriptors)[key] == match last_of(descriptors, key) {
            Some(descriptor) => descriptor,
            None => assets[key],
        },
    decreases descriptors.len(),
{
    if descriptors.len() > 0 {
        lemma_last_write_wins(assets, descriptors.drop_last(), key);
    }
}

/// A catalog that keeps every descriptor under its own name and kind still
/// does so after a list of descriptors was put in.
pub proof fn lemma_catalog_stays_in_order(
    assets: Map<AssetKey, AssetDescriptor>,
    descriptors: Seq<AssetDescriptor>,
)
    requires
        catalog_wf(assets),
    ensures
        catalog_wf(with_all(assets, descriptors)),
    decreases descriptors.len(),
{
    if descriptors.len() > 0 {
        lemma_catalog_stays_in_order(assets, descriptors.drop_last());
    }
}

} // verus!
