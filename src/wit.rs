//! Resolving interface documents into one package graph and selecting the
//! world to target.
use vstd::prelude::*;
use crate::features::{FeatureSet, all_feature_tokens};
use crate::paths::{effective_sources, wit_source_paths};
use crate::text::views;
use wit_parser::{Package, Resolve, World};
use id_arena::Id;

verus! {

#[verifier::external_type_specification]
#[verifier::external_body]
pub struct ExResolve(wit_parser::Resolve);

#[verifier::external_type_specification]
#[verifier::external_body]
pub struct ExPackage(wit_parser::Package);

#[verifier::external_type_specification]
#[verifier::external_body]
pub struct ExWorld(wit_parser::World);

#[verifier::external_type_specification]
#[verifier::external_body]
#[verifier::reject_recursive_types(T)]
pub struct ExId<T>(id_arena::Id<T>);

#[verifier::external_type_specification]
#[verifier::external_body]
pub struct ExAnyhowError(anyhow::Error);

/// Relies on anyhow's `Display` (alternate form): the error with its chain
/// of causes, as text.
#[verifier::external_body]
pub(crate) fn error_text(e: &anyhow::Error) -> String {
    format!("{e:#}")
}

/// A graph being loaded, with the root package of each source loaded so
/// far. Its fields are private: the package ids come from this graph alone.
pub struct WitLoader {
    resolve: Resolve,
    main_packages: Vec<Id<Package>>,
}

impl WitLoader {
    /// How many sources have been loaded.
    pub closed spec fn package_count(&self) -> nat {
        self.main_packages@.len()
    }
}

/// Relies on `Resolve::default`: an empty graph with the given features
/// switched on, and no package loaded yet.
#[verifier::external_body]
fn new_loader(all_features: bool, features: &Vec<String>) -> (r: WitLoader)
    ensures
        r.package_count() == 0,
{
    let resolve = Resolve {
        all_features,
        features: features.iter().cloned().collect(),
        ..Default::default()
    };
    WitLoader { resolve, main_packages: Vec::new() }
}

/// Relies on `Resolve::push_path`: loads a directory, a document or an
/// encoded package into the graph; its root package is recorded.
#[verifier::external_body]
fn push_path(loader: &mut WitLoader, path: &str) -> (r: Result<(), anyhow::Error>)
    ensures
        r is Ok ==> final(loader).package_count() == old(loader).package_count() + 1,
{
    let (pkg, _) = loader.resolve.push_path(path)?;
    loader.main_packages.push(pkg);
    Ok(())
}

/// Relies on `Resolve::select_world`: the world that `world` names among the
/// loaded root packages, or the single default one when no name is given.
#[verifier::external_body]
fn select_world(loader: &WitLoader, world: &Option<String>) -> Result<Id<World>, anyhow::Error> {
    loader.resolve.select_world(&loader.main_packages, world.as_deref())
}

/// `n` in unsigned LEB128, as WebAssembly writes sizes.
pub open spec fn leb128(n: nat) -> Seq<u8>
    decreases n,
{
    if n < 128 {
        seq![n as u8]
    } else {
        seq![((n % 128) + 128) as u8] + leb128(n / 128)
    }
}

/// The bytes of the name `component-type`.
pub open spec fn component_type_name() -> Seq<u8> {
    seq![99u8, 111u8, 109u8, 112u8, 111u8, 110u8, 101u8, 110u8, 116u8, 45u8, 116u8, 121u8, 112u8, 101u8]
}

/// A custom section (id 0) named `component-type` holding `data`: its size,
/// then the name with its length, then the data.
pub open spec fn metadata_section(data: Seq<u8>) -> Seq<u8> {
    seq![0u8] + leb128(15 + data.len()) + seq![14u8] + component_type_name() + data
}

/// Relies on `wit_component::embed_component_metadata` with UTF-8 strings:
/// it encodes the graph's selected world and then appends it to `wasm` as
/// one `component-type` custom section (wasm-encoder's `CustomSection`);
/// when encoding fails `wasm` is left as it was.
#[verifier::external_body]
pub(crate) fn embed_metadata(wasm: &mut Vec<u8>, graph: &WitGraph) -> (r: Result<(), anyhow::Error>)
    ensures
        r is Ok ==> exists|d: Seq<u8>| final(wasm)@ == old(wasm)@ + #[trigger] metadata_section(d),
        r is Err ==> final(wasm)@ == old(wasm)@,
{
    wit_component::embed_component_metadata(
        wasm,
        &graph.loader.resolve,
        graph.world,
        wit_component::StringEncoding::UTF8,
        false,
    )
}

/// A resolved package graph with its selected world. Only resolution
/// builds one, so the world belongs to the graph.
pub struct WitGraph {
    loader: WitLoader,
    world: Id<World>,
    sources: Vec<String>,
    features: FeatureSet,
}

impl WitGraph {
    /// How many root packages were loaded, one per source.
    pub closed spec fn package_count(&self) -> nat {
        self.loader.package_count()
    }

    /// The sources that were loaded, in order.
    pub closed spec fn loaded_sources(&self) -> Seq<Seq<char>> {
        views(self.sources@)
    }

    /// The features that the graph was resolved with.
    pub closed spec fn enabled_features(&self) -> FeatureSet {
        self.features
    }

    /// The sources that were loaded, in order.
    pub fn sources(&self) -> (r: &Vec<String>)
        ensures
            views(r@) == self.loaded_sources(),
    {
        &self.sources
    }

    /// The features that the graph was resolved with.
    pub fn features(&self) -> (r: &FeatureSet)
        ensures
            *r == self.enabled_features(),
    {
        &self.features
    }

    /// The graph.
    pub fn resolve(&self) -> &Resolve {
        &self.loader.resolve
    }

    /// The selected world.
    pub fn world(&self) -> Id<World> {
        self.world
    }
}

/// Why interface documents could not be resolved.
pub enum WitError {
    /// A source could not be loaded.
    Load { path: String, message: String },
    /// No world, or no single default world, could be selected.
    SelectWorld(String),
}

/// Resolves the interface documents at `paths` (the `wit` directory when
/// none is given), each loaded in order with one main package each, with
/// the features of `features` enabled, and selects `world` (or the default
/// world) among the main packages.
pub fn parse_wit(paths: &Vec<String>, world: Option<String>, features: &Vec<String>, all_features: bool) -> (r: Result<WitGraph, WitError>)
    ensures
        r matches Ok(g) ==> {
            &&& g.loaded_sources() == effective_sources(views(paths@))
            &&& g.package_count() == g.loaded_sources().len()
            &&& g.enabled_features().wf()
            &&& g.enabled_features().all_features == all_features
            &&& g.enabled_features().name_set() == all_feature_tokens(views(features@)).to_set()
        },
        r matches Err(WitError::Load { path, .. }) ==> effective_sources(views(paths@)).contains(path@),
{
    let sources = wit_source_paths(paths);
    let feature_set = FeatureSet::parse(features, all_features);
    let mut loader = new_loader(all_features, &feature_set.names);
    let mut i: usize = 0;
    while i < sources.len()
        invariant
            i <= sources@.len(),
            loader.package_count() == i,
            views(sources@) == effective_sources(views(paths@)),
        decreases sources.len() - i,
    {
        match push_path(&mut loader, sources[i].as_str()) {
            Ok(()) => {},
            Err(e) => {
                let path = sources[i].clone();
                assert(views(sources@)[i as int] == path@);
                assert(views(sources@).contains(path@));
                return Err(WitError::Load { path, message: error_text(&e) });
            },
        }
        i = i + 1;
    }
    match select_world(&loader, &world) {
        Ok(w) => Ok(WitGraph { loader, world: w, sources, features: feature_set }),
        Err(e) => Err(WitError::SelectWorld(error_text(&e))),
    }
}

} // verus!
