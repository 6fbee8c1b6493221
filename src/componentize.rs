//! Embedding interface metadata into a core module and encoding the module
//! as a component.
use vstd::prelude::*;
use crate::paths::effective_sources;
use crate::text::views;
use crate::wit::{WitError, embed_metadata, error_text, metadata_section, parse_wit};
use wit_component::ComponentEncoder;

verus! {

#[verifier::external_type_specification]
#[verifier::external_body]
pub struct ExWatError(wat::Error);

/// The name under which the preview1 adapter is attached.
pub const ADAPTER_NAME: &'static str = "wasi_snapshot_preview1";

/// The WebAssembly magic number, which starts every binary module.
pub open spec fn has_wasm_magic(b: Seq<u8>) -> bool {
    b.len() >= 4 && b[0] == 0u8 && b[1] == 0x61u8 && b[2] == 0x73u8 && b[3] == 0x6du8
}

/// What `wat::parse_bytes` makes of `b`: the binary module, or `None` where
/// it reports an error.
pub uninterp spec fn wat_binary(b: Seq<u8>) -> Option<Seq<u8>>;

/// Relies on `wat::parse_bytes`: text is parsed and encoded as a binary
/// module; input that starts with the magic number is returned verbatim.
#[verifier::external_body]
fn parse_module_bytes(b: &[u8]) -> (r: Result<Vec<u8>, wat::Error>)
    ensures
        r matches Ok(v) ==> wat_binary(b@) == Some(v@),
        r is Err ==> wat_binary(b@) is None,
        r is Ok || !has_wasm_magic(b@),
        r matches Ok(v) ==> (has_wasm_magic(b@) ==> v@ == b@),
{
    wat::parse_bytes(b).map(|v| v.into_owned())
}

/// Relies on `wat::Error`'s `Display`: the error as text.
#[verifier::external_body]
fn wat_error_text(e: &wat::Error) -> String {
    format!("{e}")
}

/// Whether wasmparser's validator accepts `bytes` as a module with every
/// proposal enabled except that exception handling (with its legacy form)
/// and stack switching are enabled as `exceptions` and `stack_switching`
/// say.
pub uninterp spec fn validates_with_proposals(bytes: Seq<u8>, exceptions: bool, stack_switching: bool) -> bool;

/// Relies on `wasmparser::Validator::new_with_features` and `validate_all`,
/// which checks every function body and refuses an instruction of a
/// proposal that is not enabled.
#[verifier::external_body]
fn validate_module(bytes: &[u8], exceptions: bool, stack_switching: bool) -> (r: bool)
    ensures
        r == validates_with_proposals(bytes@, exceptions, stack_switching),
{
    let mut features = wasmparser::WasmFeatures::all();
    features.set(wasmparser::WasmFeatures::EXCEPTIONS, exceptions);
    features.set(wasmparser::WasmFeatures::LEGACY_EXCEPTIONS, exceptions);
    features.set(wasmparser::WasmFeatures::STACK_SWITCHING, stack_switching);
    wasmparser::Validator::new_with_features(features).validate_all(bytes).is_ok()
}

/// An adapter that the encoder can take: a valid module without
/// exception-handling or stack-switching instructions (so without
/// `try_table` and the `resume` family, which the encoder's clean-up of
/// adapters does not handle).
pub open spec fn adapter_admitted(adapter: Seq<u8>) -> bool {
    validates_with_proposals(adapter, false, false)
}

/// What `wit_component::ComponentEncoder` makes, with validation on, of the
/// core module `module` and the adapter `adapter` attached under `name`: the
/// component's bytes, or `None` where it reports an error.
pub uninterp spec fn component_of(module: Seq<u8>, name: Seq<char>, adapter: Seq<u8>) -> Option<Seq<u8>>;

/// Relies on `ComponentEncoder::default`, `ComponentEncoder::validate(true)`,
/// `ComponentEncoder::module`, `ComponentEncoder::adapter` and
/// `ComponentEncoder::encode`: the validated component built from the core
/// module and the adapter. The result depends on these bytes and the name
/// alone.
///
/// wit-component 0.262 stops with `unimplemented!` (in its clean-up of
/// adapters, `gc.rs`) on `try_table` and on `resume`-family instructions;
/// validation without the exception-handling and stack-switching proposals
/// leaves those out.
#[verifier::external_body]
fn encode_with_adapter(module: &[u8], name: &str, adapter: &[u8]) -> (r: Result<Vec<u8>, anyhow::Error>)
    requires
        adapter_admitted(adapter@),
    ensures
        r matches Ok(c) ==> component_of(module@, name@, adapter@) == Some(c@),
        r is Err ==> component_of(module@, name@, adapter@) is None,
{
    let mut encoder = ComponentEncoder::default();
    encoder.validate(true);
    encoder.module(module)?;
    encoder.adapter(name, adapter)?;
    encoder.encode()
}

/// The outcome of encoding `module` (binary or text form) with `adapter`:
/// the component, or `None` where parsing fails, the adapter is not
/// admitted, or encoding fails.
pub open spec fn component_result(module: Seq<u8>, adapter: Seq<u8>) -> Option<Seq<u8>> {
    match wat_binary(module) {
        Some(b) => if adapter_admitted(adapter) {
            component_of(b, ADAPTER_NAME@, adapter)
        } else {
            None
        },
        None => None,
    }
}

/// A module in text form and its binary encoding give the same component,
/// or both fail. (`wat` hands binary input back verbatim, which is what the
/// second requirement says of `b`.)
pub proof fn lemma_text_and_binary_agree(t: Seq<u8>, b: Seq<u8>, adapter: Seq<u8>)
    requires
        wat_binary(t) == Some(b),
        wat_binary(b) == Some(b),
    ensures
        component_result(t, adapter) == component_result(b, adapter),
{
}

/// When the encoder refuses the parsed module (for instance because its
/// metadata claims an export that the module lacks), no component comes
/// out.
pub proof fn lemma_refused_module_gives_no_component(module: Seq<u8>, adapter: Seq<u8>, b: Seq<u8>)
    requires
        wat_binary(module) == Some(b),
        component_of(b, ADAPTER_NAME@, adapter) is None,
    ensures
        component_result(module, adapter) is None,
{
}

/// Why a module could not be given metadata or turned into a component.
pub enum ComponentError {
    /// The bytes are neither a binary module nor its text form.
    Parse(String),
    /// The interface documents could not be resolved.
    Resolve(WitError),
    /// The metadata could not be encoded.
    Embed(String),
    /// The adapter is not a valid module free of exception-handling and
    /// stack-switching instructions.
    UnsupportedAdapter,
    /// Encoding (and validating) the component failed.
    Encode(String),
}

/// Reads `module` (binary or text form) and appends to it the metadata of
/// the interface documents that `wit_path`, `world` and the features
/// resolve to.
pub fn embed_wit(
    module: &Vec<u8>,
    wit_path: &Vec<String>,
    world: Option<String>,
    features: &Vec<String>,
    all_features: bool,
) -> (r: Result<Vec<u8>, ComponentError>)
    ensures
        (r matches Err(ComponentError::Parse(_))) <==> wat_binary(module@) is None,
        r matches Ok(out) ==> match wat_binary(module@) {
            Some(b) => exists|d: Seq<u8>| out@ == b + #[trigger] metadata_section(d),
            None => false,
        },
        r matches Err(ComponentError::Resolve(WitError::Load { path, .. }))
            ==> effective_sources(views(wit_path@)).contains(path@),
{
    let mut wasm = match parse_module_bytes(module.as_slice()) {
        Ok(v) => v,
        Err(e) => return Err(ComponentError::Parse(wat_error_text(&e))),
    };
    let graph = match parse_wit(wit_path, world, features, all_features) {
        Ok(g) => g,
        Err(e) => return Err(ComponentError::Resolve(e)),
    };
    match embed_metadata(&mut wasm, &graph) {
        Ok(()) => Ok(wasm),
        Err(e) => Err(ComponentError::Embed(error_text(&e))),
    }
}

/// Encodes `module` (binary or text form, with its metadata embedded) as a
/// validated component, with `adapter` attached as the preview1 adapter.
/// An adapter that is not admitted is refused before the encoder sees it.
pub fn core_module_to_component(module: &Vec<u8>, adapter: &Vec<u8>) -> (r: Result<Vec<u8>, ComponentError>)
    ensures
        (r matches Err(ComponentError::Parse(_))) <==> wat_binary(module@) is None,
        (r matches Err(ComponentError::UnsupportedAdapter)) <==> (wat_binary(module@) is Some
            && !adapter_admitted(adapter@)),
        r matches Ok(c) ==> component_result(module@, adapter@) == Some(c@),
        r is Err ==> component_result(module@, adapter@) is None,
        has_wasm_magic(module@) ==> wat_binary(module@) == Some(module@),
{
    let wasm = match parse_module_bytes(module.as_slice()) {
        Ok(v) => v,
        Err(e) => return Err(ComponentError::Parse(wat_error_text(&e))),
    };
    if !validate_module(adapter.as_slice(), false, false) {
        return Err(ComponentError::UnsupportedAdapter);
    }
    match encode_with_adapter(wasm.as_slice(), ADAPTER_NAME, adapter.as_slice()) {
        Ok(bytes) => Ok(bytes),
        Err(e) => Err(ComponentError::Encode(error_text(&e))),
    }
}

} // verus!
