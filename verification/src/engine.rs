//! The script-engine adapter and the compiled-program handle.
//!
//! An engine is an interpreter instance with a fixed set of registered
//! capability modules.  A [`Program`] bundles one compiled script with the
//! engine that produced it: the two share a lifetime, and releasing the
//! handle releases both together.

use vstd::prelude::*;

verus! {

#[verifier::external_type_specification]
#[verifier::external_body]
pub struct ExEngine(rhai::Engine);

#[verifier::external_type_specification]
#[verifier::external_body]
pub struct ExAst(rhai::AST);

/// Which capability modules an interpreter instance is built with.
#[derive(Clone, Copy)]
pub struct Capabilities {
    pub random: bool,
    pub filesystem: bool,
    pub url: bool,
    pub scientific: bool,
}

impl Capabilities {
    /// The full capability set, as used by the boundary operations.
    pub fn all() -> (r: Capabilities)
        ensures
            r.random && r.filesystem && r.url && r.scientific,
    {
        Capabilities { random: true, filesystem: true, url: true, scientific: true }
    }
}

/// An immutable compiled program bundled with the engine that produced it.
///
/// The handle owns both; dropping it (see `release_program`) releases both
/// together.  Evaluation takes the handle by shared reference and so cannot
/// mutate it: a program may be evaluated any number of times before it is
/// released.
pub struct Program {
    pub(crate) engine: rhai::Engine,
    pub(crate) ast: rhai::AST,
}

/// Relies on rhai::Engine::new to build a fresh interpreter instance with
/// no capability modules registered.
#[verifier::external_body]
fn engine_new() -> rhai::Engine {
    rhai::Engine::new()
}

/// Relies on rhai_rand::RandomPackage and
/// rhai::Engine::register_global_module (via
/// rhai::packages::Package::as_shared_module) to add the randomness
/// functions to the engine's global namespace.
#[verifier::external_body]
fn add_random_module(engine: &mut rhai::Engine) {
    engine.register_global_module(rhai::packages::Package::as_shared_module(
        &rhai_rand::RandomPackage::new(),
    ));
}

/// Relies on rhai_fs::FilesystemPackage and
/// rhai::Engine::register_global_module to add the filesystem functions to
/// the engine's global namespace.
#[verifier::external_body]
fn add_filesystem_module(engine: &mut rhai::Engine) {
    engine.register_global_module(rhai::packages::Package::as_shared_module(
        &rhai_fs::FilesystemPackage::new(),
    ));
}

/// Relies on rhai_url::UrlPackage and rhai::Engine::register_global_module
/// to add the URL functions to the engine's global namespace.
#[verifier::external_body]
fn add_url_module(engine: &mut rhai::Engine) {
    engine.register_global_module(rhai::packages::Package::as_shared_module(
        &rhai_url::UrlPackage::new(),
    ));
}

/// Relies on rhai_sci::SciPackage and rhai::Engine::register_global_module
/// to add the scientific functions to the engine's global namespace.
#[verifier::external_body]
fn add_sci_module(engine: &mut rhai::Engine) {
    engine.register_global_module(rhai::packages::Package::as_shared_module(
        &rhai_sci::SciPackage::new(),
    ));
}

/// Build an interpreter instance and register the requested capability
/// modules as global, always-available function sets.  Module namespaces do
/// not collide, so registration order does not affect observable behavior.
pub fn new_engine(capabilities: &Capabilities) -> rhai::Engine {
    let mut engine = engine_new();
    if capabilities.random {
        add_random_module(&mut engine);
    }
    if capabilities.filesystem {
        add_filesystem_module(&mut engine);
    }
    if capabilities.url {
        add_url_module(&mut engine);
    }
    if capabilities.scientific {
        add_sci_module(&mut engine);
    }
    engine
}

/// The outcome of compiling script text with an engine built by
/// [`new_engine`]: `None` when the script parses, otherwise the parser's
/// rendered error message (with position), a function of the text alone —
/// capability modules contribute functions, not grammar.
pub uninterp spec fn script_parse_error(script: Seq<char>) -> Option<Seq<char>>;

/// Relies on rhai::Engine::compile: it parses and statically prepares the
/// script without executing it, succeeds exactly when the text is
/// well-formed, and renders its error deterministically from the text alone
/// (the engines this crate builds differ only in registered modules, which
/// do not affect parsing).
#[verifier::external_body]
pub(crate) fn engine_compile(engine: &rhai::Engine, script: &str) -> (r: Result<
    rhai::AST,
    String,
>)
    ensures
        r is Ok <==> script_parse_error(script@) is None,
        r matches Err(m) ==> script_parse_error(script@) == Some(m@),
{
    match engine.compile(script) {
        Ok(ast) => Ok(ast),
        Err(error) => Err(format!("{}", error)),
    }
}

/// Relies on rhai::Engine::eval_ast::<rhai::Dynamic>: it runs the program
/// with an empty scope.  The outcome may depend on the capability modules
/// (random numbers, the filesystem, the network), so nothing is promised of
/// it.
#[verifier::external_body]
pub(crate) fn eval_no_context(engine: &rhai::Engine, ast: &rhai::AST) -> Result<
    rhai::Dynamic,
    String,
> {
    match engine.eval_ast::<rhai::Dynamic>(ast) {
        Ok(output) => Ok(output),
        Err(error) => Err(format!("{}", error)),
    }
}

/// Relies on rhai::Scope::new, rhai::Scope::push and
/// rhai::Engine::eval_ast_with_scope::<rhai::Dynamic>: it runs the program
/// with a fresh, call-scoped scope holding the one given binding.  The
/// outcome may depend on the capability modules, so nothing is promised of
/// it.
#[verifier::external_body]
pub(crate) fn eval_with_binding(
    engine: &rhai::Engine,
    ast: &rhai::AST,
    name: &str,
    value: rhai::Dynamic,
) -> Result<rhai::Dynamic, String> {
    let mut scope = rhai::Scope::new();
    scope.push(name, value);
    match engine.eval_ast_with_scope::<rhai::Dynamic>(&mut scope, ast) {
        Ok(output) => Ok(output),
        Err(error) => Err(format!("{}", error)),
    }
}

} // verus!
