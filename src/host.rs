//! The Rhai engine and the std items the sandbox relies on, with the
//! contracts the library assumes of them.
use vstd::prelude::*;
use crate::command::{Command, emit_anim, emit_move};
use rhai::packages::Package;
use std::cell::RefCell;
use std::rc::Rc;

verus! {

/// Rhai's `Engine`, carried as an opaque value.
#[verifier::external_type_specification]
#[verifier::external_body]
pub struct ExEngine(rhai::Engine);

/// Rhai's compiled script, carried as an opaque value.
#[verifier::external_type_specification]
#[verifier::external_body]
pub struct ExAst(rhai::AST);

/// Rhai's variable scope, carried as an opaque value.
#[verifier::external_type_specification]
#[verifier::external_body]
pub struct ExScope<'a>(rhai::Scope<'a>);

/// Rhai's compile error; only its message is read.
#[verifier::external_type_specification]
#[verifier::external_body]
pub struct ExParseError(rhai::ParseError);

/// Rhai's runtime error; only its message is read.
#[verifier::external_type_specification]
#[verifier::external_body]
pub struct ExEvalAltResult(rhai::EvalAltResult);

/// std's `RefCell`, which holds the command channel that the capability
/// functions share with the sandbox.
#[verifier::external_type_specification]
#[verifier::external_body]
#[verifier::reject_recursive_types(T)]
pub struct ExRefCell<T: ?Sized>(std::cell::RefCell<T>);

/// Relies on `RefCell::new`, which makes a cell holding `value`.
pub assume_specification<T>[ std::cell::RefCell::<T>::new ](value: T) -> std::cell::RefCell<T>;

/// Relies on `Scope::new`, which makes an empty variable scope.
pub assume_specification<'a>[ rhai::Scope::<'a>::new ]() -> rhai::Scope<'a>;

/// Relies on `Scope`'s `Clone`, which copies every variable with its access
/// mode, so the copy holds the same bindings.
pub assume_specification<'a>[ <rhai::Scope<'a> as Clone>::clone ](s: &rhai::Scope<'a>) -> (r: rhai::Scope<'a>)
    ensures
        r == *s,
;

/// What `Engine::max_operations` reports: the ceiling on operations per
/// evaluation, 0 when there is none.
pub uninterp spec fn ops_limit(e: rhai::Engine) -> u64;

/// What `Engine::compile` returns for `source` on engine `e`; parsing
/// depends on the engine and the text alone.
pub uninterp spec fn compile_result(e: rhai::Engine, source: Seq<char>) -> Result<rhai::AST, rhai::ParseError>;

/// The engine `e` has two host functions besides its packages: `move_name`,
/// taking an integer `dx` and appending `Command::Move { dx }` to `sink`
/// through `emit_move`, and `anim_name`, taking a string and appending
/// `Command::Anim` of it through `emit_anim`. Neither reads, removes or
/// reorders what `sink` holds, and neither touches anything else.
pub uninterp spec fn records_commands(
    e: rhai::Engine,
    sink: Rc<RefCell<Vec<Command>>>,
    move_name: Seq<char>,
    anim_name: Seq<char>,
) -> bool;

/// `after` and `result` are a possible end of running the top-level
/// statements of `ast` on `e`, starting from an empty scope, and `emitted`
/// lists, in the order they were made, the commands that the engine's host
/// functions appended to `sink` during that run.
pub uninterp spec fn ran_top_level(
    e: rhai::Engine,
    sink: Rc<RefCell<Vec<Command>>>,
    ast: rhai::AST,
    after: rhai::Scope<'static>,
    result: Result<(), Box<rhai::EvalAltResult>>,
    emitted: Seq<Command>,
) -> bool;

/// `after` and `result` are a possible end of calling the script function
/// `name` of `ast` on `e` with arguments `(a, b)`, starting from scope `s`,
/// and `emitted` lists, in the order they were made, the commands that the
/// engine's host functions appended to `sink` during that call.
pub uninterp spec fn ran_entry(
    e: rhai::Engine,
    sink: Rc<RefCell<Vec<Command>>>,
    ast: rhai::AST,
    s: rhai::Scope<'static>,
    name: Seq<char>,
    a: i64,
    b: i64,
    after: rhai::Scope<'static>,
    result: Result<(), Box<rhai::EvalAltResult>>,
    emitted: Seq<Command>,
) -> bool;

/// The scope `s` with `name` bound to the integer `v`.
pub uninterp spec fn with_int(s: rhai::Scope<'static>, name: Seq<char>, v: i64) -> rhai::Scope<'static>;

/// Relies on `Engine::new_raw`: an engine with no functions registered.
#[verifier::external_body]
pub(crate) fn raw_engine() -> rhai::Engine {
    rhai::Engine::new_raw()
}

/// Relies on `Engine::register_global_module`, given Rhai's standard package
/// (arithmetic, strings, arrays, `is_def` and the like, none of them host I/O).
#[verifier::external_body]
pub(crate) fn add_standard_package(engine: &mut rhai::Engine) {
    engine.register_global_module(rhai::packages::StandardPackage::new().as_shared_module());
}

/// Relies on `Engine::register_fn`: scripts may then call `move_name(dx)`
/// and `anim_name(name)`, whose closures only hand their argument to
/// `emit_move` or `emit_anim` on the channel in `sink`. Registering a
/// function leaves the operation ceiling alone.
#[verifier::external_body]
pub(crate) fn register_capabilities(
    engine: &mut rhai::Engine,
    sink: &Rc<RefCell<Vec<Command>>>,
    move_name: &str,
    anim_name: &str,
)
    ensures
        records_commands(*final(engine), *sink, move_name@, anim_name@),
        ops_limit(*final(engine)) == ops_limit(*old(engine)),
{
    let moves = Rc::clone(sink);
    engine.register_fn(move_name, move |dx: i64| emit_move(&mut moves.borrow_mut(), dx));
    let anims = Rc::clone(sink);
    engine.register_fn(anim_name, move |name: &str| emit_anim(&mut anims.borrow_mut(), name));
}

/// Relies on `Engine::set_max_operations`: every later evaluation on this
/// engine aborts with an error once it has run `limit` operations, and
/// `max_operations` then reports `limit`.
#[verifier::external_body]
pub(crate) fn limit_operations(engine: &mut rhai::Engine, limit: u64)
    ensures
        ops_limit(*final(engine)) == limit,
{
    engine.set_max_operations(limit);
}

/// Relies on `Engine::compile`: parses a script into an `AST`, or reports
/// why it cannot.
#[verifier::external_body]
pub(crate) fn compile_script(engine: &rhai::Engine, source: &str) -> (r: Result<rhai::AST, rhai::ParseError>)
    ensures
        r == compile_result(*engine, source@),
{
    engine.compile(source)
}

/// Relies on `Scope::new` and `Engine::eval_ast_with_scope`: runs the
/// top-level statements of `ast` once on an empty scope and hands back that
/// scope, the result (its value dropped) and what the host functions
/// appended to `sink` meanwhile, taken with `RefCell::take`. With an
/// operation ceiling the run ends.
#[verifier::external_body]
pub(crate) fn run_top_level(
    engine: &rhai::Engine,
    sink: &Rc<RefCell<Vec<Command>>>,
    ast: &rhai::AST,
) -> (r: (rhai::Scope<'static>, Result<(), Box<rhai::EvalAltResult>>, Vec<Command>))
    requires
        ops_limit(*engine) > 0,
    ensures
        ran_top_level(*engine, *sink, *ast, r.0, r.1, r.2@),
{
    let _ = sink.take();
    let mut scope = rhai::Scope::new();
    let res = engine.eval_ast_with_scope::<rhai::Dynamic>(&mut scope, ast).map(|_| ());
    (scope, res, sink.take())
}

/// Relies on `Engine::call_fn`: runs the top-level statements of `ast`
/// against `scope`, then calls the script function `name` with the two
/// integer arguments; the value it returns is dropped. Hands back the result
/// and what the host functions appended to `sink` meanwhile, taken with
/// `RefCell::take`. With an operation ceiling the call ends.
#[verifier::external_body]
pub(crate) fn call_entry(
    engine: &rhai::Engine,
    sink: &Rc<RefCell<Vec<Command>>>,
    scope: &mut rhai::Scope<'static>,
    ast: &rhai::AST,
    name: &str,
    first: i64,
    second: i64,
) -> (r: (Result<(), Box<rhai::EvalAltResult>>, Vec<Command>))
    requires
        ops_limit(*engine) > 0,
    ensures
        ran_entry(*engine, *sink, *ast, *old(scope), name@, first, second, *final(scope), r.0, r.1@),
{
    let _ = sink.take();
    let res = engine.call_fn::<rhai::Dynamic>(scope, ast, name, (first, second)).map(|_| ());
    (res, sink.take())
}

/// Relies on `Scope::set_or_push`: binds `name` to the integer `value`.
#[verifier::external_body]
pub(crate) fn bind_integer(scope: &mut rhai::Scope<'static>, name: &str, value: i64)
    ensures
        *final(scope) == with_int(*old(scope), name@, value),
{
    scope.set_or_push(name, value);
}

} // verus!
