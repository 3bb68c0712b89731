//! The sandbox controller: load a script, run it once per frame, drain the
//! commands it emitted, and keep the last error for the caller to collect.
use vstd::prelude::*;
use crate::command::{Command, commands_json, encode_commands};
use crate::host::{
    add_standard_package, bind_integer, call_entry, compile_result, compile_script, limit_operations,
    ops_limit, ran_entry, ran_top_level, raw_engine, records_commands, register_capabilities,
    run_top_level, with_int,
};
use vstd::string::to_string_from_display_ensures;
use std::cell::RefCell;
use std::rc::Rc;

verus! {

/// The ceiling on interpreter operations for each script invocation.
pub const MAX_OPERATIONS: u64 = 50_000;

/// One script instance: the engine with its capability functions, the
/// loaded program, its persistent scope, the commands waiting for the next
/// frame, and the last error.
pub struct Sandbox {
    engine: rhai::Engine,
    sink: Rc<RefCell<Vec<Command>>>,
    program: Option<rhai::AST>,
    scope: rhai::Scope<'static>,
    pending: Vec<Command>,
    last_error: Option<String>,
}

/// What settling a frame does: `pre` becomes `post` and the frame yields `r`,
/// after the invocation ran on `working` with `outcome` and emitted `emitted`.
pub open spec fn settled(
    pre: Sandbox,
    working: rhai::Scope<'static>,
    outcome: Result<(), String>,
    emitted: Seq<Command>,
    post: Sandbox,
    r: Seq<Command>,
) -> bool {
    &&& post.host() == pre.host()
    &&& post.program() == pre.program()
    &&& post.pending() == Seq::<Command>::empty()
    &&& outcome is Ok ==> {
        &&& r == pre.pending() + emitted
        &&& post.scope() == working
        &&& post.last_error() == pre.last_error()
    }
    &&& outcome is Err ==> {
        &&& r == Seq::<Command>::empty()
        &&& post.scope() == pre.scope()
        &&& post.last_error() == Some(outcome->Err_0@)
    }
}

/// The scope a frame's script runs in: the persistent scope with `INPUT`
/// bound to the input mask.
pub open spec fn frame_scope(pre: Sandbox, input_mask: u32) -> rhai::Scope<'static> {
    with_int(pre.scope(), "INPUT"@, input_mask as i64)
}

/// `outcome` is how the sandbox reports the engine's `result`: `Ok` for
/// success, otherwise the display text of the engine's error.
pub open spec fn reported(result: Result<(), Box<rhai::EvalAltResult>>, outcome: Result<(), String>) -> bool {
    &&& (result is Ok <==> outcome is Ok)
    &&& result is Err ==> to_string_from_display_ensures::<Box<rhai::EvalAltResult>>(
        &result->Err_0,
        outcome->Err_0,
    )
}

/// One frame with a program: the program's `tick(frame, input_mask)` was
/// called on the engine in the frame scope, ended in `working` with
/// `result` while the host functions appended `emitted`, and the frame was
/// settled with that outcome as reported.
pub open spec fn frame_run(
    pre: Sandbox,
    frame: u32,
    input_mask: u32,
    working: rhai::Scope<'static>,
    result: Result<(), Box<rhai::EvalAltResult>>,
    outcome: Result<(), String>,
    emitted: Seq<Command>,
    post: Sandbox,
    r: Seq<Command>,
) -> bool {
    &&& ran_entry(
        pre.host().0,
        pre.host().1,
        pre.program()->Some_0,
        frame_scope(pre, input_mask),
        "tick"@,
        frame as i64,
        input_mask as i64,
        working,
        result,
        emitted,
    )
    &&& reported(result, outcome)
    &&& settled(pre, working, outcome, emitted, post, r)
}

/// What one frame may do: with no program it yields nothing and changes
/// nothing but the (already empty) channel; with a program it is one
/// `frame_run`.
pub open spec fn ticked(pre: Sandbox, frame: u32, input_mask: u32, post: Sandbox, r: Seq<Command>) -> bool {
    if pre.program() is None {
        &&& post.host() == pre.host()
        &&& post.program() == pre.program()
        &&& post.scope() == pre.scope()
        &&& post.pending() == Seq::<Command>::empty()
        &&& post.last_error() == pre.last_error()
        &&& r == Seq::<Command>::empty()
    } else {
        exists|
            working: rhai::Scope<'static>,
            result: Result<(), Box<rhai::EvalAltResult>>,
            outcome: Result<(), String>,
            emitted: Seq<Command>,
        | #[trigger] frame_run(pre, frame, input_mask, working, result, outcome, emitted, post, r)
    }
}

/// One load of a compiled `ast`: its top-level statements ran once on an
/// empty scope, ended in `scope` with `result` while the host functions
/// appended `emitted`, and the load was settled with that outcome as
/// reported.
pub open spec fn load_run(
    pre: Sandbox,
    ast: rhai::AST,
    scope: rhai::Scope<'static>,
    result: Result<(), Box<rhai::EvalAltResult>>,
    init: Result<(), String>,
    emitted: Seq<Command>,
    post: Sandbox,
    r: bool,
) -> bool {
    &&& ran_top_level(pre.host().0, pre.host().1, ast, scope, result, emitted)
    &&& reported(result, init)
    &&& load_settled(pre, ast, scope, init, emitted, post, r)
}

/// What settling a load does: `pre` becomes `post` and the load returns `r`,
/// after the compiled `ast` initialised `scope` with `init`, emitting
/// `emitted`.
pub open spec fn load_settled(
    pre: Sandbox,
    ast: rhai::AST,
    scope: rhai::Scope<'static>,
    init: Result<(), String>,
    emitted: Seq<Command>,
    post: Sandbox,
    r: bool,
) -> bool {
    &&& r == init is Ok
    &&& post.host() == pre.host()
    &&& init is Ok ==> {
        &&& post.program() == Some(ast)
        &&& post.scope() == scope
        &&& post.pending() == pre.pending() + emitted
        &&& post.last_error() == pre.last_error()
    }
    &&& init is Err ==> {
        &&& post.frame_state() == pre.frame_state()
        &&& post.last_error() == Some(init->Err_0@)
    }
}

/// What a failed load does: `post` differs from `pre` in its last error alone,
/// which is set.
pub open spec fn load_failed(pre: Sandbox, post: Sandbox) -> bool {
    &&& post.frame_state() == pre.frame_state()
    &&& post.last_error() is Some
}

/// A failed load is invisible to later frames: whatever a frame can do after
/// it, the same frame could do had the load never been called, yielding the
/// same commands and reaching the same program, scope and channel.
pub proof fn failed_load_is_invisible_to_frames(
    before: Sandbox,
    after: Sandbox,
    frame: u32,
    input_mask: u32,
    post: Sandbox,
    r: Seq<Command>,
)
    requires
        load_failed(before, after),
        ticked(after, frame, input_mask, post, r),
    ensures
        exists|alt: Sandbox|
            #[trigger] ticked(before, frame, input_mask, alt, r) && alt.frame_state() == post.frame_state(),
{
    if before.program() is None {
        let alt = Sandbox { last_error: before.last_error, ..post };
        assert(ticked(before, frame, input_mask, alt, r));
    } else {
        let (w, x, o, e) = choose|
            w: rhai::Scope<'static>,
            x: Result<(), Box<rhai::EvalAltResult>>,
            o: Result<(), String>,
            e: Seq<Command>,
        | #[trigger] frame_run(after, frame, input_mask, w, x, o, e, post, r);
        let alt = if o is Ok {
            Sandbox { last_error: before.last_error, ..post }
        } else {
            post
        };
        assert(frame_run(before, frame, input_mask, w, x, o, e, alt, r));
        assert(ticked(before, frame, input_mask, alt, r));
    }
}

/// Commands never cross a frame boundary: the frame after another yields
/// exactly the commands that the host functions appended during its own
/// call of `tick`, in the order they were made, or nothing if that call
/// failed.
pub proof fn frames_do_not_share_commands(
    s0: Sandbox,
    frame: u32,
    input_mask: u32,
    s1: Sandbox,
    r1: Seq<Command>,
    next_frame: u32,
    next_mask: u32,
    working: rhai::Scope<'static>,
    result: Result<(), Box<rhai::EvalAltResult>>,
    outcome: Result<(), String>,
    emitted: Seq<Command>,
    s2: Sandbox,
    r2: Seq<Command>,
)
    requires
        ticked(s0, frame, input_mask, s1, r1),
        frame_run(s1, next_frame, next_mask, working, result, outcome, emitted, s2, r2),
    ensures
        result is Ok ==> r2 == emitted,
        result is Err ==> r2 == Seq::<Command>::empty(),
{
    if s0.program() is Some {
        let (w, x, o, e) = choose|
            w: rhai::Scope<'static>,
            x: Result<(), Box<rhai::EvalAltResult>>,
            o: Result<(), String>,
            e: Seq<Command>,
        | #[trigger] frame_run(s0, frame, input_mask, w, x, o, e, s1, r1);
    }
    assert(s1.pending() == Seq::<Command>::empty());
    if result is Ok {
        assert(r2 =~= emitted);
    }
}

/// A successful frame with nothing waiting yields exactly the commands that
/// the host functions appended during its call of `tick`, in the order they
/// were made, keeps the scope that call ended in, and records no error.
pub proof fn successful_frame_yields_its_commands_in_order(
    pre: Sandbox,
    frame: u32,
    input_mask: u32,
    working: rhai::Scope<'static>,
    result: Result<(), Box<rhai::EvalAltResult>>,
    outcome: Result<(), String>,
    emitted: Seq<Command>,
    post: Sandbox,
    r: Seq<Command>,
)
    requires
        pre.pending() == Seq::<Command>::empty(),
        frame_run(pre, frame, input_mask, working, result, outcome, emitted, post, r),
        result is Ok,
    ensures
        r == emitted,
        post.scope() == working,
        post.last_error() == pre.last_error(),
        post.program() == pre.program(),
{
    assert(r =~= emitted);
}

/// With no program installed a frame is a no-op: it yields nothing, records
/// no error, and still has no program.
pub proof fn frame_without_program_is_noop(
    pre: Sandbox,
    frame: u32,
    input_mask: u32,
    post: Sandbox,
    r: Seq<Command>,
)
    requires
        pre.program() is None,
        ticked(pre, frame, input_mask, post, r),
    ensures
        r == Seq::<Command>::empty(),
        post.last_error() == pre.last_error(),
        post.program() is None,
{
}

/// A frame cannot reach the host's state: the engine, the channel its host
/// functions write to, and the installed program stay as they were; the
/// persistent scope is either kept or replaced by the scope in which a
/// successful call of the script's `tick` ended; and a failed call leaves
/// the display text of its error as the last error.
pub proof fn frames_keep_host_and_program(
    pre: Sandbox,
    frame: u32,
    input_mask: u32,
    post: Sandbox,
    r: Seq<Command>,
)
    requires
        ticked(pre, frame, input_mask, post, r),
    ensures
        post.host() == pre.host(),
        post.program() == pre.program(),
        pre.program() is Some ==> exists|
            working: rhai::Scope<'static>,
            result: Result<(), Box<rhai::EvalAltResult>>,
            emitted: Seq<Command>,
        |
            #[trigger] ran_entry(
                pre.host().0,
                pre.host().1,
                pre.program()->Some_0,
                frame_scope(pre, input_mask),
                "tick"@,
                frame as i64,
                input_mask as i64,
                working,
                result,
                emitted,
            ) && (result is Ok ==> post.scope() == working) && (result is Err ==> {
                &&& post.scope() == pre.scope()
                &&& exists|m: String|
                    #[trigger] to_string_from_display_ensures::<Box<rhai::EvalAltResult>>(
                        &result->Err_0,
                        m,
                    ) && post.last_error() == Some(m@)
            }),
{
    if pre.program() is Some {
        let (w, x, o, e) = choose|
            w: rhai::Scope<'static>,
            x: Result<(), Box<rhai::EvalAltResult>>,
            o: Result<(), String>,
            e: Seq<Command>,
        | #[trigger] frame_run(pre, frame, input_mask, w, x, o, e, post, r);
        if x is Err {
            assert(to_string_from_display_ensures::<Box<rhai::EvalAltResult>>(&x->Err_0, o->Err_0));
        }
    }
}

/// The text of an outcome's error, or `Ok` where the script ran through.
fn outcome_of(r: Result<(), Box<rhai::EvalAltResult>>) -> (o: Result<(), String>)
    ensures
        reported(r, o),
{
    match r {
        Ok(()) => Ok(()),
        Err(e) => Err(e.to_string()),
    }
}

impl Sandbox {
    /// The engine and the channel its capability functions write to.
    pub closed spec fn host(&self) -> (rhai::Engine, Rc<RefCell<Vec<Command>>>) {
        (self.engine, self.sink)
    }

    /// The currently installed program, if any.
    pub closed spec fn program(&self) -> Option<rhai::AST> {
        self.program
    }

    /// The persistent variable scope of the installed program.
    pub closed spec fn scope(&self) -> rhai::Scope<'static> {
        self.scope
    }

    /// Commands emitted by a successful initialisation, not yet handed out.
    pub closed spec fn pending(&self) -> Seq<Command> {
        self.pending@
    }

    /// The error message waiting to be taken, if any.
    pub closed spec fn last_error(&self) -> Option<Seq<char>> {
        match self.last_error {
            Some(m) => Some(m@),
            None => None,
        }
    }

    /// Everything that decides what the next frame can do.
    pub open spec fn frame_state(&self) -> (
        (rhai::Engine, Rc<RefCell<Vec<Command>>>),
        Option<rhai::AST>,
        rhai::Scope<'static>,
        Seq<Command>,
    ) {
        (self.host(), self.program(), self.scope(), self.pending())
    }

    /// The engine carries the operation ceiling, and its host functions are
    /// `move` and `playAnimation`, writing to the sandbox's channel.
    pub open spec fn wf(&self) -> bool {
        &&& ops_limit(self.host().0) == MAX_OPERATIONS
        &&& records_commands(self.host().0, self.host().1, "move"@, "playAnimation"@)
    }

    /// A fresh sandbox with no program loaded and no error pending.
    pub fn new() -> (r: Sandbox)
        ensures
            r.wf(),
            r.program() is None,
            r.pending() == Seq::<Command>::empty(),
            r.last_error() is None,
    {
        let sink = Rc::new(RefCell::new(Vec::new()));
        let mut engine = raw_engine();
        add_standard_package(&mut engine);
        limit_operations(&mut engine, MAX_OPERATIONS);
        register_capabilities(&mut engine, &sink, "move", "playAnimation");
        Sandbox {
            engine,
            sink,
            program: None,
            scope: rhai::Scope::new(),
            pending: Vec::new(),
            last_error: None,
        }
    }

    /// Installs a compiled program whose initialisation ran into `scope` with
    /// outcome `init`, emitting `emitted`. All or nothing: on an error only the
    /// last error changes, and what the failed initialisation emitted is dropped.
    pub fn settle_load(
        &mut self,
        ast: rhai::AST,
        scope: rhai::Scope<'static>,
        init: Result<(), String>,
        emitted: Vec<Command>,
    ) -> (r: bool)
        ensures
            load_settled(*old(self), ast, scope, init, emitted@, *final(self), r),
    {
        match init {
            Ok(()) => {
                let mut emitted = emitted;
                self.program = Some(ast);
                self.scope = scope;
                self.pending.append(&mut emitted);
                true
            },
            Err(message) => {
                self.record_error(message);
                false
            },
        }
    }

    /// Settles a frame whose invocation ran on `working` with `outcome`,
    /// emitting `emitted`. The channel is drained in either case. On success
    /// the frame yields the waiting commands then the emitted ones, and
    /// `working` becomes the persistent scope; on an error the frame yields
    /// nothing, the scope stays as it was before the frame, and the error is
    /// recorded.
    pub fn settle_tick(
        &mut self,
        working: rhai::Scope<'static>,
        outcome: Result<(), String>,
        emitted: Vec<Command>,
    ) -> (r: Vec<Command>)
        ensures
            settled(*old(self), working, outcome, emitted@, *final(self), r@),
    {
        let mut out = Vec::new();
        std::mem::swap(&mut out, &mut self.pending);
        match outcome {
            Ok(()) => {
                let mut emitted = emitted;
                out.append(&mut emitted);
                self.scope = working;
                out
            },
            Err(message) => {
                self.record_error(message);
                Vec::new()
            },
        }
    }

    fn record_error(&mut self, message: String)
        ensures
            final(self).frame_state() == old(self).frame_state(),
            final(self).last_error() == Some(message@),
    {
        self.last_error = Some(message);
    }
}

/// Compiles `src` and runs its top-level statements once in a fresh scope.
/// On success the new program and that scope replace the old ones, and the
/// commands the run emitted wait for the next frame; on any failure nothing
/// but the last error changes, and it holds the failure's display text.
pub fn load_script_source(sandbox: &mut Sandbox, src: &str) -> (r: bool)
    requires
        old(sandbox).wf(),
    ensures
        final(sandbox).host() == old(sandbox).host(),
        !r ==> load_failed(*old(sandbox), *final(sandbox)),
        match compile_result(old(sandbox).host().0, src@) {
            Err(e) => {
                &&& !r
                &&& exists|m: String|
                    #[trigger] to_string_from_display_ensures::<rhai::ParseError>(&e, m)
                        && final(sandbox).last_error() == Some(m@)
            },
            Ok(ast) => exists|
                scope: rhai::Scope<'static>,
                result: Result<(), Box<rhai::EvalAltResult>>,
                init: Result<(), String>,
                emitted: Seq<Command>,
            | #[trigger] load_run(*old(sandbox), ast, scope, result, init, emitted, *final(sandbox), r),
        },
{
    match compile_script(&sandbox.engine, src) {
        Ok(ast) => {
            let (scope, res, emitted) = run_top_level(&sandbox.engine, &sandbox.sink, &ast);
            let ghost raw = res;
            let init = outcome_of(res);
            let ghost pre = *sandbox;
            let ghost e = emitted@;
            let r = sandbox.settle_load(ast, scope, init, emitted);
            assert(load_run(pre, ast, scope, raw, init, e, *sandbox, r));
            r
        },
        Err(e) => {
            let m = e.to_string();
            sandbox.record_error(m);
            false
        },
    }
}

/// Runs one frame: calls the script's `tick(frame, input_mask)` on a copy of
/// the persistent scope with `INPUT` bound to `input_mask`, and drains the
/// commands of the frame. A failed frame yields nothing and puts the scope
/// value back as it was; a variable that a script closure captured is a
/// shared cell, which the copy and the kept scope hold alike, so a change
/// made to it before the failure stays.
pub fn tick(sandbox: &mut Sandbox, frame: u32, input_mask: u32) -> (r: Vec<Command>)
    requires
        old(sandbox).wf(),
    ensures
        ticked(*old(sandbox), frame, input_mask, *final(sandbox), r@),
{
    match &sandbox.program {
        None => {
            sandbox.pending = Vec::new();
            Vec::new()
        },
        Some(ast) => {
            let mut working = sandbox.scope.clone();
            bind_integer(&mut working, "INPUT", input_mask as i64);
            let (res, emitted) = call_entry(
                &sandbox.engine,
                &sandbox.sink,
                &mut working,
                ast,
                "tick",
                frame as i64,
                input_mask as i64,
            );
            let ghost raw = res;
            let outcome = outcome_of(res);
            let ghost pre = *sandbox;
            let ghost e = emitted@;
            let r = sandbox.settle_tick(working, outcome, emitted);
            assert(frame_run(pre, frame, input_mask, working, raw, outcome, e, *sandbox, r@));
            r
        },
    }
}

/// Runs one frame and returns its commands as a JSON array of tagged
/// records: `"[]"` when no program is loaded or the frame failed.
pub fn tick_and_get_commands(sandbox: &mut Sandbox, frame: u32, input_mask: u32) -> (r: String)
    requires
        old(sandbox).wf(),
    ensures
        exists|cmds: Seq<Command>|
            #[trigger] ticked(*old(sandbox), frame, input_mask, *final(sandbox), cmds)
                && r@ == commands_json(cmds),
{
    let cmds = tick(sandbox, frame, input_mask);
    encode_commands(&cmds)
}

/// Returns the pending error message and clears it; empty when none is pending.
pub fn take_last_error(sandbox: &mut Sandbox) -> (r: String)
    ensures
        final(sandbox).frame_state() == old(sandbox).frame_state(),
        final(sandbox).last_error() is None,
        r@ == match old(sandbox).last_error() {
            Some(m) => m,
            None => Seq::<char>::empty(),
        },
{
    match sandbox.last_error.take() {
        Some(m) => m,
        None => String::new(),
    }
}

} // verus!
