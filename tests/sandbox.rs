use wasm_rhai::command::Command;
use wasm_rhai::sandbox::{load_script_source, take_last_error, tick, tick_and_get_commands, Sandbox};

fn loaded(src: &str) -> Sandbox {
    let mut sb = Sandbox::new();
    assert!(load_script_source(&mut sb, src), "load failed: {}", take_last_error(&mut sb));
    sb
}

#[test]
fn commands_keep_emission_order() {
    let mut sb = loaded(r#"fn tick(frame, input) { move(1); playAnimation("run"); move(-1); }"#);
    assert_eq!(
        tick_and_get_commands(&mut sb, 0, 0),
        r#"[{"t":"move","dx":1},{"t":"anim","name":"run"},{"t":"move","dx":-1}]"#
    );
    assert_eq!(take_last_error(&mut sb), "");
}

#[test]
fn each_frame_drains_its_own_commands() {
    let mut sb = loaded("fn tick(frame, input) { move(frame); }");
    assert_eq!(tick(&mut sb, 1, 0), vec![Command::Move { dx: 1 }]);
    assert_eq!(tick(&mut sb, 2, 0), vec![Command::Move { dx: 2 }]);
    assert_eq!(tick_and_get_commands(&mut sb, 3, 0), r#"[{"t":"move","dx":3}]"#);
}

#[test]
fn tick_without_program_is_empty_and_silent() {
    let mut sb = Sandbox::new();
    assert_eq!(tick_and_get_commands(&mut sb, 0, 0), "[]");
    assert_eq!(take_last_error(&mut sb), "");
}

#[test]
fn input_mask_is_bound_to_input() {
    let mut sb = loaded("fn tick(frame, input) { move(INPUT); }");
    assert_eq!(tick_and_get_commands(&mut sb, 0, 7), r#"[{"t":"move","dx":7}]"#);
}

#[test]
fn input_mask_is_passed_as_argument() {
    let mut sb = loaded("fn tick(frame, input) { move(input + frame * 100); }");
    assert_eq!(tick(&mut sb, 2, 5), vec![Command::Move { dx: 205 }]);
}

#[test]
fn runaway_tick_is_stopped_by_the_governor() {
    let mut sb = loaded("fn tick(frame, input) { loop { move(1); } }");
    assert_eq!(tick_and_get_commands(&mut sb, 0, 0), "[]");
    assert!(!take_last_error(&mut sb).is_empty());
    assert_eq!(tick_and_get_commands(&mut sb, 1, 0), "[]");
}

#[test]
fn runaway_initialisation_is_stopped_by_the_governor() {
    let mut sb = Sandbox::new();
    assert!(!load_script_source(&mut sb, "let x = 0; loop { x += 1; }"));
    assert!(!take_last_error(&mut sb).is_empty());
}

#[test]
fn failed_compile_keeps_previous_program() {
    let mut sb = loaded("fn tick(frame, input) { move(3); }");
    assert!(!load_script_source(&mut sb, "fn tick(frame, input { move(9); "));
    assert!(!take_last_error(&mut sb).is_empty());
    assert_eq!(tick_and_get_commands(&mut sb, 0, 0), r#"[{"t":"move","dx":3}]"#);
    assert_eq!(take_last_error(&mut sb), "");
}

#[test]
fn failed_initialisation_keeps_previous_program() {
    let mut sb = loaded("fn tick(frame, input) { move(3); }");
    assert!(!load_script_source(&mut sb, r#"move(8); throw "broken"; fn tick(frame, input) { move(9); }"#));
    assert!(take_last_error(&mut sb).contains("broken"));
    assert_eq!(tick(&mut sb, 0, 0), vec![Command::Move { dx: 3 }]);
}

#[test]
fn failed_first_load_leaves_sandbox_unloaded() {
    let mut sb = Sandbox::new();
    assert!(!load_script_source(&mut sb, "let = ;"));
    assert!(!take_last_error(&mut sb).is_empty());
    assert_eq!(tick_and_get_commands(&mut sb, 0, 0), "[]");
    assert_eq!(take_last_error(&mut sb), "");
}

#[test]
fn initialisation_commands_come_out_with_first_frame() {
    // Rhai runs the top-level statements again before each call of `tick`.
    let mut sb = loaded("move(5); fn tick(frame, input) { move(1); }");
    assert_eq!(
        tick(&mut sb, 0, 0),
        vec![Command::Move { dx: 5 }, Command::Move { dx: 5 }, Command::Move { dx: 1 }]
    );
    assert_eq!(tick(&mut sb, 1, 0), vec![Command::Move { dx: 5 }, Command::Move { dx: 1 }]);
}

#[test]
fn failed_tick_discards_partial_output() {
    let mut sb = loaded(r#"fn tick(frame, input) { move(1); throw "boom"; }"#);
    assert_eq!(tick_and_get_commands(&mut sb, 0, 0), "[]");
    assert!(take_last_error(&mut sb).contains("boom"));
    assert_eq!(take_last_error(&mut sb), "");
}

#[test]
fn missing_entry_point_fails_every_tick() {
    let mut sb = loaded("let x = 1;");
    assert_eq!(tick_and_get_commands(&mut sb, 0, 0), "[]");
    assert!(!take_last_error(&mut sb).is_empty());
    assert_eq!(tick_and_get_commands(&mut sb, 1, 0), "[]");
    assert!(!take_last_error(&mut sb).is_empty());
}

#[test]
fn last_error_is_overwritten_by_later_failure() {
    let mut sb = loaded(r#"fn tick(frame, input) { if frame == 0 { throw "first"; } else { throw "second"; } }"#);
    tick(&mut sb, 0, 0);
    tick(&mut sb, 1, 0);
    let e = take_last_error(&mut sb);
    assert!(e.contains("second") && !e.contains("first"));
}

#[test]
fn reload_replaces_program() {
    let mut sb = loaded("fn tick(frame, input) { move(1); }");
    assert!(load_script_source(&mut sb, r#"fn tick(frame, input) { playAnimation("jump"); }"#));
    assert_eq!(tick(&mut sb, 0, 0), vec![Command::Anim { name: "jump".to_string() }]);
}

#[test]
fn guarded_initialisation_runs_once() {
    let mut sb = loaded(
        r#"if !is_def_var("started") { move(5); } let started = true; fn tick(frame, input) { move(1); }"#,
    );
    assert_eq!(tick(&mut sb, 0, 0), vec![Command::Move { dx: 5 }, Command::Move { dx: 1 }]);
    assert_eq!(tick(&mut sb, 1, 0), vec![Command::Move { dx: 1 }]);
}

#[test]
fn settle_tick_success_appends_emitted() {
    let mut sb = Sandbox::new();
    let out = sb.settle_tick(rhai::Scope::new(), Ok(()), vec![Command::Move { dx: 4 }]);
    assert_eq!(out, vec![Command::Move { dx: 4 }]);
    assert_eq!(take_last_error(&mut sb), "");
}

#[test]
fn settle_tick_failure_yields_nothing_and_records() {
    let mut sb = Sandbox::new();
    let out = sb.settle_tick(rhai::Scope::new(), Err("bad".to_string()), vec![Command::Move { dx: 4 }]);
    assert!(out.is_empty());
    assert_eq!(take_last_error(&mut sb), "bad");
}

#[test]
fn settle_load_success_keeps_emitted_for_next_frame() {
    let mut sb = Sandbox::new();
    let ast = rhai::Engine::new().compile("fn tick(a, b) { }").unwrap();
    assert!(sb.settle_load(ast, rhai::Scope::new(), Ok(()), vec![Command::Move { dx: 2 }]));
    let out = sb.settle_tick(rhai::Scope::new(), Ok(()), vec![Command::Move { dx: 3 }]);
    assert_eq!(out, vec![Command::Move { dx: 2 }, Command::Move { dx: 3 }]);
}

#[test]
fn settle_load_failure_records_error() {
    let mut sb = Sandbox::new();
    let ast = rhai::Engine::new().compile("1").unwrap();
    assert!(!sb.settle_load(ast, rhai::Scope::new(), Err("init".to_string()), vec![Command::Move { dx: 2 }]));
    assert_eq!(take_last_error(&mut sb), "init");
    assert_eq!(tick(&mut sb, 0, 0), vec![]);
}

#[test]
fn emit_functions_append_in_order() {
    let mut ch = vec![Command::Move { dx: 1 }];
    wasm_rhai::command::emit_anim(&mut ch, "wave");
    wasm_rhai::command::emit_move(&mut ch, -4);
    assert_eq!(
        ch,
        vec![Command::Move { dx: 1 }, Command::Anim { name: "wave".to_string() }, Command::Move { dx: -4 }]
    );
}

#[test]
fn capability_calls_keep_execution_order_across_branches() {
    let mut sb = loaded(
        r#"fn tick(frame, input) { for i in 0..3 { if i % 2 == 0 { move(i); } else { playAnimation("odd"); } } }"#,
    );
    assert_eq!(
        tick(&mut sb, 0, 0),
        vec![Command::Move { dx: 0 }, Command::Anim { name: "odd".to_string() }, Command::Move { dx: 2 }]
    );
}
