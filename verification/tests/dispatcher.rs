use tapedeck::compositor::{is_ipc_error, CompositorError};
use tapedeck::dispatcher::{
    apply_engine_default, apply_format_override, apply_fps_precedence, media_link, plan_run,
    resolve_engine, script_to_tape_content, sink_dir_name, target_present, RunOptions,
};
use tapedeck::paths::XdgEnv;
use tapedeck::script::{ClickType, Engine, Script, ScriptCommand};

fn sample_script() -> Script {
    Script {
        title: None,
        engine: None,
        shell: None,
        output: Some("assets/demo.webm".to_owned()),
        fps: Some(15),
        commands: vec![
            ScriptCommand::Type("hello".to_owned()),
            ScriptCommand::Key("q".to_owned(), 1),
            ScriptCommand::Key("Down".to_owned(), 3),
            ScriptCommand::Sleep(500),
            ScriptCommand::MouseMove(100, 200),
            ScriptCommand::Click(ClickType::Left),
            ScriptCommand::Roll(2),
            ScriptCommand::Vhs("Set Theme \"Dracula\"".to_owned()),
            ScriptCommand::ExecBefore("echo before".to_owned()),
            ScriptCommand::ExecAfter("echo after".to_owned()),
        ],
    }
}

#[test]
fn tape_translation_basic() {
    let s = sample_script();
    let tape = script_to_tape_content(&s, "/tmp/out/demo.webm", "/tmp/tapedeck-test-sink");

    assert!(tape.contains("Output \"/tmp/out/demo.webm\""));
    assert!(tape.contains("Set Framerate 15"));
    assert!(tape.contains("Type \"hello\""));
    assert!(tape.contains("Type \"q\""));
    assert!(tape.contains("Down 3"));
    assert!(tape.contains("Sleep 500ms"));
    assert!(tape.contains("MouseMove 100 200"));
    assert!(tape.contains("MouseClick left"));
    assert!(tape.contains("Sleep 2s"));
    assert!(tape.contains("Set Theme \"Dracula\""));
    assert!(!tape.contains("ExecBefore"));
    assert!(!tape.contains("ExecAfter"));
    assert!(!tape.contains("assets/demo.webm"));
}

#[test]
fn tape_translation_key_count() {
    let s = Script {
        commands: vec![ScriptCommand::Key("Enter".to_owned(), 1)],
        ..sample_script()
    };
    let tape = script_to_tape_content(&s, "/tmp/o.webm", "/tmp/tapedeck-test-sink");
    assert!(tape.contains("Enter"));
}

#[test]
fn tape_translation_named_key_not_single_char() {
    let s = Script {
        commands: vec![ScriptCommand::Key("Enter".to_owned(), 2)],
        ..sample_script()
    };
    let tape = script_to_tape_content(&s, "/tmp/o.webm", "/tmp/tapedeck-test-sink");
    assert!(tape.contains("Enter 2"));
}

#[test]
fn engine_auto_tui_script_goes_vhs() {
    let s = Script {
        engine: Some(Engine::Auto),
        commands: vec![ScriptCommand::Type("hi".to_owned())],
        ..sample_script()
    };
    assert_eq!(resolve_engine(&s), Engine::Vhs);
}

#[test]
fn engine_auto_gui_script_goes_native() {
    let s = Script {
        engine: Some(Engine::Auto),
        commands: vec![ScriptCommand::WaitWindow("Obsidian".to_owned(), 10_000)],
        ..sample_script()
    };
    assert_eq!(resolve_engine(&s), Engine::Native);
}

#[test]
fn engine_explicit_wins() {
    let s = Script {
        engine: Some(Engine::Native),
        commands: vec![ScriptCommand::Type("hi".to_owned())],
        ..sample_script()
    };
    assert_eq!(resolve_engine(&s), Engine::Native);
}

#[test]
fn fps_cli_overrides_script_and_config() {
    let mut fps = Some(15);
    apply_fps_precedence(&mut fps, Some(30), Some(60));
    assert_eq!(fps, Some(30));
}

#[test]
fn fps_config_fills_when_script_unset() {
    let mut fps = None;
    apply_fps_precedence(&mut fps, None, Some(60));
    assert_eq!(fps, Some(60));
}

#[test]
fn fps_script_kept_when_no_cli() {
    let mut fps = Some(15);
    apply_fps_precedence(&mut fps, None, Some(60));
    assert_eq!(fps, Some(15));
}

#[test]
fn format_gif_overrides_extension() {
    let mut out = "/cache/demo.webm".to_owned();
    apply_format_override(&mut out, true, false);
    assert_eq!(out, "/cache/demo.gif");
}

#[test]
fn format_webp_overrides_extension() {
    let mut out = "demo.webm".to_owned();
    apply_format_override(&mut out, false, true);
    assert_eq!(out, "demo.webp");
}

#[test]
fn format_none_keeps_extension() {
    let mut out = "demo.webm".to_owned();
    apply_format_override(&mut out, false, false);
    assert_eq!(out, "demo.webm");
}

#[test]
fn tape_appends_sink_output_line_at_end() {
    let s = sample_script();
    let sink = "/tmp/tapedeck-42-1234-sink";
    let tape = script_to_tape_content(&s, "/tmp/out/demo.webm", sink);

    let sink_line = format!("Output \"{}/frames.png\"", sink);
    assert!(tape.contains(&sink_line));
    assert_eq!(tape.trim_end().lines().last(), Some(sink_line.as_str()));
    assert_eq!(tape.lines().next(), Some("Output \"/tmp/out/demo.webm\""));
}

#[test]
fn sink_dir_unique_across_engine_instances() {
    let a = sink_dir_name(4242, 1000);
    let b = sink_dir_name(4242, 1005);
    assert_ne!(a, b);
    assert!(a.starts_with("tapedeck-4242-"));
    assert!(a.ends_with("-sink"));
}

#[test]
fn codegen_never_touches_script_commands() {
    let s = sample_script();
    let before = s.commands.clone();
    let tape = script_to_tape_content(&s, "/tmp/o.gif", "/tmp/sink-t1");
    assert_eq!(s.commands, before);
    assert_eq!(s.commands.len(), 10);
    assert!(!before.iter().any(|c| format!("{c:?}").contains("frames.png")));
    assert!(tape.contains("frames.png"));
}

#[test]
fn target_present_requires_nonempty_file() {
    assert!(target_present(Some(6)));
    assert!(!target_present(Some(0)));
    assert!(!target_present(None));
}

#[test]
fn is_ipc_error_distinguishes_layers() {
    let ipc = vec![Some(CompositorError::Ipc("x".to_owned()))];
    assert!(is_ipc_error(&ipc));

    let nf = vec![Some(CompositorError::NotFound("y".to_owned()))];
    assert!(!is_ipc_error(&nf), "查無視窗不屬 IPC 層");

    let plain: Vec<Option<CompositorError>> = vec![None];
    assert!(!is_ipc_error(&plain));
}

// ── own tests ──

#[test]
fn tape_exact_text_for_small_script() {
    let s = Script {
        title: None,
        engine: None,
        shell: Some("bash".to_owned()),
        output: None,
        fps: None,
        commands: vec![
            ScriptCommand::Type("ls".to_owned()),
            ScriptCommand::Sleep(250),
            ScriptCommand::WaitWindow("x".to_owned(), 5),
        ],
    };
    let tape = script_to_tape_content(&s, "/o/a.gif", "/s");
    assert_eq!(
        tape,
        "Output \"/o/a.gif\"\nSet Shell \"bash\"\nType \"ls\"\nScreenshot \"/o/frames/001.png\"\nSleep 250ms\nOutput \"/s/frames.png\"\n"
    );
}

#[test]
fn automation_command_does_not_change_tape() {
    let s = sample_script();
    let mut t = sample_script();
    t.commands.insert(3, ScriptCommand::Padding(8));
    t.commands.insert(0, ScriptCommand::Shortcut("Ctrl+S".to_owned()));
    assert_eq!(
        script_to_tape_content(&s, "/o/a.webm", "/s"),
        script_to_tape_content(&t, "/o/a.webm", "/s")
    );
}

#[test]
fn single_char_key_is_typed_count_times() {
    let s = Script {
        commands: vec![ScriptCommand::Key("j".to_owned(), 3)],
        ..sample_script()
    };
    let tape = script_to_tape_content(&s, "/o/a.webm", "/s");
    assert_eq!(tape.matches("Type \"j\"").count(), 3);
}

#[test]
fn engine_default_applies_only_when_unset() {
    let mut s = sample_script();
    apply_engine_default(&mut s, Some("native"));
    assert_eq!(s.engine, Some(Engine::Native));
    apply_engine_default(&mut s, Some("vhs"));
    assert_eq!(s.engine, Some(Engine::Native));
}

#[test]
fn media_link_formats_and_rejects_unknown() {
    assert_eq!(media_link("/x/assets/a.gif", "html").unwrap(), "<img src=\"/x/assets/a.gif\" alt=\"a.gif\" />");
    assert_eq!(
        media_link("/x/a.gif", "zola").unwrap(),
        "{{ figure(src=\"/x/a.gif\", alt=\"a.gif\") }}"
    );
    let err = media_link("/x/a.gif", "pdf").unwrap_err();
    assert!(err.message().contains("不支援的格式 'pdf'"));
}

#[test]
fn plan_run_resolves_relative_output_under_cache() {
    let env = XdgEnv {
        xdg_cache_home: Some("/c".to_owned()),
        xdg_config_home: None,
        xdg_state_home: None,
        home: Some("/h".to_owned()),
    };
    let s = sample_script();
    let opts = RunOptions { gif: true, ..RunOptions::default() };
    let (e, out) = plan_run(&env, &s, &opts);
    assert_eq!(e, Engine::Native);
    assert_eq!(out, "/c/tapedeck/assets/demo.gif");
}
