use tapedeck::native::{
    exec_commands, find_cmd, native_plan, native_step, optimize_args, optimize_job,
    recorder_args, roll_remaining_ns, tail_sleep_ns, timeline_log_path, window_size_warning,
    CommandKind, NativeStep,
};
use tapedeck::parser::parse_roll_content;
use tapedeck::paths::XdgEnv;
use tapedeck::script::ScriptCommand;

const GUI: &str = "Set Engine Native\nSet Output \"assets/obsidian_demo.webm\"\n\nExecBefore \"obsidian\"\nWaitWindow \"Obsidian\" timeout=10s\nTargetWindow \"Obsidian\"\n\nRoll 15s\nMouseMove 500 300 speed=smooth\nClick Left\nShortcut \"Ctrl+S\"\n\nExecAfter \"pkill obsidian\"\nOptimize AV1 encoder=av1_vaapi\n";

#[test]
fn plan_of_gui_example() {
    let s = parse_roll_content(GUI).unwrap();
    let p = native_plan(&s);
    assert_eq!(p.target, "Obsidian");
    assert_eq!(p.timeout_ms, 10_000);
    assert_eq!(p.padding, 0);
    assert_eq!(p.window_size, None);
    assert_eq!(p.roll_secs, Some(15));
    assert_eq!(exec_commands(&s, true), vec!["obsidian"]);
    assert_eq!(exec_commands(&s, false), vec!["pkill obsidian"]);
    assert_eq!(find_cmd(&s, CommandKind::Padding), None);
}

#[test]
fn wait_window_names_target_without_target_window() {
    let s = parse_roll_content("WaitWindow \"foot\" timeout=2s\nPadding 8\nWindowSize 800 600\n").unwrap();
    let p = native_plan(&s);
    assert_eq!(p.target, "foot");
    assert_eq!(p.timeout_ms, 2000);
    assert_eq!(p.padding, 8);
    assert_eq!(p.window_size, Some((800, 600)));
    assert_eq!(window_size_warning(800, 600), "警告：WindowSize 800x600 僅記錄，不調整視窗大小（OQ-02 待實作）");
    let empty = parse_roll_content("Type \"x\"\n").unwrap();
    assert_eq!(native_plan(&empty).target, "");
    assert_eq!(native_plan(&empty).timeout_ms, 10_000);
}

#[test]
fn steps_while_recording() {
    assert_eq!(native_step(&ScriptCommand::Sleep(800), None), NativeStep::Sleep(800));
    assert_eq!(native_step(&ScriptCommand::Sleep(800), Some(300_000_000)), NativeStep::Sleep(300));
    assert_eq!(native_step(&ScriptCommand::Sleep(800), Some(0)), NativeStep::Stop);
    assert_eq!(native_step(&ScriptCommand::Sleep(100), Some(5_000_000_000)), NativeStep::Sleep(100));
    assert_eq!(
        native_step(&ScriptCommand::Key("Down".to_owned(), 3), None),
        NativeStep::PressKey("Down".to_owned(), 3)
    );
    assert_eq!(native_step(&ScriptCommand::ExecBefore("x".to_owned()), None), NativeStep::Nothing);
    assert_eq!(roll_remaining_ns(2, 500_000_000), 1_500_000_000);
    assert_eq!(roll_remaining_ns(2, 3_000_000_000), 0);
    assert_eq!(tail_sleep_ns(None), 500_000_000);
    assert_eq!(tail_sleep_ns(Some(7)), 7);
}

#[test]
fn follow_up_re_encode() {
    let s = parse_roll_content(GUI).unwrap();
    let job = optimize_job(&s, "/out/demo.webm").unwrap();
    assert_eq!(job.encoder, "av1_vaapi");
    assert_eq!(job.optimized, "/out/demo_optimized.webm");
    assert_eq!(
        optimize_args("/out/demo.webm", &job),
        vec!["-y", "-i", "/out/demo.webm", "-c:v", "av1_vaapi", "/out/demo_optimized.webm"]
    );
    let plain = parse_roll_content("Optimize VP9\n").unwrap();
    assert_eq!(optimize_job(&plain, "/out/x.mkv").unwrap().encoder, "VP9");
    assert!(optimize_job(&parse_roll_content("Type \"a\"\n").unwrap(), "/o.webm").is_none());
}

#[test]
fn recorder_and_timeline_paths() {
    assert_eq!(recorder_args("1,2 3x4", "/o.mp4"), vec!["-g", "1,2 3x4", "-f", "/o.mp4"]);
    let env = XdgEnv { xdg_state_home: Some("/st".to_owned()), ..XdgEnv::default() };
    assert_eq!(timeline_log_path(&env, "/o/demo.webm"), "/st/tapedeck/demo.timeline.jsonl");
}
