use tapedeck::compositor::{detect_from_lowercase, stderr_tail, stderr_tail_of_text, CompositorKind};
use tapedeck::dispatcher::{script_to_tape_content, sink_dir_name};
use tapedeck::ffmpeg::{last_line_of_text, last_stderr_line};
use tapedeck::optimize::{resolve_with_format, OptimizeError, OptimizeOptions};
use tapedeck::parser::parse_roll_content;
use tapedeck::compositor::WindowGeometry;
use tapedeck::native::recorder_args_for;
use tapedeck::reroll::{Batch, RerollItem, ScriptRun};
use tapedeck::script::Engine;
use tapedeck::script::{ClickType, Script, ScriptCommand};
use tapedeck::timeline::compute_timeline;

fn script_with(commands: Vec<ScriptCommand>) -> Script {
    Script { title: None, engine: None, shell: None, output: None, fps: None, commands }
}

#[test]
fn one_command_per_action_line_and_last_header_wins() {
    let s = parse_roll_content(
        "Title \"first\"\n# a comment\n\nType \"ls\"\nOutput \"a.gif\"\nEnter\nTitle \"second\"\nSleep 1s\nOutput \"b.gif\"\n",
    )
    .unwrap();
    assert_eq!(
        s.commands,
        vec![
            ScriptCommand::Type("ls".to_owned()),
            ScriptCommand::Key("Enter".to_owned(), 1),
            ScriptCommand::Sleep(1000),
        ]
    );
    assert_eq!(s.title.as_deref(), Some("second"));
    assert_eq!(s.output.as_deref(), Some("b.gif"));
}

#[test]
fn screenshots_numbered_per_step() {
    let s = script_with(vec![
        ScriptCommand::Type("a".to_owned()),
        ScriptCommand::Sleep(100),
        ScriptCommand::MouseMove(1, 2),
        ScriptCommand::Key("Enter".to_owned(), 1),
        ScriptCommand::ExecBefore("true".to_owned()),
        ScriptCommand::Click(ClickType::Left),
    ]);
    let tape = script_to_tape_content(&s, "/o/demo.webm", "/sink");
    let shots: Vec<&str> = tape.lines().filter(|l| l.starts_with("Screenshot")).collect();
    assert_eq!(
        shots,
        vec![
            "Screenshot \"/o/frames/001.png\"",
            "Screenshot \"/o/frames/002.png\"",
            "Screenshot \"/o/frames/003.png\"",
        ]
    );
    let sleep = tape.find("Sleep 100ms").unwrap();
    assert!(tape.find("001.png").unwrap() < sleep && sleep < tape.find("002.png").unwrap());
}

#[test]
fn sink_names_differ_by_time_and_process() {
    assert_eq!(sink_dir_name(7, 1000), "tapedeck-7-1000-sink");
    assert_ne!(sink_dir_name(7, 1000), sink_dir_name(7, 1001));
    assert_ne!(sink_dir_name(7, 1000), sink_dir_name(70, 100));
    assert_ne!(sink_dir_name(12, 3), sink_dir_name(1, 23));
}

#[test]
fn timeline_has_one_point_per_timed_command() {
    let script = script_with(vec![
        ScriptCommand::Click(ClickType::Right),
        ScriptCommand::Key("Enter".to_owned(), 2),
        ScriptCommand::Sleep(250),
        ScriptCommand::MouseMove(3, 4),
        ScriptCommand::Type("x".to_owned()),
        ScriptCommand::Roll(1),
    ]);
    let points = compute_timeline(&script);
    assert_eq!(points.len(), 2);
    assert_eq!(points[0].command, "Click Right");
    assert_eq!(points[0].ms, 0);
    assert_eq!(points[1].command, "Type \"x\"");
    assert_eq!(points[1].ms, 250_000);
}

#[test]
fn batch_counts_every_script_once() {
    let mut b = Batch::new();
    b.skipped("/r/a.roll");
    b.skipped("/r/b.roll");
    b.recorded("/r/c.roll", "/r/c.webm");
    b.plan_failed("/r/d.roll", "bad");
    let (lines, has_failure) = b.finish();
    assert!(has_failure);
    assert!(!lines.iter().any(|l| l == "nothing to do"));
    assert_eq!(lines.last().unwrap(), "彙總：1 成功、1 失敗、2 skip");

    let mut b = Batch::new();
    b.skipped("/r/a.roll");
    b.skipped("/r/b.roll");
    let (lines, has_failure) = b.finish();
    assert!(!has_failure);
    assert_eq!(lines[2], "nothing to do");

    let (lines, has_failure) = Batch::new().finish();
    assert!(!has_failure);
    assert_eq!(lines, vec!["彙總：0 成功、0 失敗、0 skip"]);
}

#[test]
fn text_functions_after_decoding() {
    assert_eq!(stderr_tail_of_text("  \n "), "(stderr 空)");
    assert_eq!(stderr_tail_of_text(" boom \n"), "boom");
    let long = "x".repeat(250);
    assert_eq!(stderr_tail_of_text(&long), format!("(截尾) {}", "x".repeat(200)));
    assert_eq!(stderr_tail(b"bad \xff byte"), "bad \u{fffd} byte");
    assert_eq!(last_line_of_text("one\ntwo\nthree\n\n"), "three");
    assert_eq!(last_line_of_text("   "), "");
    assert_eq!(last_stderr_line(b"a\n\xffz"), "\u{fffd}z");
    assert_eq!(detect_from_lowercase("sway", ""), CompositorKind::Sway);
    assert_eq!(detect_from_lowercase("gnome", "wayland-1"), CompositorKind::Niri);
    assert_eq!(detect_from_lowercase("sway", "niri-0"), CompositorKind::Niri);
}

#[test]
fn resolve_with_chosen_format() {
    let opts = OptimizeOptions {
        input: "/v/clip.webm".to_owned(),
        output: None,
        format: None,
        quality: 80,
        fps: 10,
        dry_run: false,
    };
    let (i, o, f) = resolve_with_format("/c", &opts, "gif".to_owned()).unwrap();
    assert_eq!((i.as_str(), o.as_str(), f.as_str()), ("/v/clip.webm", "/c/clip.gif", "gif"));
    assert_eq!(
        resolve_with_format("/c", &opts, "mp4".to_owned()).unwrap_err(),
        OptimizeError::UnsupportedFormat("mp4".to_owned())
    );
}

#[test]
fn later_headers_win_and_any_bad_line_rejects() {
    let s = parse_roll_content(
        "FPS 10\nSet Engine Native\nTerminal \"bash\"\nType \"a\"\nFPS 30\nMode TUI\nTerminal \"zsh\"\n",
    )
    .unwrap();
    assert_eq!(s.fps, Some(30));
    assert_eq!(s.engine, Some(Engine::Vhs));
    assert_eq!(s.shell.as_deref(), Some("zsh"));
    assert!(parse_roll_content("# only a comment\n\n").is_ok());
    assert!(parse_roll_content("Type \"a\"\nFPS 30\nBogus line\nEnter\n").is_err());
}

fn item(roll: &str, stale: bool) -> RerollItem {
    RerollItem {
        roll: roll.to_owned(),
        engine: Engine::Vhs,
        output: format!("{roll}.webm"),
        stale,
    }
}

#[test]
fn each_found_script_counted_once() {
    let runs = vec![
        ScriptRun { roll: "/r/a.roll".to_owned(), plan: Ok(item("/r/a.roll", false)), record: Ok(()) },
        ScriptRun { roll: "/r/b.roll".to_owned(), plan: Ok(item("/r/b.roll", true)), record: Ok(()) },
        ScriptRun {
            roll: "/r/c.roll".to_owned(),
            plan: Ok(item("/r/c.roll", true)),
            record: Err("rename failed".to_owned()),
        },
        ScriptRun { roll: "/r/d.roll".to_owned(), plan: Err("第 1 行：未知指令".to_owned()), record: Ok(()) },
    ];
    let b = Batch::from_scripts(&runs);
    assert_eq!(b.stats.success + b.stats.failed + b.stats.skipped, runs.len());
    let (lines, has_failure) = b.finish();
    assert_eq!(
        lines,
        vec![
            "⏭️ /r/a.roll",
            "✅ /r/b.roll → /r/b.roll.webm",
            "❌ /r/c.roll — rename failed",
            "❌ /r/d.roll — 計畫失敗：第 1 行：未知指令",
            "彙總：1 成功、2 失敗、1 skip",
        ]
    );
    assert!(has_failure);

    let runs = vec![
        ScriptRun { roll: "/r/a.roll".to_owned(), plan: Ok(item("/r/a.roll", false)), record: Ok(()) },
        ScriptRun { roll: "/r/b.roll".to_owned(), plan: Ok(item("/r/b.roll", false)), record: Ok(()) },
    ];
    let (lines, has_failure) = Batch::from_scripts(&runs).finish();
    assert_eq!(lines, vec!["⏭️ /r/a.roll", "⏭️ /r/b.roll", "nothing to do", "彙總：0 成功、0 失敗、2 skip"]);
    assert!(!has_failure);
}

#[test]
fn recorder_arguments_from_geometry_padding_and_output() {
    let g = WindowGeometry { x: 100, y: 50, width: 800, height: 600 };
    assert_eq!(
        recorder_args_for(&g, 10, "/o/a.mp4").unwrap(),
        vec!["-g", "90,40 820x620", "-f", "/o/a.mp4"]
    );
    assert_eq!(recorder_args_for(&g, 0, "x.mp4").unwrap(), vec!["-g", "100,50 800x600", "-f", "x.mp4"]);
    let edge = WindowGeometry { x: i32::MIN, y: 0, width: 10, height: 10 };
    assert_eq!(recorder_args_for(&edge, 1, "x.mp4").unwrap_err(), "Padding 1 超出視窗座標範圍");
}
