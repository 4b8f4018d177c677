use tapedeck::parser::parse_roll_content;
use tapedeck::paths::XdgEnv;
use tapedeck::reroll::{
    batch_needs_desktop, descend_into, is_roll_path, is_stale, needs_move, plan_item, plan_line,
    plan_summary, sort_paths, temp_path, Batch,
};
use tapedeck::script::Engine;

fn env() -> XdgEnv {
    XdgEnv { xdg_cache_home: Some("/cache".to_owned()), ..XdgEnv::default() }
}

#[test]
fn roll_files_and_directories() {
    assert!(is_roll_path("/a/b/x.roll"));
    assert!(!is_roll_path("/a/c/notes.txt"));
    assert!(!is_roll_path("/a/roll"));
    assert!(!descend_into(".git"));
    assert!(descend_into("b"));
}

#[test]
fn stale_rules() {
    assert!(is_stale(false, Some(100), 50));
    assert!(is_stale(true, None, 50));
    assert!(is_stale(true, Some(100), 150));
    assert!(!is_stale(true, Some(100), 100));
    assert!(!is_stale(true, Some(100), 50));
}

#[test]
fn plan_output_path_from_script_and_default() {
    let custom = parse_roll_content("Set Engine VHS\nSet Output \"assets/custom.webm\"\nType \"hi\"\n").unwrap();
    let empty = parse_roll_content("Set Engine VHS\nSet Output \"\"\nType \"hi\"\n").unwrap();
    let a = plan_item(&env(), "/r/custom.roll", &custom, false, None, 0);
    let b = plan_item(&env(), "/r/default.roll", &empty, false, None, 0);
    assert!(a.output.ends_with("tapedeck/assets/custom.webm"));
    assert!(b.output.ends_with("tapedeck/output.webm"));
    assert_eq!(a.engine, Engine::Vhs);
    assert!(a.stale);
    assert_eq!(plan_line(&a), "/r/custom.roll | Vhs | /cache/tapedeck/assets/custom.webm | stale");
    let kept = plan_item(&env(), "/r/k.roll", &custom, true, Some(10), 5);
    assert!(!kept.stale);
    assert_eq!(plan_summary(&vec![a, b, kept]), "3 支：2 重錄、1 skip");
}

#[test]
fn desktop_warning_only_for_native_scripts() {
    let tui = parse_roll_content("Type \"hi\"\n").unwrap();
    let gui = parse_roll_content("WaitWindow \"Obsidian\" timeout=5s\n").unwrap();
    assert!(!batch_needs_desktop(&vec![tui.clone()]));
    assert!(batch_needs_desktop(&vec![tui, gui]));
}

#[test]
fn failed_roll_does_not_stop_the_batch() {
    let mut b = Batch::new();
    b.failed("/r/a_fail.roll", "模擬錄製失敗");
    b.recorded("/r/b_ok.roll", "/r/assets/b.webm");
    let (lines, has_failure) = b.finish();
    assert_eq!(lines.iter().filter(|l| l.starts_with('❌')).count(), 1);
    assert_eq!(lines.iter().filter(|l| l.starts_with('✅')).count(), 1);
    assert!(lines.last().unwrap().contains("1 成功、1 失敗、0 skip"));
    assert!(has_failure);
}

#[test]
fn all_skipped_is_nothing_to_do() {
    let mut b = Batch::new();
    b.skipped("/r/a.roll");
    let (lines, has_failure) = b.finish();
    assert_eq!(lines, vec!["⏭️ /r/a.roll", "nothing to do", "彙總：0 成功、0 失敗、1 skip"]);
    assert!(!has_failure);
}

#[test]
fn clean_lines_and_plan_failures() {
    let mut b = Batch::new();
    b.plan_failed("/r/bad.roll", "第 1 行：未知指令");
    b.no_orphans();
    b.orphan_removed("已刪除孤兒: /r/assets/trash.webm");
    b.orphan_failed("permission denied");
    let (lines, has_failure) = b.finish();
    assert_eq!(lines[0], "❌ /r/bad.roll — 計畫失敗：第 1 行：未知指令");
    assert_eq!(lines[1], "🧹 無孤兒資產");
    assert_eq!(lines[2], "🧹 已刪除孤兒: /r/assets/trash.webm");
    assert_eq!(lines[3], "❌ 孤兒清理失敗 — permission denied");
    assert_eq!(lines[4], "彙總：0 成功、2 失敗、0 skip");
    assert!(has_failure);
}

#[test]
fn temporary_recording_path() {
    assert_eq!(temp_path("/r/assets/a.webm"), "/r/assets/a.webm.reroll-tmp");
    assert!(needs_move("/r/assets/a.webm.reroll-tmp", "/r/assets/a.webm"));
    assert!(!needs_move("/x", "/x"));
}

#[test]
fn script_paths_sorted_by_text() {
    let found = vec![
        "/d/b/dir/x.roll".to_owned(),
        "/d/a.roll".to_owned(),
        "/d/B.roll".to_owned(),
        "/d/a.roll0".to_owned(),
    ];
    let kept: Vec<String> = found.into_iter().filter(|p| is_roll_path(p)).collect();
    assert_eq!(sort_paths(&kept), vec!["/d/B.roll", "/d/a.roll", "/d/b/dir/x.roll"]);
    assert_eq!(sort_paths(&vec!["b".to_owned(), "a".to_owned(), "ab".to_owned(), "a".to_owned()]), vec!["a", "a", "ab", "b"]);
}

#[test]
fn plan_stale_only_unregistered_is_stale() {
    let a = parse_roll_content("Set Engine VHS\nSet Output \"a.webm\"\nType \"hi\"\n").unwrap();
    let plan = vec![plan_item(&env(), "/r/a.roll", &a, true, None, 1_700_000_000)];
    assert_eq!(plan.len(), 1);
    assert!(plan[0].stale);
}
