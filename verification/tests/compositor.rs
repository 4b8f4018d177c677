use tapedeck::compositor::{
    detect_compositor, ipc_exit_error, niri_focus_args, stderr_tail, sway_move_command,
    wait_decision, wait_timeout_message, CompositorError, CompositorKind, NiriCompositor,
    NiriLayout, NiriOutputLogical, SwayCompositor, SwayNode, WaitDecision, WindowGeometry,
};

fn pair_i32(v: &serde_json::Value) -> Option<(i32, i32)> {
    let a = v.as_array()?;
    Some((a.first()?.as_f64()? as i32, a.get(1)?.as_f64()? as i32))
}

fn pair_u32(v: &serde_json::Value) -> Option<(u32, u32)> {
    let a = v.as_array()?;
    Some((a.first()?.as_f64()? as u32, a.get(1)?.as_f64()? as u32))
}

/// Reads the `layout` object of a niri window the way the client does.
fn layout_of(json: &str) -> NiriLayout {
    let v: serde_json::Value = serde_json::from_str(json).unwrap();
    let l = &v["layout"];
    NiriLayout {
        pos_in_scrolling_layout: pair_i32(&l["pos_in_scrolling_layout"]),
        window_size: pair_u32(&l["window_size"]),
        logical_geometry: l.get("logical_geometry").map(|g| WindowGeometry {
            x: g["x"].as_i64().unwrap() as i32,
            y: g["y"].as_i64().unwrap() as i32,
            width: g["width"].as_u64().unwrap() as u32,
            height: g["height"].as_u64().unwrap() as u32,
        }),
    }
}

#[test]
fn parses_new_niri_layout() {
    let json = r#"{
        "id": 149,
        "title": "ztest9",
        "app_id": "kitty",
        "layout": {
            "pos_in_scrolling_layout": [1, 1],
            "tile_size": [1172.0, 1864.0],
            "window_size": [1168, 1860],
            "tile_pos_in_workspace_view": null,
            "window_offset_in_tile": [2.0, 2.0]
        }
    }"#;
    let g = layout_of(json).to_geometry().unwrap();
    assert_eq!((g.x, g.y, g.width, g.height), (1, 1, 1168, 1860));
}

#[test]
fn parses_legacy_niri_layout() {
    let json = r#"{
        "id": 1,
        "title": "old",
        "app_id": "kitty",
        "layout": {
            "logical_geometry": { "x": 0, "y": 0, "width": 800, "height": 600 }
        }
    }"#;
    let g = layout_of(json).to_geometry().unwrap();
    assert_eq!((g.x, g.y, g.width, g.height), (0, 0, 800, 600));
}

#[test]
fn clip_to_output_inside() {
    let out = NiriOutputLogical { x: 0, y: 0, width: 1920, height: 1080 };
    let win = WindowGeometry { x: 100, y: 50, width: 800, height: 600 };
    let g = NiriCompositor::clip_to_output(&win, &out).unwrap();
    assert_eq!((g.x, g.y, g.width, g.height), (100, 50, 800, 600));
}

#[test]
fn clip_to_output_truncates_beyond_output() {
    let out = NiriOutputLogical { x: 0, y: 0, width: 1920, height: 1080 };
    let win = WindowGeometry { x: 1800, y: 1000, width: 500, height: 400 };
    let g = NiriCompositor::clip_to_output(&win, &out).unwrap();
    assert_eq!((g.x, g.y, g.width, g.height), (1800, 1000, 120, 80));
}

#[test]
fn clip_to_output_translates_to_output_relative() {
    let out = NiriOutputLogical { x: 1920, y: 0, width: 1200, height: 1920 };
    let win = WindowGeometry { x: 1900, y: 100, width: 800, height: 600 };
    let g = NiriCompositor::clip_to_output(&win, &out).unwrap();
    assert_eq!((g.x, g.y, g.width, g.height), (0, 100, 780, 600));
}

#[test]
fn clip_to_output_no_overlap() {
    let out = NiriOutputLogical { x: 1920, y: 0, width: 1200, height: 1920 };
    let win = WindowGeometry { x: 0, y: 0, width: 100, height: 100 };
    assert!(NiriCompositor::clip_to_output(&win, &out).is_err());
}

#[test]
fn stderr_tail_handles_empty_and_long() {
    assert_eq!(stderr_tail(b""), "(stderr 空)");
    assert_eq!(stderr_tail(b"  \n "), "(stderr 空)");
    assert_eq!(stderr_tail(b"boom"), "boom");
    let long: String = "x".repeat(300);
    let tail = stderr_tail(long.as_bytes());
    assert!(tail.starts_with("(截尾) "), "{tail}");
    assert_eq!(tail.chars().count(), "(截尾) ".chars().count() + 200);
}

#[test]
fn ipc_error_wraps_root_cause_message() {
    let err = CompositorError::Ipc(
        "niri msg 執行失敗：No such file or directory (os error 2)".to_owned(),
    );
    let msg = err.message();
    assert!(msg.contains("IPC 不可用"), "{msg}");
    assert!(msg.contains("os error 2"), "須含根因：{msg}");
}

#[test]
fn not_found_error_is_retryable_layer() {
    let err = CompositorError::NotFound("在 Niri 中找不到符合 'x' 的視窗".to_owned());
    assert!(!err.is_ipc());
    assert!(err.message().starts_with("查無視窗"));
}

#[test]
fn display_and_ipc_classification() {
    let ipc = CompositorError::Ipc("Connection refused (os error 111)".to_owned());
    assert!(ipc.is_ipc());
    assert!(ipc.message().contains("IPC 不可用"));
    assert!(ipc.message().contains("os error 111"), "訊息須含根因");

    let nf = CompositorError::NotFound("在 Niri 中找不到符合 'x' 的視窗".to_owned());
    assert!(!nf.is_ipc());
    assert!(nf.message().starts_with("查無視窗"));
}

// ── own tests ──

#[test]
fn wf_recorder_geometry_with_padding() {
    let g = WindowGeometry { x: 1920, y: 40, width: 1200, height: 800 };
    assert_eq!(g.to_wf_recorder_arg(20), "1900,20 1240x840");
    assert_eq!(g.to_wf_recorder_arg(0), "1920,40 1200x800");
}

#[test]
fn wait_window_decisions_and_timeout_text() {
    assert_eq!(wait_decision(true, false), WaitDecision::Fail);
    assert_eq!(wait_decision(true, true), WaitDecision::Fail);
    assert_eq!(wait_decision(false, true), WaitDecision::TimedOut);
    assert_eq!(wait_decision(false, false), WaitDecision::Retry);
    let m = wait_timeout_message("foot-t1", "找不到符合");
    assert!(m.starts_with("WaitWindow 逾時：視窗「foot-t1」未出現"));
    assert!(m.contains("找不到符合"));
}

#[test]
fn sway_tree_search_depth_first() {
    let leaf = |name: &str, w: u32| SwayNode {
        name: Some(name.to_owned()),
        app_id: None,
        rect: WindowGeometry { x: 1, y: 2, width: w, height: 5 },
        nodes: vec![],
        floating_nodes: vec![],
    };
    let root = SwayNode {
        name: Some("root".to_owned()),
        app_id: None,
        rect: WindowGeometry { x: 0, y: 0, width: 0, height: 0 },
        nodes: vec![leaf("kitty", 0), leaf("other", 3)],
        floating_nodes: vec![leaf("kitty", 7)],
    };
    let g = SwayCompositor::find_in(&root, "kitty").unwrap();
    assert_eq!(g.width, 7);
    assert!(SwayCompositor::find_in(&root, "nope").unwrap_err().message().contains("在 Sway 視窗樹中找不到符合 'nope' 的視窗"));
    assert_eq!(sway_move_command("foot", "3"), "[app_id=\"foot\"] move container to workspace 3");
}

#[test]
fn compositor_detection_and_tool_errors() {
    assert_eq!(detect_compositor("SWAY", ""), CompositorKind::Sway);
    assert_eq!(detect_compositor("GNOME", "wayland-niri"), CompositorKind::Niri);
    assert_eq!(detect_compositor("", ""), CompositorKind::Niri);
    let e = ipc_exit_error("niri msg", "exit status: 1", b"oops\n");
    assert!(e.is_ipc());
    assert!(e.message().contains("oops"));
    assert_eq!(niri_focus_args("7")[0], "msg");
}

/// The polling loop of `WaitWindow` over the library's decisions: returns
/// the geometry, or the error text, and how many lookups were made.
fn wait_for(
    mut find: impl FnMut() -> Result<WindowGeometry, CompositorError>,
    deadline_passed: impl Fn() -> bool,
    target: &str,
) -> (Result<WindowGeometry, String>, usize) {
    let mut calls = 0;
    loop {
        calls += 1;
        match find() {
            Ok(g) => return (Ok(g), calls),
            Err(e) => match wait_decision(e.is_ipc(), deadline_passed()) {
                WaitDecision::Fail => return (Err(e.message()), calls),
                WaitDecision::TimedOut => {
                    return (Err(wait_timeout_message(target, &e.message())), calls)
                }
                WaitDecision::Retry => {}
            },
        }
    }
}

#[test]
fn wait_window_ipc_error_fails_fast_without_retry() {
    let (r, calls) = wait_for(
        || Err(CompositorError::Ipc("niri msg 執行失敗：Connection refused (os error 111)".to_owned())),
        || false,
        "foot-t1",
    );
    assert_eq!(calls, 1, "IPC 錯誤不得進入 200ms 輪詢");
    let msg = r.unwrap_err();
    assert!(msg.contains("IPC 不可用"), "須歸因 IPC 層：{msg}");
    assert!(msg.contains("os error 111") || msg.contains("Connection refused"), "須保留根因：{msg}");
    assert!(!msg.contains("WaitWindow 逾時"), "IPC 錯誤不得偽裝成視窗未出現：{msg}");
}

#[test]
fn wait_window_not_found_retries_until_success() {
    let mut n = 0;
    let (r, calls) = wait_for(
        || {
            n += 1;
            if n < 3 {
                Err(CompositorError::NotFound("視窗還沒開".to_owned()))
            } else {
                Ok(WindowGeometry { x: 1, y: 2, width: 10, height: 20 })
            }
        },
        || false,
        "foot-t1",
    );
    let geo = r.unwrap();
    assert_eq!((geo.x, geo.y, geo.width, geo.height), (1, 2, 10, 20));
    assert_eq!(calls, 3);
}

#[test]
fn wait_window_timeout_message_keeps_structure_and_cause() {
    let (r, calls) = wait_for(
        || Err(CompositorError::NotFound("在 Niri 中找不到符合 'foot-t1' 的視窗".to_owned())),
        || true,
        "foot-t1",
    );
    assert_eq!(calls, 1, "deadline 已過不得再重試");
    let msg = r.unwrap_err();
    assert!(msg.contains("WaitWindow 逾時"), "{msg}");
    assert!(msg.contains("foot-t1"), "{msg}");
    assert!(msg.contains("找不到符合"), "逾時訊息須含最後一次查無視窗原因：{msg}");
}
