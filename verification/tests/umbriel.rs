use tapedeck::compositor::CompositorError;
use tapedeck::umbriel::{
    umbriel_env_check, umbriel_find_geometry, umbriel_focus_then_move, umbriel_geometry,
    umbriel_window_id, UmbrielMoveStep, UmbrielWindow,
};

const UMBRIEL_WINDOWS_FIXTURE: &str = r#"[
    {"active":false,"app_id":"firefox","content_type":"none","floating":false,
     "focused":true,"h":1014,"id":"c38f9a8d600dfab440b5afc3a0b99a44","pid":1801,
     "scratchpad":"","title":"甲 - YouTube — Mozilla Firefox","urgent":false,
     "w":935,"workspace":"HDMI-A-1:1","x":969,"xdg_tag":"","xwayland":false,"y":50}
]"#;

/// Reads `umbriel windows --json` output the way the client does.
fn windows_of(json: &str) -> Vec<UmbrielWindow> {
    let v: serde_json::Value = serde_json::from_str(json).unwrap();
    v.as_array()
        .unwrap()
        .iter()
        .map(|w| UmbrielWindow {
            id: w["id"].as_str().unwrap().to_owned(),
            app_id: w["app_id"].as_str().map(str::to_owned),
            title: w["title"].as_str().map(str::to_owned),
            workspace: w["workspace"].as_str().map(str::to_owned),
            x: w["x"].as_i64().unwrap() as i32,
            y: w["y"].as_i64().unwrap() as i32,
            w: w["w"].as_u64().unwrap() as u32,
            h: w["h"].as_u64().unwrap() as u32,
        })
        .collect()
}

#[test]
fn parses_umbriel_windows_fixture() {
    let windows = windows_of(UMBRIEL_WINDOWS_FIXTURE);
    assert_eq!(windows.len(), 1);
    let w = &windows[0];
    assert_eq!(w.id, "c38f9a8d600dfab440b5afc3a0b99a44");
    assert_eq!(w.workspace.as_deref(), Some("HDMI-A-1:1"));
    let g = umbriel_geometry(w);
    assert_eq!(g.x, 969);
    assert_eq!(g.y, 50);
    assert_eq!(g.width, 935);
    assert_eq!(g.height, 1014);
}

#[test]
fn umbriel_window_id_matches_app_id_or_title() {
    let windows = windows_of(UMBRIEL_WINDOWS_FIXTURE);
    assert_eq!(
        umbriel_window_id(&windows, "firefox").as_deref(),
        Some("c38f9a8d600dfab440b5afc3a0b99a44")
    );
    assert!(umbriel_window_id(&windows, "YouTube").is_some());
    assert!(umbriel_window_id(&windows, "foot").is_none());
}

#[test]
fn umbriel_window_id_skips_geometry_check() {
    let json = r#"[{"id":"abc","app_id":"foot","title":null,"workspace":null,
                "x":0,"y":0,"w":0,"h":0}]"#;
    let windows = windows_of(json);
    assert_eq!(umbriel_window_id(&windows, "foot").as_deref(), Some("abc"));
}

#[test]
fn umbriel_env_check_missing_vars_is_ipc() {
    let err = umbriel_env_check("", "/run/user/1000").unwrap_err();
    assert!(err.is_ipc());
    assert!(err.message().contains("WAYLAND_DISPLAY"), "{:?}", err);
    let err = umbriel_env_check("wayland-0", "").unwrap_err();
    assert!(err.is_ipc());
    let err = umbriel_env_check("", "").unwrap_err();
    assert!(err.is_ipc());
    assert!(umbriel_env_check("wayland-0", "/run/user/1000").is_ok());
}

#[test]
fn umbriel_step_command_shape_and_env_gate() {
    let cmd = UmbrielMoveStep::Focus
        .command_with("wayland-0", "/run/user/1000", "c38f9a8d")
        .unwrap();
    assert_eq!(cmd.program, "umbriel");
    assert_eq!(cmd.args, vec!["msg", "window-focus:c38f9a8d"]);
    let cmd = UmbrielMoveStep::Move
        .command_with("wayland-0", "/run/user/1000", "3")
        .unwrap();
    assert_eq!(cmd.args, vec!["msg", "window-move-to-workspace:3"]);
    let err = UmbrielMoveStep::Focus
        .command_with("", "/run/user/1000", "x")
        .unwrap_err();
    assert!(err.is_ipc());
}

#[test]
fn umbriel_two_step_focus_failure_tunnels_first_step() {
    let calls = std::cell::RefCell::new(Vec::new());
    let run = |step: UmbrielMoveStep, arg: &str| -> Result<(), CompositorError> {
        calls.borrow_mut().push((step.label(), arg.to_owned()));
        if step.label() == "window-focus" {
            return Err(CompositorError::Ipc(
                "window-focus 結束碼 1，stderr：(stderr 空)".to_owned(),
            ));
        }
        Ok(())
    };
    let err = umbriel_focus_then_move("abc123", "2", &run).unwrap_err();
    assert!(err.is_ipc());
    assert!(err.message().contains("window-focus"), "{:?}", err);
    assert_eq!(*calls.borrow(), vec![("window-focus".to_owned(), "abc123".to_owned())]);
}

#[test]
fn umbriel_two_step_move_failure_preserves_root_cause() {
    let calls = std::cell::RefCell::new(Vec::new());
    let run = |step: UmbrielMoveStep, arg: &str| -> Result<(), CompositorError> {
        calls.borrow_mut().push((step.label(), arg.to_owned()));
        if step.label() == "window-move-to-workspace" {
            return Err(CompositorError::Ipc(
                "window-move-to-workspace 結束碼 1，stderr：unknown workspace".to_owned(),
            ));
        }
        Ok(())
    };
    let err = umbriel_focus_then_move("abc123", "2", &run).unwrap_err();
    assert!(err.is_ipc());
    assert!(err.message().contains("window-move-to-workspace"), "{:?}", err);
    assert!(err.message().contains("unknown workspace"), "須含根因：{:?}", err);
    assert_eq!(
        *calls.borrow(),
        vec![
            ("window-focus".to_owned(), "abc123".to_owned()),
            ("window-move-to-workspace".to_owned(), "2".to_owned()),
        ]
    );
}

#[test]
fn umbriel_two_step_success_calls_both_in_order() {
    let calls = std::cell::RefCell::new(Vec::new());
    let run = |step: UmbrielMoveStep, arg: &str| -> Result<(), CompositorError> {
        calls.borrow_mut().push((step.label(), arg.to_owned()));
        Ok(())
    };
    assert!(umbriel_focus_then_move("abc123", "2", &run).is_ok());
    assert_eq!(
        *calls.borrow(),
        vec![
            ("window-focus".to_owned(), "abc123".to_owned()),
            ("window-move-to-workspace".to_owned(), "2".to_owned()),
        ]
    );
}

// ── own tests ──

#[test]
fn umbriel_geometry_lookup_reports_missing_window() {
    let windows = windows_of(UMBRIEL_WINDOWS_FIXTURE);
    assert_eq!(umbriel_find_geometry(&windows, "firefox").unwrap().width, 935);
    let err = umbriel_find_geometry(&windows, "foot").unwrap_err();
    assert!(!err.is_ipc());
    assert_eq!(err.message(), "查無視窗：在 Umbriel 中找不到符合 'foot' 的視窗");
}
