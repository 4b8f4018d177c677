use tapedeck::cli::{FilmstripArgs, OptimizeArgs, RunArgs};
use tapedeck::config::{detected_from, missing_config_notice, Config};
use tapedeck::parser::parse_roll_content;
use tapedeck::paths::XdgEnv;
use tapedeck::probe::HardwareCapabilities;
use tapedeck::tui::{item_label, PreviewMode, TuiApp, TuiKey};

#[test]
fn browser_selection_stays_in_list() {
    let a = parse_roll_content("Title \"Alpha\"\n").unwrap();
    let b = parse_roll_content("Type \"x\"\n").unwrap();
    let mut app = TuiApp::new(vec![a, b]);
    assert_eq!(app.preview_mode, PreviewMode::NoPreview);
    app.handle_key(TuiKey::Up);
    assert_eq!(app.selected_index, 0);
    app.handle_key(TuiKey::Down);
    app.handle_key(TuiKey::Down);
    assert_eq!(app.selected_index, 1);
    app.handle_key(TuiKey::Enter);
    assert_eq!(app.preview_mode, PreviewMode::Image);
    app.handle_key(TuiKey::Char('q'));
    assert_eq!(app.selected_index, 1);
    assert_eq!(item_label(0, &app.scripts[0]), "1. Alpha");
    assert_eq!(item_label(1, &app.scripts[1]), "2. Untitled");
    let mut empty = TuiApp::new(vec![]);
    empty.handle_key(TuiKey::Down);
    assert_eq!(empty.selected_index, 0);
    assert!(empty.selected().is_none());
    assert!(TuiApp::needs_refresh(101));
    assert!(!TuiApp::needs_refresh(100));
}

#[test]
fn configuration_defaults_and_detected() {
    let c = Config::default();
    assert_eq!(c.defaults.engine, None);
    assert_eq!(c.defaults.fps, None);
    assert!(c.system.detected.is_none());
    let caps = HardwareCapabilities { encoders: vec!["av1_vaapi".to_owned()], vaapi: true, dri: true };
    let d = detected_from(&caps);
    assert_eq!(d.encoders, vec!["av1_vaapi"]);
    assert!(d.vaapi && d.dri);
    assert_eq!(missing_config_notice("/c/config.toml"), "提示：無設定檔 /c/config.toml，使用預設值");
}

#[test]
fn command_line_arguments_become_options() {
    let run = RunArgs {
        script_file: "a.roll".to_owned(),
        output: Some("/o.gif".to_owned()),
        fps: Some(30),
        max_size: Some(5),
        gif: true,
        webp: false,
        dry_run: true,
    };
    let o = run.options();
    assert_eq!(o.output.as_deref(), Some("/o.gif"));
    assert_eq!(o.max_size, Some(5));
    assert!(o.gif && o.dry_run && !o.webp);
    let opt = OptimizeArgs {
        input: "in.webm".to_owned(),
        output: None,
        format: Some("gif".to_owned()),
        quality: 80,
        fps: 10,
        dry_run: false,
    }
    .options();
    assert_eq!(opt.input, "in.webm");
    assert_eq!(opt.format.as_deref(), Some("gif"));
    let env = XdgEnv { xdg_cache_home: Some("/c".to_owned()), ..XdgEnv::default() };
    let fs = FilmstripArgs { input: "/v/demo.webm".to_owned(), roll: None, count: 8, output: None, dry_run: true };
    assert_eq!(fs.output_path(&env), "/c/tapedeck/demo-filmstrip.png");
}
