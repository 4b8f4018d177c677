use tapedeck::paths::{cache_dir, config_path, resolve_output_path, state_dir, XdgEnv};

fn env(cache: Option<&str>, config: Option<&str>, home: Option<&str>) -> XdgEnv {
    XdgEnv {
        xdg_cache_home: cache.map(str::to_owned),
        xdg_config_home: config.map(str::to_owned),
        xdg_state_home: None,
        home: home.map(str::to_owned),
    }
}

#[test]
fn output_path_relative_uses_xdg_cache() {
    let e = env(Some("/tmp/xdg-cache"), None, Some("/home/user"));
    let p = resolve_output_path(&e, "assets/demo.webm", None);
    assert_eq!(p, "/tmp/xdg-cache/tapedeck/assets/demo.webm");
}

#[test]
fn output_path_xdg_unset_uses_home_fallback() {
    let e = env(None, None, Some("/home/user"));
    let p = resolve_output_path(&e, "assets/demo.webm", None);
    assert_eq!(p, "/home/user/.cache/tapedeck/assets/demo.webm");
}

#[test]
fn output_path_absolute_kept() {
    let e = env(Some("/tmp/xdg-cache"), None, Some("/home/user"));
    let p = resolve_output_path(&e, "/var/tmp/demo.webm", None);
    assert_eq!(p, "/var/tmp/demo.webm");
}

#[test]
fn output_path_cli_override_wins() {
    let e = env(Some("/tmp/xdg-cache"), None, None);
    let p = resolve_output_path(&e, "assets/demo.webm", Some("/cli/override.webm"));
    assert_eq!(p, "/cli/override.webm");
}

#[test]
fn config_path_uses_xdg_config_home() {
    let e = env(None, Some("/tmp/xdg-config"), Some("/home/user"));
    assert_eq!(config_path(&e), "/tmp/xdg-config/tapedeck/config.toml");
}

#[test]
fn config_path_xdg_unset_uses_home_fallback() {
    let e = env(None, None, Some("/home/user"));
    assert_eq!(config_path(&e), "/home/user/.config/tapedeck/config.toml");
}

// ── own tests ──

#[test]
fn directories_without_home_fall_back_to_tmp() {
    let e = env(None, None, None);
    assert_eq!(cache_dir(&e), "/tmp/tapedeck");
    assert_eq!(state_dir(&e), "/tmp/tapedeck");
    let e = env(None, None, Some("/home/u/"));
    assert_eq!(state_dir(&e), "/home/u/.local/state/tapedeck");
}
