use tapedeck::db::{
    extract_asset_ref, hex, is_markdown_path, orphans, references_in, removal_message, sha256_hex, Asset, Removal,
};
use tapedeck::paths::XdgEnv;

#[test]
fn md_ref_extraction() {
    assert_eq!(extract_asset_ref("![demo](assets/used.webm)").as_deref(), Some("used.webm"));
    assert_eq!(
        extract_asset_ref("路徑: assets/sub/video.webm 說明").as_deref(),
        Some("video.webm")
    );
    assert_eq!(extract_asset_ref("無引用的一行"), None);
}

// ── own tests ──

fn asset(path: &str) -> Asset {
    Asset { path: path.to_owned(), hash: "ab".repeat(32), source_roll: None, mtime: 0 }
}

#[test]
fn asset_refs_need_assets_dir_and_media_extension() {
    assert_eq!(extract_asset_ref("see [x](docs/a.webm)"), None);
    assert_eq!(extract_asset_ref("assets/notes.txt"), None);
    assert_eq!(extract_asset_ref("[a](assets/a.png) [b](assets/b.gif)").as_deref(), Some("b.gif"));
    assert_eq!(extract_asset_ref("assets/clip.mp4").as_deref(), Some("clip.mp4"));
}

#[test]
fn references_carry_line_numbers() {
    let md = "# Title\n![demo](assets/used.webm)\ntext\n<img src=assets/x.gif>\n";
    let refs = references_in(md);
    assert_eq!(refs, vec![("used.webm".to_owned(), 2)]);
    let refs = references_in("a\r\nassets/b.webp\r\n");
    assert_eq!(refs, vec![("b.webp".to_owned(), 2)]);
}

#[test]
fn orphan_filter_by_file_name() {
    let all = vec![asset("/r/assets/used.webm"), asset("/r/assets/trash.webm"), asset("/r/other/used.webm")];
    let refs = vec!["used.webm".to_owned()];
    let o = orphans(&all, &refs);
    assert_eq!(o.len(), 1);
    assert_eq!(o[0].path, "/r/assets/trash.webm");
    assert_eq!(orphans(&all, &vec![]).len(), 3);
}

#[test]
fn hashing_and_hex() {
    assert_eq!(hex(&[0x00, 0x0f, 0xa5, 0xff]), "000fa5ff");
    let h = sha256_hex(b"abc");
    assert_eq!(h, "ba7816bf8f01cfea414140de5dae2223b00361a396177a9cb410ff61f20015ad");
    assert_eq!(sha256_hex(b"").len(), 64);
    assert_ne!(sha256_hex(b"abc"), sha256_hex(b"abd"));
}

#[test]
fn frame_cache_under_cache_dir() {
    let env = XdgEnv { xdg_cache_home: Some("/c".to_owned()), ..XdgEnv::default() };
    let a = asset("/x/a.webm");
    let d = a.frame_cache_dir(&env);
    assert_eq!(d, format!("/c/tapedeck/frames/{}", a.hash));
}

#[test]
fn removal_reports() {
    assert_eq!(removal_message("/a/b.webm", Removal::DryRun), "[dry-run] 孤兒: /a/b.webm");
    assert_eq!(removal_message("/a/b.webm", Removal::Deleted), "已刪除孤兒: /a/b.webm");
    assert_eq!(removal_message("/a/b.webm", Removal::StaleRecord), "清理失效 DB row: /a/b.webm");
}

#[test]
fn markdown_files_are_scanned() {
    assert!(is_markdown_path("/d/docs/README.md"));
    assert!(is_markdown_path("/d/notes.markdown"));
    assert!(!is_markdown_path("/d/notes.txt"));
    assert!(!is_markdown_path("/d/md"));
}
