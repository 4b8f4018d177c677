use std::collections::HashSet;

use tapedeck::doctor::{deps, doctor_report, input_provider_report, ok_or_missing, DoctorChecks};

#[test]
fn deps_table_is_well_formed() {
    let mut names = HashSet::new();
    let table = deps();
    for dep in &table {
        assert!(!dep.hint.is_empty());
        assert!(dep.version_flag.starts_with('-'));
        assert!(names.insert(dep.name.clone()), "duplicate dep: {}", dep.name);
    }
    assert_eq!(table.len(), 3, "deps 表擴充時同步更新測試");
}

#[test]
fn ok_or_missing_maps_boolean() {
    assert_eq!(ok_or_missing(true), "✅");
    assert_eq!(ok_or_missing(false), "❌");
}

// ── own tests ──

#[test]
fn report_all_good() {
    let checks = DoctorChecks {
        deps_available: vec![true, true, true],
        uinput_device: true,
        uinput_module: true,
        uinput_writable: true,
        dri: true,
        encoders: 3,
        save_error: None,
    };
    let r = doctor_report(&checks);
    assert!(r.starts_with("🩺 Checking system dependencies for tapedeck.\n✅ [OK] vhs found.\n"));
    assert!(r.contains("👉 Active Input Backend: UinputNative (Kernel Level Input)\n"));
    assert!(r.contains("\n🔍 Hardware: dri=true encoders=3\n"));
    assert!(r.ends_with("\n✨ All systems go! You're ready to tape.\n"));
    assert!(!r.contains("Hint"));
}

#[test]
fn report_missing_tool_and_permission() {
    let checks = DoctorChecks {
        deps_available: vec![true, false, true],
        uinput_device: true,
        uinput_module: false,
        uinput_writable: false,
        dri: false,
        encoders: 0,
        save_error: Some("disk full".to_owned()),
    };
    let r = doctor_report(&checks);
    assert!(r.contains("❌ [MISSING] ffmpeg not found.\n   └─ Hint: 影片編碼與處理所需（編碼器掃描、媒體優化）\n"));
    assert!(r.contains("❌ Kernel Module: uinput not loaded\n"));
    assert!(r.contains("Wtype (Keyboard only)"));
    assert!(r.contains("   └─ ⚠️ 寫回 [system.detected] 失敗: disk full\n"));
    assert!(r.ends_with("⚠️ Some dependencies are missing. Install them to proceed.\n"));
}

#[test]
fn input_section_gives_fix_when_not_writable() {
    let (text, ok) = input_provider_report(false, true, false);
    assert!(!ok);
    assert!(text.contains("❌ Device: /dev/uinput missing\n"));
    assert!(text.contains("Option A: sudo usermod -aG input $USER"));
    let (text, ok) = input_provider_report(true, true, true);
    assert!(ok);
    assert!(!text.contains("Option A"));
}
