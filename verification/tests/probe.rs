use tapedeck::probe::{encoder_fallback, parse_encoders, HardwareCapabilities};

const SAMPLE: &str = "\
Encoders:
 V..... = Video
 A..... = Audio
 V....D av1_vaapi           Alliance for Open Media AV1 (VAAPI) (codec av1)
 V....D vp9_vaapi           Google VP9 (VAAPI) (codec vp9)
 V....D libvpx-vp9          libvpx VP9 (codec vp9)
 A..... aac                AAC (Advanced Audio Coding) (codec aac)
 V....D libx264            libx264 H.264 / AVC / MPEG-4 AVC
 V....D hevc_vaapi         H.265/HEVC (VAAPI) (codec hevc)
";

#[test]
fn parse_encoders_filters_video_only() {
    let encoders = parse_encoders(SAMPLE);
    assert!(encoders.contains(&"av1_vaapi".to_string()));
    assert!(encoders.contains(&"vp9_vaapi".to_string()));
    assert!(encoders.contains(&"libvpx-vp9".to_string()));
    assert!(encoders.contains(&"libx264".to_string()));
    assert!(encoders.contains(&"hevc_vaapi".to_string()));
    assert!(!encoders.contains(&"aac".to_string()));
    assert!(!encoders.contains(&"=".to_string()));
}

#[test]
fn parse_encoders_handles_garbage() {
    assert!(parse_encoders("").is_empty());
    assert!(parse_encoders("not an encoders list").is_empty());
}

#[test]
fn fallback_requested_available() {
    let caps = HardwareCapabilities {
        encoders: vec!["libx264".to_string(), "av1_vaapi".to_string()],
        vaapi: true,
        dri: true,
    };
    assert_eq!(encoder_fallback(&caps, Some("av1_vaapi")), Some("av1_vaapi".to_string()));
}

#[test]
fn fallback_requested_unavailable_uses_chain() {
    let caps = HardwareCapabilities {
        encoders: vec!["libx264".to_string(), "vp9_vaapi".to_string()],
        vaapi: true,
        dri: true,
    };
    assert_eq!(encoder_fallback(&caps, Some("av1_vaapi")), Some("vp9_vaapi".to_string()));
}

#[test]
fn fallback_chain_priority() {
    let full = HardwareCapabilities {
        encoders: vec!["libvpx-vp9".to_string(), "vp9_vaapi".to_string(), "av1_vaapi".to_string()],
        vaapi: true,
        dri: true,
    };
    assert_eq!(encoder_fallback(&full, None), Some("av1_vaapi".to_string()));

    let sw_only = HardwareCapabilities {
        encoders: vec!["libvpx-vp9".to_string()],
        vaapi: false,
        dri: false,
    };
    assert_eq!(encoder_fallback(&sw_only, None), Some("libvpx-vp9".to_string()));
}

#[test]
fn fallback_nothing_available() {
    let empty = HardwareCapabilities::default();
    assert_eq!(encoder_fallback(&empty, None), None);
    assert_eq!(encoder_fallback(&empty, Some("av1_vaapi")), None);
}

#[test]
fn probe_vaapi_requires_dri_and_encoder() {
    let no_dri = HardwareCapabilities {
        encoders: vec!["av1_vaapi".to_string()],
        vaapi: false,
        dri: false,
    };
    assert!(!no_dri.vaapi);
}

// ── own tests ──

#[test]
fn probe_system_reads_encoders_and_dri() {
    let without_dri = HardwareCapabilities::probe_system(Some(SAMPLE), false);
    assert!(!without_dri.vaapi);
    assert!(!without_dri.dri);
    assert_eq!(without_dri.encoders.len(), 5);

    let with_dri = HardwareCapabilities::probe_system(Some(SAMPLE), true);
    assert!(with_dri.vaapi);
    assert!(with_dri.has_encoder("libx264"));
    assert!(!with_dri.has_encoder("aac"));

    let no_ffmpeg = HardwareCapabilities::probe_system(None, true);
    assert!(no_ffmpeg.encoders.is_empty());
    assert!(!no_ffmpeg.vaapi);
}

#[test]
fn fallback_picks_software_after_hardware() {
    let caps = HardwareCapabilities {
        encoders: vec!["libvpx-vp9".to_string(), "libx264".to_string()],
        vaapi: false,
        dri: true,
    };
    assert_eq!(encoder_fallback(&caps, Some("libx264")), Some("libx264".to_string()));
    assert_eq!(encoder_fallback(&caps, Some("av1_vaapi")), Some("libvpx-vp9".to_string()));
}
