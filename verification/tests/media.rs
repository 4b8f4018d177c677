use tapedeck::ffmpeg::{
    palette_path, parse_encoder_lines, parse_filter_lines, parse_version_line, recompress_cmd,
    MediaCapabilities,
};
use tapedeck::filmstrip::{build_hstack_filter, even_points, merge_points, MERGE_MS};
use tapedeck::optimize::{
    build_commands, compress_plan, compress_temp_path, max_bytes, next_param, resolve,
    OptimizeError, OptimizeOptions,
};
use tapedeck::script::{ClickType, Script, ScriptCommand};
use tapedeck::timeline::compute_timeline;

const CACHE: &str = "/c/tapedeck";

fn opts(input: &str, output: Option<&str>, format: Option<&str>) -> OptimizeOptions {
    OptimizeOptions {
        input: input.to_owned(),
        output: output.map(str::to_owned),
        format: format.map(str::to_string),
        quality: 80,
        fps: 10,
        dry_run: true,
    }
}

fn caps(palettegen: bool, libwebp: bool, version: &str) -> MediaCapabilities {
    MediaCapabilities {
        has_palettegen: palettegen,
        has_libwebp: libwebp,
        ffmpeg_version: version.into(),
    }
}

#[test]
fn filter_lines_extract_names() {
    let out = "\
 .. palettegen        V->V       Find the optimal palette for a given stream.
 .. paletteuse        VV->V      Use a palette to downsample an input video stream.
 .S hstack            N->V       Stack video inputs horizontally.
";
    let names = parse_filter_lines(out);
    assert!(names.contains(&"palettegen".to_string()));
    assert!(names.contains(&"hstack".to_string()));
    assert!(!names.contains(&"nonexistent".to_string()));
}

#[test]
fn encoder_lines_only_video() {
    let out = "\
 V....D libwebp_anim         libwebp WebP image (codec webp)
 A....D libopus              libopus Opus (codec opus)
";
    let names = parse_encoder_lines(out);
    assert!(names.contains(&"libwebp_anim".to_string()));
    assert!(!names.contains(&"libopus".to_string()), "audio 不應收錄");
}

#[test]
fn version_line_extracts_third_token() {
    let out = "ffmpeg version n8.1.2 Copyright (c) 2000-2026 the FFmpeg developers\n";
    assert_eq!(parse_version_line(out), "n8.1.2");
}

#[test]
fn probe_against_mock_outputs() {
    let filters = parse_filter_lines(" .. palettegen V->V palette\n");
    let encoders = parse_encoder_lines(" V....D libwebp libwebp\n");
    let version = parse_version_line("ffmpeg version 9.9.9 mock\n");
    assert_eq!(
        MediaCapabilities {
            has_palettegen: filters.contains(&"palettegen".to_string()),
            has_libwebp: encoders.contains(&"libwebp".to_string()),
            ffmpeg_version: version,
        },
        MediaCapabilities {
            has_palettegen: true,
            has_libwebp: true,
            ffmpeg_version: "9.9.9".to_string(),
        }
    );
}

#[test]
fn format_precedence_cli_over_ext() {
    let o = opts("demo.webm", Some("out.gif"), Some("webp"));
    let (_, _, f) = resolve(CACHE, &o).unwrap();
    assert_eq!(f, "webp");
}

#[test]
fn format_from_output_ext() {
    let o = opts("demo.webm", Some("out.gif"), None);
    let (_, _, f) = resolve(CACHE, &o).unwrap();
    assert_eq!(f, "gif");
}

#[test]
fn format_from_input_ext_fallback() {
    let o = opts("demo.gif", None, None);
    let (_, _, f) = resolve(CACHE, &o).unwrap();
    assert_eq!(f, "gif");
}

#[test]
fn default_output_in_cache_dir() {
    let o = opts("demo.gif", None, None);
    let (_, out, _) = resolve(CACHE, &o).unwrap();
    assert!(out.ends_with("demo.gif"));
    assert!(out.starts_with(CACHE));
}

#[test]
fn unsupported_format_rejected() {
    let o = opts("demo.gif", None, Some("mp4"));
    assert!(resolve(CACHE, &o).is_err());
}

#[test]
fn gif_chain_has_two_passes() {
    let o = opts("demo.webm", Some("out.gif"), None);
    let (input, output, format) = resolve(CACHE, &o).unwrap();
    let cmds = build_commands(CACHE, &input, &output, &format, 10, 80, &caps(true, true, "n8")).unwrap();
    assert_eq!(cmds.len(), 2);
    assert!(cmds[0].args.iter().any(|a| a.contains("palettegen")));
    assert!(cmds[1].args.iter().any(|a| a.contains("paletteuse")));
    let palette_arg = palette_path(CACHE, &input);
    assert!(cmds[1].args.iter().any(|a| a == &palette_arg));
}

#[test]
fn gif_chain_rejects_missing_palettegen() {
    let o = opts("demo.webm", Some("out.gif"), None);
    let (input, output, format) = resolve(CACHE, &o).unwrap();
    assert!(build_commands(CACHE, &input, &output, &format, 10, 80, &caps(false, true, "old")).is_err());
}

#[test]
fn webp_chain_single_cmd() {
    let o = opts("demo.gif", Some("out.webp"), None);
    let (input, output, format) = resolve(CACHE, &o).unwrap();
    let cmds = build_commands(CACHE, &input, &output, &format, 10, 80, &caps(true, true, "n8")).unwrap();
    assert_eq!(cmds.len(), 1);
    assert!(cmds[0].args.iter().any(|a| a == "libwebp"));
}

#[test]
fn recompress_webm_uses_vp9_crf() {
    let cmd = recompress_cmd("in.webm", "out.webm", "webm", 50);
    assert!(cmd.windows(2).any(|w| w == ["-c:v", "libvpx-vp9"]));
    assert!(cmd.windows(2).any(|w| w == ["-crf", "50"]));
}

#[test]
fn recompress_gif_lowers_fps() {
    let cmd = recompress_cmd("in.gif", "out.gif", "gif", 4);
    assert!(cmd.windows(2).any(|w| w == ["-vf", "fps=4"]));
}

#[test]
fn recompress_webp_lowers_quality() {
    let cmd = recompress_cmd("in.webp", "out.webp", "webp", 30);
    assert!(cmd.windows(2).any(|w| w == ["-quality", "30"]));
}

#[test]
fn merge_close_points_and_truncate() {
    let merged = merge_points(vec![100u64, 300, 900, 950, 2000], 5);
    assert_eq!(merged, vec![100, 900, 2000]);
    assert_eq!(merged.len(), 3);
    assert_eq!(MERGE_MS, 500);
}

#[test]
fn hstack_filter_builds_pad_chain() {
    let fc = build_hstack_filter(4);
    assert!(fc.starts_with("[0:v]pad=iw+12:ih+12:0:0:white[pad0];"));
    assert!(fc.contains("[3:v]pad=iw:ih+12:0:0:white[pad3];"));
    assert!(fc.ends_with("[pad0][pad1][pad2][pad3]hstack=inputs=4[out]"));
}

fn script_with(cmds: Vec<ScriptCommand>) -> Script {
    Script { title: None, engine: None, shell: None, output: None, fps: None, commands: cmds }
}

#[test]
fn timeline_accumulates_sleep_before_each_action() {
    let script = script_with(vec![
        ScriptCommand::Sleep(2),
        ScriptCommand::Type("hello".to_owned()),
        ScriptCommand::Sleep(1),
        ScriptCommand::Click(ClickType::Left),
    ]);
    let points = compute_timeline(&script);
    assert_eq!(points.len(), 2);
    assert_eq!(points[0].ms, 2000);
    assert_eq!(points[0].command, "Type \"hello\"");
    assert_eq!(points[1].ms, 3000);
    assert_eq!(points[1].command, "Click Left");
}

#[test]
fn timeline_ignores_non_clock_commands() {
    let script = script_with(vec![
        ScriptCommand::Sleep(1),
        ScriptCommand::Click(ClickType::Right),
        ScriptCommand::Type("q".to_owned()),
    ]);
    let points = compute_timeline(&script);
    assert_eq!(points.len(), 2);
    assert_eq!(points[0].ms, 1000);
    assert_eq!(points[0].command, "Click Right");
    assert_eq!(points[1].ms, 1000);
    assert_eq!(points[1].command, "Type \"q\"");
}

// ── own tests ──

#[test]
fn merge_sorts_and_keeps_at_least_one() {
    assert_eq!(merge_points(vec![2000, 100, 450], 0), vec![100]);
    assert_eq!(merge_points(vec![2000, 100, 700], 2), vec![100, 700]);
    assert_eq!(merge_points(vec![], 3), Vec::<u64>::new());
}

#[test]
fn even_points_spread_over_duration() {
    assert_eq!(even_points(10_000, 4), vec![0, 2500, 5000, 7500]);
}

#[test]
fn timeline_is_in_time_order() {
    let script = script_with(vec![
        ScriptCommand::Type("a".to_owned()),
        ScriptCommand::Sleep(3),
        ScriptCommand::Click(ClickType::Middle),
        ScriptCommand::Sleep(0),
        ScriptCommand::Type("b".to_owned()),
    ]);
    let points = compute_timeline(&script);
    let ms: Vec<u64> = points.iter().map(|p| p.ms).collect();
    assert_eq!(ms, vec![0, 3000, 3000]);
    assert_eq!(points[1].command, "Click Middle");
}

#[test]
fn compression_plan_and_errors() {
    assert_eq!(compress_plan("webm").unwrap(), (40, 10, 63));
    assert_eq!(compress_plan("gif").unwrap(), (10, -2, 2));
    assert_eq!(compress_plan("webp").unwrap(), (50, -10, 20));
    let e = compress_plan("mp4").unwrap_err();
    assert_eq!(e, OptimizeError::UnsupportedMaxSize("mp4".to_owned()));
    assert_eq!(max_bytes(1), 1_048_576);
    assert_eq!(next_param(10, -2), 8);
    assert_eq!(compress_temp_path("/x/a.gif", "gif"), "/x/a.tmp.gif");
    assert!(OptimizeError::MissingPalettegen.message().contains("palettegen"));
}
