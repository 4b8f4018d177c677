//! Media optimisation: GIF in two palette passes, WebP through libwebp, and
//! same-format re-encoding to fit a size cap.

use vstd::prelude::*;

use crate::ffmpeg::{
    palette_path, palette_spec, palettegen_cmd, palettegen_spec, paletteuse_cmd,
    paletteuse_spec, recompress_cmd, recompress_spec, to_webp_cmd, to_webp_spec,
    MediaCapabilities,
};
use crate::fspath::{
    extension, file_stem, join, join_path, path_extension, path_file_stem, path_set_extension,
    spec_set_extension,
};
use crate::scan::strings_view;
use crate::text::{chars, chars_of, dec, eq_lit, lit, push_str, spec_to_lowercase, to_lowercase};

verus! {

/// Options of `optimize`.
#[derive(Debug, Clone)]
pub struct OptimizeOptions {
    pub input: String,
    /// `--output`; None: derived from the input name, in the cache directory.
    pub output: Option<String>,
    /// `--format`; None: from the output's extension, then the input's.
    pub format: Option<String>,
    pub quality: u8,
    pub fps: u32,
    pub dry_run: bool,
}

/// Why optimisation cannot run.
#[derive(Debug, Clone, PartialEq, Eq)]
pub enum OptimizeError {
    /// Only gif and webp can be produced.
    UnsupportedFormat(String),
    /// The installed ffmpeg has no palettegen filter.
    MissingPalettegen,
    /// The installed ffmpeg has no libwebp encoder.
    MissingLibwebp,
    /// `--max-size` works on webm, gif and webp outputs only.
    UnsupportedMaxSize(String),
}

impl OptimizeError {
    pub fn message(&self) -> (m: String)
        ensures
            m@ == optimize_error_text(*self),
    {
        match self {
            OptimizeError::UnsupportedFormat(f) => {
                let mut m = lit("不支援的格式：");
                push_str(&mut m, f.as_str());
                push_str(&mut m, "（僅 gif / webp）");
                m
            },
            OptimizeError::MissingPalettegen => lit(
                "ffmpeg 缺少 palettegen filter（版本過舊）— 請升級 ffmpeg",
            ),
            OptimizeError::MissingLibwebp => lit(
                "ffmpeg 缺少 libwebp encoder — 請確認 ffmpeg 為完整版（非 minimal）",
            ),
            OptimizeError::UnsupportedMaxSize(f) => {
                let mut m = lit("--max-size 僅支援 webm/gif/webp 輸出（目前：");
                push_str(&mut m, f.as_str());
                push_str(&mut m, "）");
                m
            },
        }
    }
}

pub open spec fn optimize_error_text(e: OptimizeError) -> Seq<char> {
    match e {
        OptimizeError::UnsupportedFormat(f) => "不支援的格式："@ + f@ + "（僅 gif / webp）"@,
        OptimizeError::MissingPalettegen => "ffmpeg 缺少 palettegen filter（版本過舊）— 請升級 ffmpeg"@,
        OptimizeError::MissingLibwebp => "ffmpeg 缺少 libwebp encoder — 請確認 ffmpeg 為完整版（非 minimal）"@,
        OptimizeError::UnsupportedMaxSize(f) => "--max-size 僅支援 webm/gif/webp 輸出（目前："@ + f@
            + "）"@,
    }
}

/// Lower-cased extension of a path.
pub open spec fn ext_lower(p: Seq<char>) -> Option<Seq<char>> {
    match extension(p) {
        Some(e) => Some(spec_to_lowercase(e)),
        None => None,
    }
}

pub fn ext_of(p: &str) -> (r: Option<String>)
    ensures
        match r {
            Some(e) => ext_lower(p@) == Some(e@),
            None => ext_lower(p@) is None,
        },
{
    match path_extension(p) {
        Some(e) => Some(to_lowercase(e.as_str())),
        None => None,
    }
}

/// The format: `--format` (lower-cased), else the output's extension, else
/// the input's, else webp.
pub open spec fn format_spec(
    input: Seq<char>,
    output: Option<Seq<char>>,
    format: Option<Seq<char>>,
) -> Seq<char> {
    match format {
        Some(f) => spec_to_lowercase(f),
        None => {
            let from_output = match output {
                Some(o) => ext_lower(o),
                None => None,
            };
            match from_output {
                Some(e) => e,
                None => match ext_lower(input) {
                    Some(e) => e,
                    None => "webp"@,
                },
            }
        },
    }
}

/// The output: `--output`, else `<cache>/<input stem>.<format>`.
pub open spec fn output_spec(cache: Seq<char>, input: Seq<char>, output: Option<Seq<char>>, format: Seq<char>) -> Seq<char> {
    match output {
        Some(o) => o,
        None => {
            let stem = match file_stem(input) {
                Some(s) => s,
                None => "output"@,
            };
            join(cache, stem + "."@ + format)
        },
    }
}

pub open spec fn opt_s(o: Option<String>) -> Option<Seq<char>> {
    match o {
        Some(s) => Some(s@),
        None => None,
    }
}

/// Input, output and format of an optimisation once its format has been
/// chosen (lower-cased); only gif and webp pass.
pub fn resolve_with_format(cache_dir: &str, opts: &OptimizeOptions, format: String) -> (r: Result<
    (String, String, String),
    OptimizeError,
>)
    ensures
        match r {
            Ok((i, o, fm)) => (format@ == "gif"@ || format@ == "webp"@) && i@ == opts.input@ && fm@
                == format@ && o@ == output_spec(cache_dir@, opts.input@, opt_s(opts.output), format@),
            Err(e) => !(format@ == "gif"@ || format@ == "webp"@) && e
                == OptimizeError::UnsupportedFormat(e->UnsupportedFormat_0)
                && e->UnsupportedFormat_0@ == format@,
        },
{
    let input = crate::text::copy_string(&opts.input);
    let fv = chars(&format);
    if !eq_lit(&fv, "gif") && !eq_lit(&fv, "webp") {
        return Err(OptimizeError::UnsupportedFormat(format));
    }
    let output = match &opts.output {
        Some(p) => crate::text::copy_string(p),
        None => {
            let mut name = match path_file_stem(input.as_str()) {
                Some(s) => s,
                None => lit("output"),
            };
            push_str(&mut name, ".");
            push_str(&mut name, format.as_str());
            join_path(cache_dir, name.as_str())
        },
    };
    Ok((input, output, format))
}

/// Input, output and format of an optimisation; only gif and webp pass.
pub fn resolve(cache_dir: &str, opts: &OptimizeOptions) -> (r: Result<(String, String, String), OptimizeError>)
    ensures
        ({
            let f = format_spec(opts.input@, opt_s(opts.output), opt_s(opts.format));
            match r {
                Ok((i, o, fm)) => (f == "gif"@ || f == "webp"@) && i@ == opts.input@ && fm@ == f
                    && o@ == output_spec(cache_dir@, opts.input@, opt_s(opts.output), f),
                Err(e) => !(f == "gif"@ || f == "webp"@) && e == OptimizeError::UnsupportedFormat(
                    e->UnsupportedFormat_0,
                ) && e->UnsupportedFormat_0@ == f,
            }
        }),
{
    let format = match &opts.format {
        Some(f) => to_lowercase(f.as_str()),
        None => {
            let from_output = match &opts.output {
                Some(o) => ext_of(o.as_str()),
                None => None,
            };
            match from_output {
                Some(e) => e,
                None => match ext_of(opts.input.as_str()) {
                    Some(e) => e,
                    None => lit("webp"),
                },
            }
        },
    };
    resolve_with_format(cache_dir, opts, format)
}

/// One ffmpeg run: its arguments and the step name used in messages.
pub struct FfmpegStep {
    pub args: Vec<String>,
    pub step: String,
}

pub open spec fn steps_view(s: Seq<FfmpegStep>) -> Seq<(Seq<Seq<char>>, Seq<char>)> {
    s.map_values(|x: FfmpegStep| (strings_view(x.args@), x.step@))
}

/// The ffmpeg runs of an optimisation: gif needs palettegen and runs pass 1
/// and pass 2; webp needs libwebp and runs one encode.
pub open spec fn commands_spec(
    cache: Seq<char>,
    input: Seq<char>,
    output: Seq<char>,
    format: Seq<char>,
    fps: u32,
    quality: u8,
) -> Seq<(Seq<Seq<char>>, Seq<char>)> {
    if format == "gif"@ {
        let palette = palette_spec(cache, input);
        seq![
            (palettegen_spec(input, fps, palette), "palettegen"@),
            (paletteuse_spec(input, palette, output, fps), "paletteuse"@),
        ]
    } else {
        seq![(to_webp_spec(input, output, quality), "libwebp"@)]
    }
}

pub fn build_commands(
    cache_dir: &str,
    input: &str,
    output: &str,
    format: &str,
    fps: u32,
    quality: u8,
    caps: &MediaCapabilities,
) -> (r: Result<Vec<FfmpegStep>, OptimizeError>)
    requires
        format@ == "gif"@ || format@ == "webp"@,
    ensures
        match r {
            Ok(steps) => steps_view(steps@) == commands_spec(
                cache_dir@,
                input@,
                output@,
                format@,
                fps,
                quality,
            ) && (format@ == "gif"@ ==> caps.has_palettegen) && (format@ != "gif"@
                ==> caps.has_libwebp),
            Err(e) => (format@ == "gif"@ && !caps.has_palettegen && e
                == OptimizeError::MissingPalettegen) || (format@ != "gif"@ && !caps.has_libwebp
                && e == OptimizeError::MissingLibwebp),
        },
{
    let f = chars_of(format);
    let mut steps: Vec<FfmpegStep> = Vec::new();
    if eq_lit(&f, "gif") {
        if !caps.has_palettegen {
            return Err(OptimizeError::MissingPalettegen);
        }
        let palette = palette_path(cache_dir, input);
        steps.push(
            FfmpegStep { args: palettegen_cmd(input, fps, palette.as_str()), step: lit("palettegen") },
        );
        steps.push(
            FfmpegStep {
                args: paletteuse_cmd(input, palette.as_str(), output, fps),
                step: lit("paletteuse"),
            },
        );
    } else {
        if !caps.has_libwebp {
            return Err(OptimizeError::MissingLibwebp);
        }
        steps.push(
            FfmpegStep { args: to_webp_cmd(input, output, quality), step: lit("libwebp") },
        );
    }
    assert(steps_view(steps@) =~= commands_spec(cache_dir@, input@, output@, format@, fps, quality));
    Ok(steps)
}

// ───────────────────────── fitting a size cap ─────────────────────────

/// Starting parameter, step and last parameter of the re-encode loop:
/// webm raises crf 40→63 by 10, gif lowers fps 10→2 by 2, webp lowers
/// quality 50→20 by 10.
pub open spec fn compress_plan_spec(format: Seq<char>) -> Option<(u8, i8, u8)> {
    if format == "webm"@ {
        Some((40u8, 10i8, 63u8))
    } else if format == "gif"@ {
        Some((10u8, -2i8, 2u8))
    } else if format == "webp"@ {
        Some((50u8, -10i8, 20u8))
    } else {
        None
    }
}

pub fn compress_plan(format: &str) -> (r: Result<(u8, i8, u8), OptimizeError>)
    ensures
        match r {
            Ok(p) => compress_plan_spec(format@) == Some(p),
            Err(e) => compress_plan_spec(format@) is None && e == OptimizeError::UnsupportedMaxSize(
                e->UnsupportedMaxSize_0,
            ) && e->UnsupportedMaxSize_0@ == format@,
        },
{
    let f = chars_of(format);
    if eq_lit(&f, "webm") {
        Ok((40, 10, 63))
    } else if eq_lit(&f, "gif") {
        Ok((10, -2, 2))
    } else if eq_lit(&f, "webp") {
        Ok((50, -10, 20))
    } else {
        Err(OptimizeError::UnsupportedMaxSize(lit(format)))
    }
}

/// The next parameter: one step on, kept within 0..=63.
pub open spec fn next_param_spec(param: u8, step: i8) -> u8 {
    let v = param as int + step as int;
    if v < 0 {
        0
    } else if v > 63 {
        63
    } else {
        v as u8
    }
}

pub fn next_param(param: u8, step: i8) -> (r: u8)
    ensures
        r == next_param_spec(param, step),
{
    let v = param as i16 + step as i16;
    if v < 0 {
        0
    } else if v > 63 {
        63
    } else {
        v as u8
    }
}

/// Size cap in bytes for a cap in MB.
pub fn max_bytes(max_mb: u32) -> (r: u64)
    ensures
        r == max_mb as int * 1024 * 1024,
{
    max_mb as u64 * 1024 * 1024
}

/// A re-encode round is kept when it fits, when the last parameter was
/// used, or when it did not shrink the file any further.
pub fn compress_round_done(new_size: u64, max_bytes: u64, param: u8, limit: u8, current: u64) -> (r:
    bool)
    ensures
        r == (new_size <= max_bytes || param == limit || new_size >= current),
{
    new_size <= max_bytes || param == limit || new_size >= current
}

/// Temporary file of a re-encode: the output with extension `tmp.<format>`.
/// A format name never holds a path separator.
pub fn compress_temp_path(output: &str, format: &str) -> (r: String)
    requires
        !format@.contains('/'),
    ensures
        r@ == spec_set_extension(output@, "tmp."@ + format@),
{
    let mut ext = lit("tmp.");
    push_str(&mut ext, format);
    proof {
        reveal_strlit("tmp.");
        assert forall|i: int| 0 <= i < ext@.len() implies ext@[i] != '/' by {
            if i >= 4 {
                assert(ext@[i] == format@[i - 4]);
            }
        }
    }
    path_set_extension(output, ext.as_str())
}

/// Law: from its starting parameter every plan reaches its last parameter
/// within four steps, so the re-encode loop always ends.
pub proof fn law_compress_reaches_limit(format: Seq<char>)
    requires
        compress_plan_spec(format) is Some,
    ensures
        ({
            let (start, step, limit) = compress_plan_spec(format).unwrap();
            let p1 = next_param_spec(start, step);
            let p2 = next_param_spec(p1, step);
            let p3 = next_param_spec(p2, step);
            let p4 = next_param_spec(p3, step);
            start == limit || p1 == limit || p2 == limit || p3 == limit || p4 == limit
        }),
{
}

} // verus!
