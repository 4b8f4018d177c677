//! ffmpeg command lines and ffmpeg capability detection.
//!
//! The argument lists are built here; running ffmpeg is the caller's part.

use vstd::prelude::*;

use crate::fspath::{file_stem, join, join_path, path_file_stem};
use crate::scan::{contains_name, has_name, pick_names, pick_table_names, strings_view, Pick};
use crate::text::{
    chars_of, dec, lines, lit, push_str, push_u64, slice, split_lines, split_words,
    starts_with, starts_with_lit, string_of, words,
};

verus! {

/// What the installed ffmpeg can do for media export.
#[derive(Debug, Clone, PartialEq)]
pub struct MediaCapabilities {
    pub has_palettegen: bool,
    pub has_libwebp: bool,
    pub ffmpeg_version: String,
}

/// The ffmpeg command-line adapter.
#[derive(Debug, Default)]
pub struct FfmpegV1Adapter;

impl FfmpegV1Adapter {
    pub fn new() -> Self {
        FfmpegV1Adapter
    }
}

/// Appends one argument.
pub fn push_arg(v: &mut Vec<String>, s: &str)
    ensures
        strings_view(final(v)@) == strings_view(old(v)@).push(s@),
{
    v.push(lit(s));
    assert(strings_view(final(v)@) =~= strings_view(old(v)@).push(s@));
}

pub fn push_arg_string(v: &mut Vec<String>, s: String)
    ensures
        strings_view(final(v)@) == strings_view(old(v)@).push(s@),
{
    let ghost sv = s@;
    v.push(s);
    assert(strings_view(final(v)@) =~= strings_view(old(v)@).push(sv));
}

/// Palette file for a GIF conversion: `<cache>/<input stem>.palette.png`.
pub open spec fn palette_spec(cache: Seq<char>, input: Seq<char>) -> Seq<char> {
    let stem = match file_stem(input) {
        Some(s) => s,
        None => "palette"@,
    };
    join(cache, stem + ".palette.png"@)
}

pub fn palette_path(cache_dir: &str, input: &str) -> (r: String)
    ensures
        r@ == palette_spec(cache_dir@, input@),
{
    let mut name = match path_file_stem(input) {
        Some(s) => s,
        None => lit("palette"),
    };
    push_str(&mut name, ".palette.png");
    join_path(cache_dir, name.as_str())
}

/// Pass 1 of a GIF: `-y -i <in> -vf fps=<n>,palettegen=max_colors=256 <palette>`.
pub open spec fn palettegen_spec(input: Seq<char>, fps: u32, palette: Seq<char>) -> Seq<Seq<char>> {
    seq![
        "-y"@,
        "-i"@,
        input,
        "-vf"@,
        "fps="@ + dec(fps as nat) + ",palettegen=max_colors=256"@,
        palette,
    ]
}

pub fn palettegen_cmd(input: &str, fps: u32, palette: &str) -> (r: Vec<String>)
    ensures
        strings_view(r@) == palettegen_spec(input@, fps, palette@),
{
    let mut v: Vec<String> = Vec::new();
    push_arg(&mut v, "-y");
    push_arg(&mut v, "-i");
    push_arg(&mut v, input);
    push_arg(&mut v, "-vf");
    let mut f = lit("fps=");
    push_u64(&mut f, fps as u64);
    push_str(&mut f, ",palettegen=max_colors=256");
    push_arg_string(&mut v, f);
    push_arg(&mut v, palette);
    assert(strings_view(v@) =~= palettegen_spec(input@, fps, palette@));
    v
}

/// Pass 2 of a GIF: apply the palette with Bayer dithering.
pub open spec fn paletteuse_spec(
    input: Seq<char>,
    palette: Seq<char>,
    output: Seq<char>,
    fps: u32,
) -> Seq<Seq<char>> {
    seq![
        "-y"@,
        "-i"@,
        input,
        "-i"@,
        palette,
        "-lavfi"@,
        "fps="@ + dec(fps as nat) + " [x];[x][1:v] paletteuse=dither=bayer:bayer_scale=5"@,
        output,
    ]
}

pub fn paletteuse_cmd(input: &str, palette: &str, output: &str, fps: u32) -> (r: Vec<String>)
    ensures
        strings_view(r@) == paletteuse_spec(input@, palette@, output@, fps),
{
    let mut v: Vec<String> = Vec::new();
    push_arg(&mut v, "-y");
    push_arg(&mut v, "-i");
    push_arg(&mut v, input);
    push_arg(&mut v, "-i");
    push_arg(&mut v, palette);
    push_arg(&mut v, "-lavfi");
    let mut f = lit("fps=");
    push_u64(&mut f, fps as u64);
    push_str(&mut f, " [x];[x][1:v] paletteuse=dither=bayer:bayer_scale=5");
    push_arg_string(&mut v, f);
    push_arg(&mut v, output);
    assert(strings_view(v@) =~= paletteuse_spec(input@, palette@, output@, fps));
    v
}

/// WebP: drop duplicate frames (`mpdecimate`), keep timing (`setpts`),
/// encode with libwebp at the given quality.
pub open spec fn to_webp_spec(input: Seq<char>, output: Seq<char>, quality: u8) -> Seq<
    Seq<char>,
> {
    seq![
        "-y"@,
        "-i"@,
        input,
        "-vf"@,
        "mpdecimate,setpts=N/FRAME_RATE/TB"@,
        "-c:v"@,
        "libwebp"@,
        "-quality"@,
        dec(quality as nat),
        output,
    ]
}

pub fn to_webp_cmd(input: &str, output: &str, quality: u8) -> (r: Vec<String>)
    ensures
        strings_view(r@) == to_webp_spec(input@, output@, quality),
{
    let mut v: Vec<String> = Vec::new();
    push_arg(&mut v, "-y");
    push_arg(&mut v, "-i");
    push_arg(&mut v, input);
    push_arg(&mut v, "-vf");
    push_arg(&mut v, "mpdecimate,setpts=N/FRAME_RATE/TB");
    push_arg(&mut v, "-c:v");
    push_arg(&mut v, "libwebp");
    push_arg(&mut v, "-quality");
    let mut q = String::new();
    push_u64(&mut q, quality as u64);
    push_arg_string(&mut v, q);
    push_arg(&mut v, output);
    assert(strings_view(v@) =~= to_webp_spec(input@, output@, quality));
    v
}

/// Same-format re-encode used to fit a size cap: webm lowers quality with
/// VP9's crf, gif lowers the frame rate, webp lowers quality; other formats
/// are copied as they are.
pub open spec fn recompress_spec(
    input: Seq<char>,
    output: Seq<char>,
    format: Seq<char>,
    quality: u8,
) -> Seq<Seq<char>> {
    let head = seq!["-y"@, "-i"@, input];
    let mid = if format == "webm"@ {
        seq!["-c:v"@, "libvpx-vp9"@, "-crf"@, dec(quality as nat), "-deadline"@, "realtime"@]
    } else if format == "gif"@ {
        seq!["-vf"@, "fps="@ + dec(quality as nat)]
    } else if format == "webp"@ {
        seq![
            "-vf"@,
            "mpdecimate,setpts=N/FRAME_RATE/TB"@,
            "-c:v"@,
            "libwebp"@,
            "-quality"@,
            dec(quality as nat),
        ]
    } else {
        Seq::empty()
    };
    head + mid + seq![output]
}

pub fn recompress_cmd(input: &str, output: &str, format: &str, quality: u8) -> (r: Vec<String>)
    ensures
        strings_view(r@) == recompress_spec(input@, output@, format@, quality),
{
    let mut v: Vec<String> = Vec::new();
    push_arg(&mut v, "-y");
    push_arg(&mut v, "-i");
    push_arg(&mut v, input);
    let ghost head = strings_view(v@);
    let f = chars_of(format);
    let mut q = String::new();
    push_u64(&mut q, quality as u64);
    if crate::text::eq_lit(&f, "webm") {
        push_arg(&mut v, "-c:v");
        push_arg(&mut v, "libvpx-vp9");
        push_arg(&mut v, "-crf");
        push_arg_string(&mut v, q);
        push_arg(&mut v, "-deadline");
        push_arg(&mut v, "realtime");
    } else if crate::text::eq_lit(&f, "gif") {
        push_arg(&mut v, "-vf");
        let mut g = lit("fps=");
        push_str(&mut g, q.as_str());
        push_arg_string(&mut v, g);
    } else if crate::text::eq_lit(&f, "webp") {
        push_arg(&mut v, "-vf");
        push_arg(&mut v, "mpdecimate,setpts=N/FRAME_RATE/TB");
        push_arg(&mut v, "-c:v");
        push_arg(&mut v, "libwebp");
        push_arg(&mut v, "-quality");
        push_arg_string(&mut v, q);
    }
    push_arg(&mut v, output);
    assert(strings_view(v@) =~= recompress_spec(input@, output@, format@, quality));
    v
}

/// Filter names listed by `ffmpeg -filters` (second column of every line).
pub fn parse_filter_lines(output: &str) -> (r: Vec<String>)
    ensures
        strings_view(r@) == pick_names(output@, Pick::AnyName),
{
    pick_table_names(output, Pick::AnyName)
}

/// Video encoder names listed by `ffmpeg -encoders`.
pub fn parse_encoder_lines(output: &str) -> (r: Vec<String>)
    ensures
        strings_view(r@) == pick_names(output@, Pick::Video),
{
    pick_table_names(output, Pick::Video)
}

/// The version token of `ffmpeg -version`: the first word after
/// `ffmpeg version ` on the first line, or empty.
pub open spec fn version_spec(output: Seq<char>) -> Seq<char> {
    let ls = lines(output);
    if ls.len() > 0 && starts_with(ls[0], "ffmpeg version "@) {
        let ws = words(ls[0].skip("ffmpeg version "@.len() as int));
        if ws.len() > 0 {
            ws[0]
        } else {
            Seq::empty()
        }
    } else {
        Seq::empty()
    }
}

pub fn parse_version_line(output: &str) -> (r: String)
    ensures
        r@ == version_spec(output@),
{
    let t = chars_of(output);
    let ls = split_lines(&t);
    assert(ls@.len() == lines(output@).len());
    if ls.len() == 0 {
        return String::new();
    }
    assert(ls@.map_values(|l: Vec<char>| l@)[0] == ls@[0]@);
    let first = &ls[0];
    if !starts_with_lit(first, "ffmpeg version ") {
        return String::new();
    }
    let n = chars_of("ffmpeg version ").len();
    let rest = slice(first, n, first.len());
    assert(rest@ =~= first@.skip("ffmpeg version "@.len() as int));
    let ws = split_words(&rest);
    assert(ws@.len() == words(rest@).len());
    if ws.len() == 0 {
        return String::new();
    }
    assert(ws@.map_values(|w: Vec<char>| w@)[0] == ws@[0]@);
    string_of(&ws[0])
}

/// Capabilities from the outputs of `ffmpeg -filters`, `ffmpeg -encoders`
/// and `ffmpeg -version` (None: that run failed).
pub open spec fn caps_spec(
    filters: Option<Seq<char>>,
    encoders: Option<Seq<char>>,
    version: Option<Seq<char>>,
) -> (bool, bool, Seq<char>) {
    (
        match filters {
            Some(f) => has_name(pick_names(f, Pick::AnyName), "palettegen"@),
            None => false,
        },
        match encoders {
            Some(e) => has_name(pick_names(e, Pick::Video), "libwebp"@),
            None => false,
        },
        match version {
            Some(v) => version_spec(v),
            None => Seq::empty(),
        },
    )
}

pub open spec fn opt_str(o: Option<&str>) -> Option<Seq<char>> {
    match o {
        Some(s) => Some(s@),
        None => None,
    }
}

impl MediaCapabilities {
    /// What the probe outputs say: palettegen among the filters, libwebp
    /// among the video encoders, and the version token.
    pub fn from_probe(filters: Option<&str>, encoders: Option<&str>, version: Option<&str>) -> (c:
        Self)
        ensures
            (c.has_palettegen, c.has_libwebp, c.ffmpeg_version@) == caps_spec(
                opt_str(filters),
                opt_str(encoders),
                opt_str(version),
            ),
    {
        let has_palettegen = match filters {
            Some(f) => {
                let names = parse_filter_lines(f);
                contains_name(&names, "palettegen")
            },
            None => false,
        };
        let has_libwebp = match encoders {
            Some(e) => {
                let names = parse_encoder_lines(e);
                contains_name(&names, "libwebp")
            },
            None => false,
        };
        let ffmpeg_version = match version {
            Some(v) => parse_version_line(v),
            None => String::new(),
        };
        MediaCapabilities { has_palettegen, has_libwebp, ffmpeg_version }
    }
}

/// The last line of a tool's trimmed stderr text (empty when there is
/// none), the part shown when an ffmpeg step fails.
pub open spec fn last_line_of(t: Seq<char>) -> Seq<char> {
    let ls = crate::text::lines(crate::text::trim(t));
    if ls.len() == 0 {
        Seq::empty()
    } else {
        ls.last()
    }
}

pub open spec fn last_line_spec(b: Seq<u8>) -> Seq<char> {
    last_line_of(crate::compositor::spec_utf8_lossy(b))
}

pub fn last_line_of_text(text: &str) -> (r: String)
    ensures
        r@ == last_line_of(text@),
{
    let v = crate::text::chars_of(text);
    let t = crate::text::trim_chars(&v);
    let ls = crate::text::split_lines(&t);
    proof {
        assert(ls@.len() == ls@.map_values(|l: Vec<char>| l@).len());
    }
    if ls.len() == 0 {
        String::new()
    } else {
        let last = &ls[ls.len() - 1];
        proof {
            assert(ls@.map_values(|l: Vec<char>| l@)[ls.len() - 1] == last@);
        }
        crate::text::string_of(last)
    }
}

/// The last line of a tool's stderr bytes, decoded as UTF-8 with invalid
/// sequences replaced.
pub fn last_stderr_line(stderr: &[u8]) -> (r: String)
    ensures
        r@ == last_line_spec(stderr@),
{
    let text = crate::compositor::utf8_lossy(stderr);
    last_line_of_text(text.as_str())
}

} // verus!
