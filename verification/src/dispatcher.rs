//! Engine choice, run options and the vhs `.tape` text of a `.roll` script.
//!
//! The recording itself (starting vhs or wf-recorder, injecting input,
//! sending signals) is done by the caller; this module decides what to run
//! and writes the text handed to vhs.

use vstd::prelude::*;

use crate::fspath::{
    extension, file_stem, join, join_path, path_extension, path_file_name, path_file_stem,
    path_parent, path_set_extension, path_with_file_name, spec_file_name, spec_parent,
    spec_set_extension, with_file_name,
};
use crate::paths::{cache_dir_spec, resolve_output_path, resolve_output_spec, XdgEnv};
use crate::script::{
    commands_view, engine_named, opt_view, parse_engine_str, ClickType, CommandModel, Engine,
    Script, ScriptCommand, ScriptModel,
};
use crate::text::{
    chars, dec, dec_int, lemma_dec_digits, lemma_dec_injective, eq_lit, lit, push_i64, push_str, push_u64, string_of,
};

verus! {

// ───────────────────────── engine choice ─────────────────────────

/// Commands that only make sense on a real desktop.
pub open spec fn gui_intent(c: CommandModel) -> bool {
    match c {
        CommandModel::WaitWindow(..) => true,
        CommandModel::TargetWindow(..) => true,
        CommandModel::WindowSize(..) => true,
        CommandModel::Padding(..) => true,
        CommandModel::Shortcut(..) => true,
        CommandModel::MouseMove(..) => true,
        CommandModel::Click(..) => true,
        CommandModel::Optimize(..) => true,
        _ => false,
    }
}

pub open spec fn has_gui_intent(cs: Seq<CommandModel>) -> bool {
    exists|i: int| 0 <= i < cs.len() && gui_intent(#[trigger] cs[i])
}

/// An explicit engine is kept; `Auto` or no engine picks Native when the
/// script has a desktop-only command and vhs otherwise.
pub open spec fn resolved_engine(s: ScriptModel) -> Engine {
    match s.engine {
        Some(Engine::Vhs) => Engine::Vhs,
        Some(Engine::Native) => Engine::Native,
        _ => if has_gui_intent(s.commands) {
            Engine::Native
        } else {
            Engine::Vhs
        },
    }
}

fn is_gui_command(c: &ScriptCommand) -> (r: bool)
    ensures
        r == gui_intent(c@),
{
    match c {
        ScriptCommand::WaitWindow(..) => true,
        ScriptCommand::TargetWindow(..) => true,
        ScriptCommand::WindowSize(..) => true,
        ScriptCommand::Padding(..) => true,
        ScriptCommand::Shortcut(..) => true,
        ScriptCommand::MouseMove(..) => true,
        ScriptCommand::Click(..) => true,
        ScriptCommand::Optimize(..) => true,
        _ => false,
    }
}

/// The engine a script runs on (`Auto` is never returned).
pub fn resolve_engine(script: &Script) -> (e: Engine)
    ensures
        e == resolved_engine(script@),
        e != Engine::Auto,
{
    match script.engine {
        Some(Engine::Vhs) => Engine::Vhs,
        Some(Engine::Native) => Engine::Native,
        _ => {
            let ghost cs = commands_view(script.commands@);
            let mut i: usize = 0;
            while i < script.commands.len()
                invariant
                    i <= script.commands.len(),
                    cs == commands_view(script.commands@),
                    forall|k: int| 0 <= k < i ==> !gui_intent(#[trigger] cs[k]),
                    script.engine != Some(Engine::Vhs),
                    script.engine != Some(Engine::Native),
                decreases script.commands.len() - i,
            {
                if is_gui_command(&script.commands[i]) {
                    assert(cs[i as int] == script.commands@[i as int]@);
                    assert(gui_intent(cs[i as int]));
                    assert(has_gui_intent(script@.commands));
                    return Engine::Native;
                }
                assert(cs[i as int] == script.commands@[i as int]@);
                i += 1;
            }
            Engine::Vhs
        },
    }
}

/// Engine from the configuration's `[defaults].engine`, applied only when
/// the script names none.
pub fn apply_engine_default(script: &mut Script, cfg_engine: Option<&str>)
    ensures
        final(script)@ == (ScriptModel {
            engine: if old(script)@.engine is None {
                match cfg_engine {
                    Some(e) => engine_named(e@),
                    None => None,
                }
            } else {
                old(script)@.engine
            },
            ..old(script)@
        }),
{
    if script.engine.is_none() {
        script.engine = match cfg_engine {
            Some(e) => parse_engine_str(e),
            None => None,
        };
    }
}

/// Frame rate precedence: command line, then script, then configuration.
pub fn apply_fps_precedence(script_fps: &mut Option<u32>, cli_fps: Option<u32>, cfg_fps: Option<
    u32,
>)
    ensures
        *final(script_fps) == match cli_fps {
            Some(f) => Some(f),
            None => if *old(script_fps) is Some {
                *old(script_fps)
            } else {
                cfg_fps
            },
        },
{
    if let Some(fps) = cli_fps {
        *script_fps = Some(fps);
    } else if script_fps.is_none() {
        *script_fps = cfg_fps;
    }
}

/// `--gif` / `--webp`: the extension of the output path is replaced (gif
/// wins when both are set); with neither the path is unchanged.
pub fn apply_format_override(output: &mut String, gif: bool, webp: bool)
    ensures
        final(output)@ == if gif {
            spec_set_extension(old(output)@, "gif"@)
        } else if webp {
            spec_set_extension(old(output)@, "webp"@)
        } else {
            old(output)@
        },
{
    if gif {
        proof {
            reveal_strlit("gif");
        }
        *output = path_set_extension(output.as_str(), "gif");
    } else if webp {
        proof {
            reveal_strlit("webp");
        }
        *output = path_set_extension(output.as_str(), "webp");
    }
}

// ───────────────────────── run options ─────────────────────────

/// Options shared by `run` and batch re-recording.
#[derive(Debug, Clone)]
pub struct RunOptions {
    /// Output path override (None: the script's Output, resolved under XDG).
    pub output: Option<String>,
    /// Size cap in MB after recording.
    pub max_size: Option<u32>,
    /// Output as .gif.
    pub gif: bool,
    /// Output as .webp.
    pub webp: bool,
    /// Only resolve and print, no recording.
    pub dry_run: bool,
}

impl Default for RunOptions {
    fn default() -> (r: Self)
        ensures
            r.output is None,
            r.max_size is None,
            !r.gif,
            !r.webp,
            !r.dry_run,
    {
        RunOptions { output: None, max_size: None, gif: false, webp: false, dry_run: false }
    }
}

/// Output path of a run: the script's Output (or `output.webm`) resolved
/// against the override and the cache directory, then the format override.
pub open spec fn run_output_spec(env: XdgEnv, s: ScriptModel, override_out: Option<Seq<char>>, gif: bool, webp: bool) -> Seq<char> {
    let raw = match s.output {
        Some(o) => o,
        None => "output.webm"@,
    };
    let p = resolve_output_spec(cache_dir_spec(env), raw, override_out);
    if gif {
        spec_set_extension(p, "gif"@)
    } else if webp {
        spec_set_extension(p, "webp"@)
    } else {
        p
    }
}

/// Engine and output path a run will use.
pub fn plan_run(env: &XdgEnv, script: &Script, opts: &RunOptions) -> (r: (Engine, String))
    ensures
        r.0 == resolved_engine(script@),
        r.1@ == run_output_spec(*env, script@, opt_view(opts.output), opts.gif, opts.webp),
{
    let engine = resolve_engine(script);
    let raw = match &script.output {
        Some(o) => crate::text::copy_string(o),
        None => lit("output.webm"),
    };
    let ov: Option<&str> = match &opts.output {
        Some(o) => Some(o.as_str()),
        None => None,
    };
    let mut output = resolve_output_path(env, raw.as_str(), ov);
    apply_format_override(&mut output, opts.gif, opts.webp);
    (engine, output)
}

pub open spec fn engine_name(e: Engine) -> Seq<char> {
    match e {
        Engine::Auto => "Auto"@,
        Engine::Vhs => "Vhs"@,
        Engine::Native => "Native"@,
    }
}

pub fn engine_label(e: Engine) -> (r: String)
    ensures
        r@ == engine_name(e),
{
    match e {
        Engine::Auto => lit("Auto"),
        Engine::Vhs => lit("Vhs"),
        Engine::Native => lit("Native"),
    }
}

pub open spec fn fps_debug(f: Option<u32>) -> Seq<char> {
    match f {
        Some(n) => "Some("@ + dec(n as nat) + ")"@,
        None => "None"@,
    }
}

/// The `--dry-run` summary line.
pub open spec fn dry_run_spec(
    file: Seq<char>,
    e: Engine,
    output: Seq<char>,
    fps: Option<u32>,
    n: nat,
) -> Seq<char> {
    "dry-run: "@ + file + " engine="@ + engine_name(e) + " output="@ + output + " fps="@
        + fps_debug(fps) + " commands="@ + dec(n)
}

pub fn dry_run_line(file: &str, e: Engine, output: &str, fps: Option<u32>, n: usize) -> (r:
    String)
    ensures
        r@ == dry_run_spec(file@, e, output@, fps, n as nat),
{
    let mut r = String::new();
    push_str(&mut r, "dry-run: ");
    push_str(&mut r, file);
    push_str(&mut r, " engine=");
    let el = engine_label(e);
    push_str(&mut r, el.as_str());
    push_str(&mut r, " output=");
    push_str(&mut r, output);
    push_str(&mut r, " fps=");
    match fps {
        Some(f) => {
            push_str(&mut r, "Some(");
            push_u64(&mut r, f as u64);
            push_str(&mut r, ")");
        },
        None => {
            push_str(&mut r, "None");
        },
    }
    push_str(&mut r, " commands=");
    push_u64(&mut r, n as u64);
    assert(r@ =~= dry_run_spec(file@, e, output@, fps, n as nat));
    r
}

// ───────────────────────── media links ─────────────────────────

/// Markup formats of `link`.
pub open spec fn link_spec(path: Seq<char>, name: Seq<char>, format: Seq<char>) -> Option<
    Seq<char>,
> {
    if format == "md"@ || format == "markdown"@ {
        Some("![]("@ + path + ")"@)
    } else if format == "html"@ {
        Some("<img src=\""@ + path + "\" alt=\""@ + name + "\" />"@)
    } else if format == "zola"@ {
        Some("{{ figure(src=\""@ + path + "\", alt=\""@ + name + "\") }}"@)
    } else {
        None
    }
}

/// File name shown in links (empty when the path has none).
pub open spec fn link_name(path: Seq<char>) -> Seq<char> {
    match spec_file_name(path) {
        Some(n) => n,
        None => Seq::empty(),
    }
}

/// A `link` format that is not supported.
#[derive(Debug, Clone, PartialEq, Eq)]
pub struct UnsupportedFormat {
    pub format: String,
}

impl UnsupportedFormat {
    pub fn message(&self) -> (m: String)
        ensures
            m@ == "不支援的格式 '"@ + self.format@ + "'，支援：md, html, zola"@,
    {
        let mut m = lit("不支援的格式 '");
        push_str(&mut m, self.format.as_str());
        push_str(&mut m, "'，支援：md, html, zola");
        m
    }
}

/// Embedding markup for a media file: Markdown (`md`/`markdown`), `html` or
/// `zola`; any other format is an error.
pub fn media_link(media_file: &str, format: &str) -> (r: Result<String, UnsupportedFormat>)
    ensures
        match r {
            Ok(s) => link_spec(media_file@, link_name(media_file@), format@) == Some(s@),
            Err(e) => link_spec(media_file@, link_name(media_file@), format@) is None
                && e.format@ == format@,
        },
{
    let name = match path_file_name(media_file) {
        Some(n) => n,
        None => String::new(),
    };
    assert(name@ == link_name(media_file@));
    let f = crate::text::chars_of(format);
    if eq_lit(&f, "md") || eq_lit(&f, "markdown") {
        let mut s = lit("![](");
        push_str(&mut s, media_file);
        push_str(&mut s, ")");
        Ok(s)
    } else if eq_lit(&f, "html") {
        let mut s = lit("<img src=\"");
        push_str(&mut s, media_file);
        push_str(&mut s, "\" alt=\"");
        push_str(&mut s, name.as_str());
        push_str(&mut s, "\" />");
        Ok(s)
    } else if eq_lit(&f, "zola") {
        let mut s = lit("{{ figure(src=\"");
        push_str(&mut s, media_file);
        push_str(&mut s, "\", alt=\"");
        push_str(&mut s, name.as_str());
        push_str(&mut s, "\") }}");
        Ok(s)
    } else {
        Err(UnsupportedFormat { format: lit(format) })
    }
}

// ───────────────────────── vhs tape ─────────────────────────

/// `{:03}` of a number.
pub open spec fn pad3(n: nat) -> Seq<char> {
    if n < 10 {
        "00"@ + dec(n)
    } else if n < 100 {
        "0"@ + dec(n)
    } else {
        dec(n)
    }
}

/// Directory of the per-step screenshots: `frames/` next to the output.
pub open spec fn shots_dir(output: Seq<char>) -> Seq<char> {
    match spec_parent(output) {
        Some(p) => join(p, "frames"@),
        None => "frames"@,
    }
}

pub open spec fn shot_line(dir: Seq<char>, n: nat) -> Seq<char> {
    "Screenshot \""@ + join(dir, pad3(n) + ".png"@) + "\"\n"@
}

pub open spec fn repeat(t: Seq<char>, k: nat) -> Seq<char>
    decreases k,
{
    if k == 0 {
        Seq::empty()
    } else {
        repeat(t, (k - 1) as nat) + t
    }
}

/// A key press in vhs: a single character is typed `count` times; a named
/// key is written with its count when that exceeds one.
pub open spec fn key_text(name: Seq<char>, count: u32) -> Seq<char> {
    if name.len() == 1 {
        repeat("Type \""@ + name + "\"\n"@, count as nat)
    } else if count > 1 {
        name + " "@ + dec(count as nat) + "\n"@
    } else {
        name + "\n"@
    }
}

pub open spec fn button_word(t: ClickType) -> Seq<char> {
    match t {
        ClickType::Left => "left"@,
        ClickType::Right => "right"@,
        ClickType::Middle => "middle"@,
    }
}

/// Text of one command and the screenshot counter after it. Typing, keys
/// and clicks are followed by a screenshot; automation commands (ExecBefore,
/// ExecAfter, WaitWindow, ...) write nothing.
pub open spec fn cmd_text(c: CommandModel, dir: Seq<char>, n: nat) -> (Seq<char>, nat) {
    match c {
        CommandModel::Type(t) => (
            "Type \""@ + t + "\"\n"@ + shot_line(dir, n + 1),
            n + 1,
        ),
        CommandModel::Key(name, count) => (key_text(name, count) + shot_line(dir, n + 1), n + 1),
        CommandModel::Sleep(ms) => ("Sleep "@ + dec(ms as nat) + "ms\n"@, n),
        CommandModel::MouseMove(x, y) => (
            "MouseMove "@ + dec_int(x as int) + " "@ + dec_int(y as int) + "\n"@,
            n,
        ),
        CommandModel::Click(t) => (
            "MouseClick "@ + button_word(t) + "\n"@ + shot_line(dir, n + 1),
            n + 1,
        ),
        CommandModel::Roll(s) => ("Sleep "@ + dec(s as nat) + "s\n"@, n),
        CommandModel::Vhs(line) => (line + "\n"@, n),
        _ => (Seq::empty(), n),
    }
}

pub open spec fn cmds_text(cs: Seq<CommandModel>, i: int, dir: Seq<char>, n: nat) -> Seq<char>
    decreases cs.len() - i,
{
    if i < 0 || i >= cs.len() {
        Seq::empty()
    } else {
        let (t, n2) = cmd_text(cs[i], dir, n);
        t + cmds_text(cs, i + 1, dir, n2)
    }
}

pub open spec fn tape_header(s: ScriptModel, output: Seq<char>) -> Seq<char> {
    "Output \""@ + output + "\"\n"@ + match s.fps {
        Some(f) => "Set Framerate "@ + dec(f as nat) + "\n"@,
        None => Seq::empty(),
    } + match s.shell {
        Some(t) => "Set Shell \""@ + t + "\"\n"@,
        None => Seq::empty(),
    }
}

/// The closing line: frames of the run are also written into the sink.
pub open spec fn sink_line(sink: Seq<char>) -> Seq<char> {
    "Output \""@ + join(sink, "frames.png"@) + "\"\n"@
}

/// The whole `.tape` text for a script.
pub open spec fn tape_spec(s: ScriptModel, output: Seq<char>, sink: Seq<char>) -> Seq<char> {
    tape_header(s, output) + cmds_text(s.commands, 0, shots_dir(output), 0) + sink_line(sink)
}

fn push_shot(t: &mut String, dir: &str, n: u64)
    ensures
        final(t)@ == old(t)@ + shot_line(dir@, n as nat),
{
    let mut name = String::new();
    if n < 10 {
        push_str(&mut name, "00");
    } else if n < 100 {
        push_str(&mut name, "0");
    }
    push_u64(&mut name, n);
    push_str(&mut name, ".png");
    assert(name@ =~= pad3(n as nat) + ".png"@);
    let p = join_path(dir, name.as_str());
    push_str(t, "Screenshot \"");
    push_str(t, p.as_str());
    push_str(t, "\"\n");
    assert(final(t)@ =~= old(t)@ + shot_line(dir@, n as nat));
}

fn push_key(t: &mut String, name: &String, count: u32)
    ensures
        final(t)@ == old(t)@ + key_text(name@, count),
{
    let nv = chars(name);
    if nv.len() == 1 {
        let mut line = lit("Type \"");
        push_str(&mut line, name.as_str());
        push_str(&mut line, "\"\n");
        let mut k: u32 = 0;
        while k < count
            invariant
                k <= count,
                t@ == old(t)@ + repeat(line@, k as nat),
            decreases count - k,
        {
            push_str(t, line.as_str());
            k += 1;
            assert(repeat(line@, k as nat) == repeat(line@, (k - 1) as nat) + line@);
            assert(t@ =~= old(t)@ + repeat(line@, k as nat));
        }
        assert(line@ =~= "Type \""@ + name@ + "\"\n"@);
    } else if count > 1 {
        push_str(t, name.as_str());
        push_str(t, " ");
        push_u64(t, count as u64);
        push_str(t, "\n");
        assert(t@ =~= old(t)@ + key_text(name@, count));
    } else {
        push_str(t, name.as_str());
        push_str(t, "\n");
        assert(t@ =~= old(t)@ + key_text(name@, count));
    }
}

fn push_cmd(t: &mut String, c: &ScriptCommand, dir: &str, n: u64) -> (r: u64)
    requires
        n < u64::MAX,
    ensures
        final(t)@ == old(t)@ + cmd_text(c@, dir@, n as nat).0,
        r as nat == cmd_text(c@, dir@, n as nat).1,
        r <= n + 1,
{
    match c {
        ScriptCommand::Type(text) => {
            push_str(t, "Type \"");
            push_str(t, text.as_str());
            push_str(t, "\"\n");
            push_shot(t, dir, n + 1);
            assert(t@ =~= old(t)@ + cmd_text(c@, dir@, n as nat).0);
            n + 1
        },
        ScriptCommand::Key(name, count) => {
            push_key(t, name, *count);
            push_shot(t, dir, n + 1);
            assert(t@ =~= old(t)@ + cmd_text(c@, dir@, n as nat).0);
            n + 1
        },
        ScriptCommand::Sleep(ms) => {
            push_str(t, "Sleep ");
            push_u64(t, *ms);
            push_str(t, "ms\n");
            assert(t@ =~= old(t)@ + cmd_text(c@, dir@, n as nat).0);
            n
        },
        ScriptCommand::MouseMove(x, y) => {
            push_str(t, "MouseMove ");
            push_i64(t, *x as i64);
            push_str(t, " ");
            push_i64(t, *y as i64);
            push_str(t, "\n");
            assert(t@ =~= old(t)@ + cmd_text(c@, dir@, n as nat).0);
            n
        },
        ScriptCommand::Click(b) => {
            push_str(t, "MouseClick ");
            match b {
                ClickType::Left => push_str(t, "left"),
                ClickType::Right => push_str(t, "right"),
                ClickType::Middle => push_str(t, "middle"),
            }
            push_str(t, "\n");
            push_shot(t, dir, n + 1);
            assert(t@ =~= old(t)@ + cmd_text(c@, dir@, n as nat).0);
            n + 1
        },
        ScriptCommand::Roll(s) => {
            push_str(t, "Sleep ");
            push_u64(t, *s);
            push_str(t, "s\n");
            assert(t@ =~= old(t)@ + cmd_text(c@, dir@, n as nat).0);
            n
        },
        ScriptCommand::Vhs(line) => {
            push_str(t, line.as_str());
            push_str(t, "\n");
            assert(t@ =~= old(t)@ + cmd_text(c@, dir@, n as nat).0);
            n
        },
        _ => {
            assert(t@ =~= old(t)@ + cmd_text(c@, dir@, n as nat).0);
            n
        },
    }
}

/// The screenshot directory for an output path.
pub fn shots_dir_of(output: &str) -> (r: String)
    ensures
        r@ == shots_dir(output@),
{
    match path_parent(output) {
        Some(p) => join_path(p.as_str(), "frames"),
        None => lit("frames"),
    }
}

/// Renders a script as vhs `.tape` text: the main `Output` line first,
/// frame rate and shell settings, one block per command, and a closing
/// `Output` line writing frames into `sink`.
pub fn script_to_tape_content(script: &Script, output: &str, sink: &str) -> (r: String)
    ensures
        r@ == tape_spec(script@, output@, sink@),
{
    let mut t = String::new();
    push_str(&mut t, "Output \"");
    push_str(&mut t, output);
    push_str(&mut t, "\"\n");
    if let Some(fps) = script.fps {
        push_str(&mut t, "Set Framerate ");
        push_u64(&mut t, fps as u64);
        push_str(&mut t, "\n");
    }
    if let Some(sh) = &script.shell {
        push_str(&mut t, "Set Shell \"");
        push_str(&mut t, sh.as_str());
        push_str(&mut t, "\"\n");
    }
    assert(t@ =~= tape_header(script@, output@));
    let dir = shots_dir_of(output);
    let ghost cs = commands_view(script.commands@);
    let mut n: u64 = 0;
    let mut i: usize = 0;
    while i < script.commands.len()
        invariant
            i <= script.commands.len(),
            n <= i,
            cs == commands_view(script.commands@),
            t@ + cmds_text(cs, i as int, dir@, n as nat) == tape_header(script@, output@)
                + cmds_text(cs, 0, dir@, 0),
        decreases script.commands.len() - i,
    {
        let ghost before = t@;
        assert(cs[i as int] == script.commands@[i as int]@);
        let n2 = push_cmd(&mut t, &script.commands[i], dir.as_str(), n);
        assert(cmds_text(cs, i as int, dir@, n as nat) == cmd_text(cs[i as int], dir@, n as nat).0
            + cmds_text(cs, i + 1, dir@, n2 as nat));
        assert(t@ + cmds_text(cs, i + 1, dir@, n2 as nat) =~= before + cmds_text(
            cs,
            i as int,
            dir@,
            n as nat,
        ));
        n = n2;
        i += 1;
    }
    assert(cmds_text(cs, i as int, dir@, n as nat) =~= Seq::<char>::empty());
    let sp = join_path(sink, "frames.png");
    push_str(&mut t, "Output \"");
    push_str(&mut t, sp.as_str());
    push_str(&mut t, "\"\n");
    assert(t@ =~= tape_spec(script@, output@, sink@));
    t
}

// ───────────────────────── engines ─────────────────────────

/// vhs back end: the output path and the frame sink directory of this run.
#[derive(Debug, Clone)]
pub struct VhsEngine {
    pub output: String,
    pub sink: String,
}

impl VhsEngine {
    pub fn new(output: String, sink: String) -> (e: Self)
        ensures
            e.output == output,
            e.sink == sink,
    {
        VhsEngine { output, sink }
    }
}

/// Native back end: compositor geometry plus wf-recorder.
#[derive(Debug, Clone)]
pub struct NativeEngine {
    pub output: String,
}

impl NativeEngine {
    pub fn new(output: String) -> (e: Self)
        ensures
            e.output == output,
    {
        NativeEngine { output }
    }
}

pub open spec fn sink_name_spec(pid: nat, millis: nat) -> Seq<char> {
    "tapedeck-"@ + dec(pid) + "-"@ + dec(millis) + "-sink"@
}

/// Name of the per-run frame sink directory: `tapedeck-<pid>-<millis>-sink`.
pub fn sink_dir_name(pid: u32, millis: u64) -> (r: String)
    ensures
        r@ == sink_name_spec(pid as nat, millis as nat),
{
    let mut r = lit("tapedeck-");
    push_u64(&mut r, pid as u64);
    push_str(&mut r, "-");
    push_u64(&mut r, millis);
    push_str(&mut r, "-sink");
    r
}

/// Two sink names are equal only for the same process id and the same
/// time: runs started at different milliseconds get different sinks.
pub proof fn law_sink_names_distinct(p1: nat, m1: nat, p2: nat, m2: nat)
    requires
        p1 != p2 || m1 != m2,
    ensures
        sink_name_spec(p1, m1) != sink_name_spec(p2, m2),
{
    if sink_name_spec(p1, m1) == sink_name_spec(p2, m2) {
        reveal_strlit("tapedeck-");
        reveal_strlit("-sink");
        reveal_strlit("-");
        lemma_dec_digits(p1);
        lemma_dec_digits(p2);
        let x = sink_name_spec(p1, m1);
        let u1 = dec(p1) + "-"@ + dec(m1);
        let u2 = dec(p2) + "-"@ + dec(m2);
        assert(x.subrange(9, x.len() - 5) =~= u1);
        assert(sink_name_spec(p2, m2).subrange(9, x.len() - 5) =~= u2);
        let l1 = dec(p1).len() as int;
        let l2 = dec(p2).len() as int;
        if l1 < l2 {
            assert(u1[l1] == '-');
            assert(u2[l1] == dec(p2)[l1]);
        } else if l2 < l1 {
            assert(u2[l2] == '-');
            assert(u1[l2] == dec(p1)[l2]);
        }
        assert(u1.take(l1) =~= dec(p1));
        assert(u2.take(l2) =~= dec(p2));
        assert(u1.skip(l1 + 1) =~= dec(m1));
        assert(u2.skip(l2 + 1) =~= dec(m2));
        lemma_dec_injective(p1, p2);
        lemma_dec_injective(m1, m2);
    }
}

/// Name of the temporary tape file: `tapedeck-<pid>.tape`.
pub fn tape_file_name(pid: u32) -> (r: String)
    ensures
        r@ == "tapedeck-"@ + dec(pid as nat) + ".tape"@,
{
    let mut r = lit("tapedeck-");
    push_u64(&mut r, pid as u64);
    push_str(&mut r, ".tape");
    r
}

/// A recording only counts when the file exists and is not empty.
pub fn target_present(size: Option<u64>) -> (r: bool)
    ensures
        r == (size matches Some(n) && n > 0),
{
    match size {
        Some(n) => n > 0,
        None => false,
    }
}

/// Commands that only steer the native path write nothing into a tape.
pub open spec fn tape_silent(c: CommandModel) -> bool {
    c is ExecBefore || c is ExecAfter || c is WaitWindow || c is TargetWindow || c is WindowSize
        || c is Padding || c is Shortcut || c is Optimize
}

proof fn lemma_cmds_shifted(
    cs: Seq<CommandModel>,
    k: int,
    c: CommandModel,
    j: int,
    dir: Seq<char>,
    n: nat,
)
    requires
        0 <= k <= j <= cs.len(),
    ensures
        cmds_text(cs.insert(k, c), j + 1, dir, n) == cmds_text(cs, j, dir, n),
    decreases cs.len() - j,
{
    cs.insert_ensures(k, c);
    if j < cs.len() {
        assert(cs.insert(k, c)[j + 1] == cs[j]);
        let n2 = cmd_text(cs[j], dir, n).1;
        lemma_cmds_shifted(cs, k, c, j + 1, dir, n2);
    }
}

proof fn lemma_cmds_prefix(
    cs: Seq<CommandModel>,
    k: int,
    c: CommandModel,
    i: int,
    dir: Seq<char>,
    n: nat,
)
    requires
        0 <= i <= k <= cs.len(),
        tape_silent(c),
    ensures
        cmds_text(cs.insert(k, c), i, dir, n) == cmds_text(cs, i, dir, n),
    decreases k - i,
{
    cs.insert_ensures(k, c);
    if i == k {
        assert(cs.insert(k, c)[k] == c);
        assert(cmd_text(c, dir, n) == (Seq::<char>::empty(), n));
        lemma_cmds_shifted(cs, k, c, k, dir, n);
        assert(Seq::<char>::empty() + cmds_text(cs, k, dir, n) =~= cmds_text(cs, k, dir, n));
    } else {
        assert(cs.insert(k, c)[i] == cs[i]);
        let n2 = cmd_text(cs[i], dir, n).1;
        lemma_cmds_prefix(cs, k, c, i + 1, dir, n2);
    }
}

/// Automation commands are invisible to vhs: adding one anywhere to a
/// script leaves its tape unchanged.
pub proof fn law_automation_invisible_in_tape(
    s: ScriptModel,
    k: int,
    c: CommandModel,
    output: Seq<char>,
    sink: Seq<char>,
)
    requires
        0 <= k <= s.commands.len(),
        tape_silent(c),
    ensures
        tape_spec(ScriptModel { commands: s.commands.insert(k, c), ..s }, output, sink) == tape_spec(
            s,
            output,
            sink,
        ),
{
    lemma_cmds_prefix(s.commands, k, c, 0, shots_dir(output), 0);
}

/// A tape always starts by writing the main output and always ends by
/// writing the frames into the sink, whatever the script holds.
pub proof fn law_tape_frame(s: ScriptModel, output: Seq<char>, sink: Seq<char>)
    ensures
        tape_spec(s, output, sink).take(("Output \""@ + output + "\"\n"@).len() as int) == "Output \""@
            + output + "\"\n"@,
        tape_spec(s, output, sink).skip(
            tape_spec(s, output, sink).len() - sink_line(sink).len(),
        ) == sink_line(sink),
{
    let t = tape_spec(s, output, sink);
    let head = "Output \""@ + output + "\"\n"@;
    assert(t.take(head.len() as int) =~= head);
    assert(t.skip(t.len() - sink_line(sink).len()) =~= sink_line(sink));
}

proof fn lemma_button_word(b: ClickType)
    ensures
        button_word(b) == crate::text::ascii_lower_seq(crate::script::click_word(b)),
{
    reveal_strlit("left");
    reveal_strlit("right");
    reveal_strlit("middle");
    reveal_strlit("Left");
    reveal_strlit("Right");
    reveal_strlit("Middle");
    assert(button_word(b) =~= crate::text::ascii_lower_seq(crate::script::click_word(b)));
}

/// A click is written as `MouseClick` and the lower-cased name of its
/// button (the word of its `Click` line), followed by its screenshot; so
/// different buttons give different tape lines.
pub proof fn law_click_tape_line(b: ClickType, other: ClickType, dir: Seq<char>, n: nat)
    ensures
        cmd_text(CommandModel::Click(b), dir, n) == (
            "MouseClick "@ + crate::text::ascii_lower_seq(crate::script::click_word(b)) + "\n"@
                + shot_line(dir, n + 1),
            n + 1,
        ),
        b != other ==> cmd_text(CommandModel::Click(b), dir, n).0 != cmd_text(
            CommandModel::Click(other),
            dir,
            n,
        ).0,
{
    lemma_button_word(b);
    lemma_button_word(other);
    reveal_strlit("MouseClick ");
    reveal_strlit("left");
    reveal_strlit("right");
    reveal_strlit("middle");
    let t1 = cmd_text(CommandModel::Click(b), dir, n).0;
    let t2 = cmd_text(CommandModel::Click(other), dir, n).0;
    assert(t1[11] == button_word(b)[0]);
    assert(t2[11] == button_word(other)[0]);
}

/// The tape keeps each command's arguments in place: typing writes its
/// text quoted and takes a screenshot, a mouse move writes `x` then `y`, a
/// sleep its milliseconds and a fixed length its seconds, neither taking a
/// screenshot.
pub proof fn law_tape_keeps_arguments(
    text: Seq<char>,
    x: i32,
    y: i32,
    ms: u64,
    secs: u64,
    dir: Seq<char>,
    n: nat,
)
    ensures
        cmd_text(CommandModel::Type(text), dir, n) == (
            "Type \""@ + text + "\"\n"@ + shot_line(dir, n + 1),
            n + 1,
        ),
        cmd_text(CommandModel::MouseMove(x, y), dir, n) == (
            "MouseMove "@ + dec_int(x as int) + " "@ + dec_int(y as int) + "\n"@,
            n,
        ),
        cmd_text(CommandModel::Sleep(ms), dir, n) == ("Sleep "@ + dec(ms as nat) + "ms\n"@, n),
        cmd_text(CommandModel::Roll(secs), dir, n) == ("Sleep "@ + dec(secs as nat) + "s\n"@, n),
{
}

/// A step that is followed by a screenshot: typing, a key, a click.
pub open spec fn shot_step(c: CommandModel) -> bool {
    c is Type || c is Key || c is Click
}

/// Number of screenshot steps in a list of commands.
pub open spec fn step_count(cs: Seq<CommandModel>) -> nat
    decreases cs.len(),
{
    if cs.len() == 0 {
        0
    } else {
        (if shot_step(cs[0]) {
            1nat
        } else {
            0nat
        }) + step_count(cs.drop_first())
    }
}

proof fn lemma_cmds_split(cs: Seq<CommandModel>, i: int, k: int, dir: Seq<char>, n: nat)
    requires
        0 <= i <= k <= cs.len(),
    ensures
        cmds_text(cs, i, dir, n) == cmds_text(cs.subrange(0, k), i, dir, n) + cmds_text(
            cs,
            k,
            dir,
            n + step_count(cs.subrange(i, k)),
        ),
    decreases k - i,
{
    let pre = cs.subrange(0, k);
    if i == k {
        assert(cs.subrange(i, k) =~= Seq::<CommandModel>::empty());
        assert(cmds_text(pre, i, dir, n) =~= Seq::<char>::empty());
        assert(Seq::<char>::empty() + cmds_text(cs, k, dir, n) =~= cmds_text(cs, k, dir, n));
    } else {
        assert(pre[i] == cs[i]);
        let (t, n2) = cmd_text(cs[i], dir, n);
        lemma_cmds_split(cs, i + 1, k, dir, n2);
        assert(cs.subrange(i, k).drop_first() =~= cs.subrange(i + 1, k));
        assert(cs.subrange(i, k)[0] == cs[i]);
        assert(n2 == n + (if shot_step(cs[i]) {
            1nat
        } else {
            0nat
        }));
        assert(t + (cmds_text(pre, i + 1, dir, n2) + cmds_text(
            cs,
            k,
            dir,
            n2 + step_count(cs.subrange(i + 1, k)),
        )) =~= (t + cmds_text(pre, i + 1, dir, n2)) + cmds_text(
            cs,
            k,
            dir,
            n2 + step_count(cs.subrange(i + 1, k)),
        ));
    }
}

/// Screenshots are numbered per typing, key and click step: in the tape of
/// commands `cs`, command `k` is written after exactly the tape of the
/// commands before it, with the counter at the number of such steps before
/// it; a step ends with the screenshot numbered one more, any other command
/// takes no number.
pub proof fn law_screenshots_numbered(cs: Seq<CommandModel>, k: int, dir: Seq<char>)
    requires
        0 <= k < cs.len(),
    ensures
        ({
            let n = step_count(cs.subrange(0, k));
            let (t, n2) = cmd_text(cs[k], dir, n);
            &&& cmds_text(cs, 0, dir, 0) == cmds_text(cs.subrange(0, k), 0, dir, 0) + t
                + cmds_text(cs, k + 1, dir, n2)
            &&& shot_step(cs[k]) ==> n2 == n + 1 && t.skip(t.len() - shot_line(dir, n + 1).len())
                == shot_line(dir, n + 1)
            &&& !shot_step(cs[k]) ==> n2 == n
        }),
{
    let n = step_count(cs.subrange(0, k));
    lemma_cmds_split(cs, 0, k, dir, 0);
    let (t, n2) = cmd_text(cs[k], dir, n);
    assert(cmds_text(cs.subrange(0, k), 0, dir, 0) + (t + cmds_text(cs, k + 1, dir, n2))
        =~= cmds_text(cs.subrange(0, k), 0, dir, 0) + t + cmds_text(cs, k + 1, dir, n2));
    if shot_step(cs[k]) {
        let sl = shot_line(dir, n + 1);
        assert(t.skip(t.len() - sl.len()) =~= sl);
    }
}

/// Why a vhs run produced no recording.
#[derive(Debug, Clone, PartialEq, Eq)]
pub enum VhsFailure {
    /// vhs exited unsuccessfully (its exit status as text).
    Exited(String),
    /// vhs exited successfully but the output file is missing or empty.
    NoOutput(String),
}

impl VhsFailure {
    pub fn message(&self) -> (m: String)
        ensures
            m@ == match *self {
                VhsFailure::Exited(s) => "VHS exited with "@ + s@,
                VhsFailure::NoOutput(o) => "VHS exit 0 但未產生輸出："@ + o@,
            },
    {
        match self {
            VhsFailure::Exited(s) => {
                let mut m = lit("VHS exited with ");
                push_str(&mut m, s.as_str());
                m
            },
            VhsFailure::NoOutput(o) => {
                let mut m = lit("VHS exit 0 但未產生輸出：");
                push_str(&mut m, o.as_str());
                m
            },
        }
    }
}

/// A vhs run succeeded only when it exited successfully and left a
/// non-empty output file: its exit code alone is not trusted.
pub fn vhs_outcome(exit_ok: bool, status: &str, output: &str, output_size: Option<u64>) -> (r:
    Result<(), VhsFailure>)
    ensures
        match r {
            Ok(()) => exit_ok && (output_size matches Some(n) && n > 0),
            Err(VhsFailure::Exited(s)) => !exit_ok && s@ == status@,
            Err(VhsFailure::NoOutput(o)) => exit_ok && !(output_size matches Some(n) && n > 0)
                && o@ == output@,
        },
{
    if !exit_ok {
        return Err(VhsFailure::Exited(lit(status)));
    }
    if target_present(output_size) {
        Ok(())
    } else {
        Err(VhsFailure::NoOutput(lit(output)))
    }
}

/// Arguments of `vhs` for a tape rendered to a GIF.
pub fn vhs_tape_args(tape: &str, output: &str) -> (r: Vec<String>)
    ensures
        r@.map_values(|s: String| s@) == seq![tape@, "-o"@, output@, "--format"@, "gif"@],
{
    let mut v: Vec<String> = Vec::new();
    v.push(lit(tape));
    v.push(lit("-o"));
    v.push(lit(output));
    v.push(lit("--format"));
    v.push(lit("gif"));
    assert(v@.map_values(|s: String| s@) =~= seq![tape@, "-o"@, output@, "--format"@, "gif"@]);
    v
}

/// Arguments of `wf-recorder` for a fixed-length screen recording.
pub fn screen_record_args(output: &str, duration: u64) -> (r: Vec<String>)
    ensures
        r@.map_values(|s: String| s@) == seq![
            "-o"@,
            output@,
            "-d"@,
            dec(duration as nat),
            "--wayland"@,
        ],
{
    let mut v: Vec<String> = Vec::new();
    v.push(lit("-o"));
    v.push(lit(output));
    v.push(lit("-d"));
    let mut d = String::new();
    push_u64(&mut d, duration);
    v.push(d);
    v.push(lit("--wayland"));
    assert(v@.map_values(|s: String| s@) =~= seq![
        "-o"@,
        output@,
        "-d"@,
        dec(duration as nat),
        "--wayland"@,
    ]);
    v
}

} // verus!
