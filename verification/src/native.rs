//! Decisions of the native (desktop) recording path: which window, how
//! long to wait for it, how far to pad it, what each script command does
//! while wf-recorder runs, how long the recording lasts, and the follow-up
//! re-encode. The caller spawns processes and sleeps; this module says
//! what to do.

use vstd::prelude::*;

use crate::fspath::{
    extension, file_stem, join, path_extension, path_file_stem, path_with_file_name, join_path,
    with_file_name,
};
use crate::paths::{state_dir, state_dir_spec, XdgEnv};
use crate::script::{ClickType, CommandModel, Script, ScriptCommand, ScriptModel, commands_view};
use crate::compositor::{wf_arg_spec, WindowGeometry};
use crate::text::{chars, eq_lit, lit, push_str, push_u64, dec};

verus! {

// ───────────────────────── first command of a kind ─────────────────────────

/// Kinds of commands looked up by the native path.
#[derive(Debug, Clone, Copy, PartialEq, Eq, Structural)]
pub enum CommandKind {
    TargetWindow,
    WaitWindow,
    Padding,
    WindowSize,
    Roll,
    Optimize,
}

pub open spec fn is_kind(c: CommandModel, k: CommandKind) -> bool {
    match k {
        CommandKind::TargetWindow => c is TargetWindow,
        CommandKind::WaitWindow => c is WaitWindow,
        CommandKind::Padding => c is Padding,
        CommandKind::WindowSize => c is WindowSize,
        CommandKind::Roll => c is Roll,
        CommandKind::Optimize => c is Optimize,
    }
}

/// Index of the first command of a kind at or after `i`, or `cs.len()`.
pub open spec fn first_of(cs: Seq<CommandModel>, k: CommandKind, i: int) -> int
    decreases cs.len() - i,
{
    if i < 0 || i >= cs.len() {
        cs.len() as int
    } else if is_kind(cs[i], k) {
        i
    } else {
        first_of(cs, k, i + 1)
    }
}

proof fn lemma_first_of(cs: Seq<CommandModel>, k: CommandKind, i: int, j: int)
    requires
        0 <= i <= j <= cs.len(),
        forall|m: int| i <= m < j ==> !is_kind(#[trigger] cs[m], k),
        j == cs.len() || is_kind(cs[j], k),
    ensures
        first_of(cs, k, i) == j,
    decreases j - i,
{
    if i < j {
        lemma_first_of(cs, k, i + 1, j);
    }
}

fn kind_matches(c: &ScriptCommand, k: CommandKind) -> (r: bool)
    ensures
        r == is_kind(c@, k),
{
    match k {
        CommandKind::TargetWindow => matches!(c, ScriptCommand::TargetWindow(..)),
        CommandKind::WaitWindow => matches!(c, ScriptCommand::WaitWindow(..)),
        CommandKind::Padding => matches!(c, ScriptCommand::Padding(..)),
        CommandKind::WindowSize => matches!(c, ScriptCommand::WindowSize(..)),
        CommandKind::Roll => matches!(c, ScriptCommand::Roll(..)),
        CommandKind::Optimize => matches!(c, ScriptCommand::Optimize(..)),
    }
}

/// The position of the script's first command of a kind.
pub fn find_cmd(script: &Script, k: CommandKind) -> (r: Option<usize>)
    ensures
        match r {
            Some(i) => i as int == first_of(script@.commands, k, 0) && i < script.commands@.len()
                && is_kind(script@.commands[i as int], k),
            None => first_of(script@.commands, k, 0) == script@.commands.len(),
        },
{
    let ghost cs = script@.commands;
    let mut i: usize = 0;
    while i < script.commands.len()
        invariant
            i <= script.commands.len(),
            cs == script@.commands,
            cs.len() == script.commands@.len(),
            forall|m: int| 0 <= m < i ==> !is_kind(#[trigger] cs[m], k),
        decreases script.commands.len() - i,
    {
        assert(cs[i as int] == script.commands@[i as int]@);
        if kind_matches(&script.commands[i], k) {
            proof {
                lemma_first_of(cs, k, 0, i as int);
            }
            return Some(i);
        }
        i += 1;
    }
    proof {
        lemma_first_of(cs, k, 0, cs.len() as int);
    }
    None
}

// ───────────────────────── the plan ─────────────────────────

/// What the native recording needs before it starts.
pub struct NativePlan {
    /// The window to record (empty: let the user pick).
    pub target: String,
    /// How long to wait for the window, in milliseconds.
    pub timeout_ms: u64,
    /// Pixels added around the window.
    pub padding: u32,
    /// A requested window size, only reported.
    pub window_size: Option<(u32, u32)>,
    /// A fixed recording length, in seconds.
    pub roll_secs: Option<u64>,
}

pub open spec fn target_spec(cs: Seq<CommandModel>) -> Seq<char> {
    let t = first_of(cs, CommandKind::TargetWindow, 0);
    let w = first_of(cs, CommandKind::WaitWindow, 0);
    if t < cs.len() {
        cs[t]->TargetWindow_0
    } else if w < cs.len() {
        cs[w]->WaitWindow_0
    } else {
        Seq::empty()
    }
}

pub open spec fn timeout_spec(cs: Seq<CommandModel>) -> u64 {
    let w = first_of(cs, CommandKind::WaitWindow, 0);
    if w < cs.len() {
        cs[w]->WaitWindow_1
    } else {
        10_000
    }
}

pub open spec fn padding_spec(cs: Seq<CommandModel>) -> u32 {
    let p = first_of(cs, CommandKind::Padding, 0);
    if p < cs.len() {
        cs[p]->Padding_0
    } else {
        0
    }
}

pub open spec fn window_size_spec(cs: Seq<CommandModel>) -> Option<(u32, u32)> {
    let p = first_of(cs, CommandKind::WindowSize, 0);
    if p < cs.len() {
        Some((cs[p]->WindowSize_0, cs[p]->WindowSize_1))
    } else {
        None
    }
}

pub open spec fn roll_spec(cs: Seq<CommandModel>) -> Option<u64> {
    let p = first_of(cs, CommandKind::Roll, 0);
    if p < cs.len() {
        Some(cs[p]->Roll_0)
    } else {
        None
    }
}

/// The first `TargetWindow` names the window, else the first `WaitWindow`;
/// the first `WaitWindow` sets the timeout (10 s without one); the first
/// `Padding`, `WindowSize` and `Roll` apply.
pub fn native_plan(script: &Script) -> (p: NativePlan)
    ensures
        p.target@ == target_spec(script@.commands),
        p.timeout_ms == timeout_spec(script@.commands),
        p.padding == padding_spec(script@.commands),
        p.window_size == window_size_spec(script@.commands),
        p.roll_secs == roll_spec(script@.commands),
{
    let ghost cs = script@.commands;
    let wait = find_cmd(script, CommandKind::WaitWindow);
    let target = match find_cmd(script, CommandKind::TargetWindow) {
        Some(i) => match &script.commands[i] {
            ScriptCommand::TargetWindow(n) => {
                assert(cs[i as int] == script.commands@[i as int]@);
                lit(n.as_str())
            },
            _ => String::new(),
        },
        None => match wait {
            Some(i) => match &script.commands[i] {
                ScriptCommand::WaitWindow(n, _) => {
                    assert(cs[i as int] == script.commands@[i as int]@);
                    lit(n.as_str())
                },
                _ => String::new(),
            },
            None => String::new(),
        },
    };
    let timeout_ms = match wait {
        Some(i) => match &script.commands[i] {
            ScriptCommand::WaitWindow(_, ms) => {
                assert(cs[i as int] == script.commands@[i as int]@);
                *ms
            },
            _ => 10_000,
        },
        None => 10_000,
    };
    let padding = match find_cmd(script, CommandKind::Padding) {
        Some(i) => match &script.commands[i] {
            ScriptCommand::Padding(p) => {
                assert(cs[i as int] == script.commands@[i as int]@);
                *p
            },
            _ => 0,
        },
        None => 0,
    };
    let window_size = match find_cmd(script, CommandKind::WindowSize) {
        Some(i) => match &script.commands[i] {
            ScriptCommand::WindowSize(w, h) => {
                assert(cs[i as int] == script.commands@[i as int]@);
                Some((*w, *h))
            },
            _ => None,
        },
        None => None,
    };
    let roll_secs = match find_cmd(script, CommandKind::Roll) {
        Some(i) => match &script.commands[i] {
            ScriptCommand::Roll(s) => {
                assert(cs[i as int] == script.commands@[i as int]@);
                Some(*s)
            },
            _ => None,
        },
        None => None,
    };
    NativePlan { target, timeout_ms, padding, window_size, roll_secs }
}

pub open spec fn window_size_text(w: u32, h: u32) -> Seq<char> {
    "警告：WindowSize "@ + dec(w as nat) + "x"@ + dec(h as nat) + " 僅記錄，不調整視窗大小（OQ-02 待實作）"@
}

/// The warning printed for a `WindowSize`, which is not applied.
pub fn window_size_warning(w: u32, h: u32) -> (r: String)
    ensures
        r@ == window_size_text(w, h),
{
    let mut s = lit("警告：WindowSize ");
    push_u64(&mut s, w as u64);
    push_str(&mut s, "x");
    push_u64(&mut s, h as u64);
    push_str(&mut s, " 僅記錄，不調整視窗大小（OQ-02 待實作）");
    s
}

/// Arguments of wf-recorder: geometry and output file.
pub fn recorder_args(geometry: &str, output: &str) -> (r: Vec<String>)
    ensures
        r@.map_values(|s: String| s@) == seq!["-g"@, geometry@, "-f"@, output@],
{
    let mut v: Vec<String> = Vec::new();
    v.push(lit("-g"));
    v.push(lit(geometry));
    v.push(lit("-f"));
    v.push(lit(output));
    assert(v@.map_values(|s: String| s@) =~= seq!["-g"@, geometry@, "-f"@, output@]);
    v
}

/// The padded window can be written as a wf-recorder geometry without
/// leaving the coordinate range.
pub open spec fn padding_fits(g: WindowGeometry, padding: u32) -> bool {
    padding <= i32::MAX && g.x - padding >= i32::MIN && g.y - padding >= i32::MIN && g.width + 2
        * padding <= u32::MAX && g.height + 2 * padding <= u32::MAX
}

pub open spec fn padding_error_text(padding: u32) -> Seq<char> {
    "Padding "@ + dec(padding as nat) + " 超出視窗座標範圍"@
}

/// Arguments of wf-recorder for a window (already clipped to its output)
/// grown by `padding` on every side, recording into `output`; refused
/// when the padded rectangle leaves the coordinate range.
pub fn recorder_args_for(geo: &WindowGeometry, padding: u32, output: &str) -> (r: Result<
    Vec<String>,
    String,
>)
    ensures
        match r {
            Ok(v) => padding_fits(*geo, padding) && v@.map_values(|s: String| s@) == seq![
                "-g"@,
                wf_arg_spec(*geo, padding),
                "-f"@,
                output@,
            ],
            Err(m) => !padding_fits(*geo, padding) && m@ == padding_error_text(padding),
        },
{
    if !geo.padding_in_range(padding) {
        let mut m = lit("Padding ");
        push_u64(&mut m, padding as u64);
        push_str(&mut m, " 超出視窗座標範圍");
        return Err(m);
    }
    let g = geo.to_wf_recorder_arg(padding);
    Ok(recorder_args(g.as_str(), output))
}

/// The commands started before (`ExecBefore`) or after (`ExecAfter`)
/// recording, in script order.
pub open spec fn exec_spec(cs: Seq<CommandModel>, before: bool) -> Seq<Seq<char>>
    decreases cs.len(),
{
    if cs.len() == 0 {
        Seq::empty()
    } else {
        let rest = exec_spec(cs.drop_last(), before);
        match cs.last() {
            CommandModel::ExecBefore(c) => if before {
                rest.push(c)
            } else {
                rest
            },
            CommandModel::ExecAfter(c) => if !before {
                rest.push(c)
            } else {
                rest
            },
            _ => rest,
        }
    }
}

pub fn exec_commands(script: &Script, before: bool) -> (r: Vec<String>)
    ensures
        r@.map_values(|s: String| s@) == exec_spec(script@.commands, before),
{
    let ghost cs = script@.commands;
    let mut v: Vec<String> = Vec::new();
    let mut i: usize = 0;
    while i < script.commands.len()
        invariant
            i <= script.commands.len(),
            cs == script@.commands,
            cs.len() == script.commands@.len(),
            v@.map_values(|s: String| s@) == exec_spec(cs.take(i as int), before),
        decreases script.commands.len() - i,
    {
        assert(cs.take(i + 1).drop_last() =~= cs.take(i as int));
        assert(cs.take(i + 1).last() == script.commands@[i as int]@);
        let ghost before_v = v@.map_values(|s: String| s@);
        match &script.commands[i] {
            ScriptCommand::ExecBefore(c) => {
                if before {
                    v.push(lit(c.as_str()));
                    assert(v@.map_values(|s: String| s@) =~= before_v.push(c@));
                }
            },
            ScriptCommand::ExecAfter(c) => {
                if !before {
                    v.push(lit(c.as_str()));
                    assert(v@.map_values(|s: String| s@) =~= before_v.push(c@));
                }
            },
            _ => {},
        }
        i += 1;
    }
    assert(cs.take(cs.len() as int) =~= cs);
    v
}

// ───────────────────────── while recording ─────────────────────────

/// What to do for one script command while the recorder runs.
#[derive(Debug, Clone, PartialEq, Eq)]
pub enum NativeStep {
    TypeText(String),
    PressKey(String, u32),
    Shortcut(String),
    /// Mouse commands: attempted, and only warned about when they fail.
    MouseMove(i32, i32),
    Click(ClickType),
    /// Sleep this many milliseconds.
    Sleep(u64),
    /// The fixed recording length is used up: stop the command loop.
    Stop,
    /// Nothing to do here (handled before or after recording).
    Nothing,
}

pub enum StepModel {
    TypeText(Seq<char>),
    PressKey(Seq<char>, u32),
    Shortcut(Seq<char>),
    MouseMove(i32, i32),
    Click(ClickType),
    Sleep(u64),
    Stop,
    Nothing,
}

impl View for NativeStep {
    type V = StepModel;

    open spec fn view(&self) -> StepModel {
        match self {
            NativeStep::TypeText(t) => StepModel::TypeText(t@),
            NativeStep::PressKey(n, c) => StepModel::PressKey(n@, *c),
            NativeStep::Shortcut(s) => StepModel::Shortcut(s@),
            NativeStep::MouseMove(x, y) => StepModel::MouseMove(*x, *y),
            NativeStep::Click(b) => StepModel::Click(*b),
            NativeStep::Sleep(ms) => StepModel::Sleep(*ms),
            NativeStep::Stop => StepModel::Stop,
            NativeStep::Nothing => StepModel::Nothing,
        }
    }
}

pub open spec fn min_u64(a: u64, b: u64) -> u64 {
    if a <= b {
        a
    } else {
        b
    }
}

/// A sleep is cut to what remains of a fixed recording length; when
/// nothing remains the loop stops. `remaining_ns` is `None` without a
/// fixed length.
pub open spec fn step_spec(c: CommandModel, remaining_ns: Option<u128>) -> StepModel {
    match c {
        CommandModel::Type(t) => StepModel::TypeText(t),
        CommandModel::Key(n, k) => StepModel::PressKey(n, k),
        CommandModel::Shortcut(s) => StepModel::Shortcut(s),
        CommandModel::MouseMove(x, y) => StepModel::MouseMove(x, y),
        CommandModel::Click(b) => StepModel::Click(b),
        CommandModel::Sleep(ms) => match remaining_ns {
            Some(r) => if r == 0 {
                StepModel::Stop
            } else {
                StepModel::Sleep(min_u64(ms, (r / 1_000_000) as u64))
            },
            None => StepModel::Sleep(ms),
        },
        _ => StepModel::Nothing,
    }
}

/// Each step does what its command says with the command's own
/// arguments: a mouse move moves the pointer by exactly `x` horizontally
/// and `y` vertically, a click presses the command's button, typing types
/// its text, a key press presses its key its number of times, a shortcut
/// sends its combination, whatever time is left. A sleep waits the
/// command's time, cut to the time left of a fixed-length recording, and a
/// sleep with no time left ends the recording (stated where the time left
/// in milliseconds fits the step's 64-bit count).
pub proof fn law_steps_keep_arguments(
    x: i32,
    y: i32,
    b: ClickType,
    text: Seq<char>,
    count: u32,
    ms: u64,
    remaining_ns: Option<u128>,
)
    ensures
        step_spec(CommandModel::MouseMove(x, y), remaining_ns) matches StepModel::MouseMove(dx, dy)
            && dx == x && dy == y,
        step_spec(CommandModel::Click(b), remaining_ns) matches StepModel::Click(c) && c == b,
        step_spec(CommandModel::Type(text), remaining_ns) matches StepModel::TypeText(t) && t
            == text,
        step_spec(CommandModel::Key(text, count), remaining_ns) matches StepModel::PressKey(n, k)
            && n == text && k == count,
        step_spec(CommandModel::Shortcut(text), remaining_ns) matches StepModel::Shortcut(t) && t
            == text,
        remaining_ns is None ==> step_spec(CommandModel::Sleep(ms), remaining_ns)
            == StepModel::Sleep(ms),
        remaining_ns == Some(0u128) ==> step_spec(CommandModel::Sleep(ms), remaining_ns)
            == StepModel::Stop,
        remaining_ns is Some && remaining_ns.unwrap() > 0 && remaining_ns.unwrap() / 1_000_000
            <= u64::MAX ==> (step_spec(
            CommandModel::Sleep(ms),
            remaining_ns,
        ) matches StepModel::Sleep(w) && w <= ms && w * 1_000_000 <= remaining_ns.unwrap() && (w
            == ms || w == remaining_ns.unwrap() / 1_000_000)),
{
    if remaining_ns is Some {
        let r = remaining_ns.unwrap();
        vstd::arithmetic::div_mod::lemma_fundamental_div_mod(r as int, 1_000_000);
    }
}

pub fn native_step(cmd: &ScriptCommand, remaining_ns: Option<u128>) -> (r: NativeStep)
    ensures
        r@ == step_spec(cmd@, remaining_ns),
{
    match cmd {
        ScriptCommand::Type(t) => NativeStep::TypeText(lit(t.as_str())),
        ScriptCommand::Key(n, k) => NativeStep::PressKey(lit(n.as_str()), *k),
        ScriptCommand::Shortcut(s) => NativeStep::Shortcut(lit(s.as_str())),
        ScriptCommand::MouseMove(x, y) => NativeStep::MouseMove(*x, *y),
        ScriptCommand::Click(b) => NativeStep::Click(*b),
        ScriptCommand::Sleep(ms) => match remaining_ns {
            Some(r) => if r == 0 {
                NativeStep::Stop
            } else {
                let rm = (r / 1_000_000) as u64;
                NativeStep::Sleep(if *ms <= rm { *ms } else { rm })
            },
            None => NativeStep::Sleep(*ms),
        },
        _ => NativeStep::Nothing,
    }
}

/// Time left of a fixed recording length of `roll_secs` after
/// `elapsed_ns`, in nanoseconds (never below zero).
pub fn roll_remaining_ns(roll_secs: u64, elapsed_ns: u128) -> (r: u128)
    ensures
        r == if elapsed_ns >= roll_secs * 1_000_000_000 {
            0
        } else {
            roll_secs * 1_000_000_000 - elapsed_ns
        },
{
    let total: u128 = (roll_secs as u128) * 1_000_000_000;
    if elapsed_ns >= total {
        0
    } else {
        total - elapsed_ns
    }
}

/// The sleep after the last command, in nanoseconds: what remains of a
/// fixed length, or half a second without one.
pub fn tail_sleep_ns(remaining_ns: Option<u128>) -> (r: u128)
    ensures
        r == match remaining_ns {
            Some(x) => x,
            None => 500_000_000,
        },
{
    match remaining_ns {
        Some(x) => x,
        None => 500_000_000,
    }
}

// ───────────────────────── after recording ─────────────────────────

/// A re-encode requested by `Optimize`: the encoder and the file written.
pub struct OptimizeJob {
    pub encoder: String,
    pub optimized: String,
}

/// The value of the first `encoder=` option, else the codec.
pub open spec fn encoder_of(codec: Seq<char>, kv: Seq<(Seq<char>, Seq<char>)>) -> Seq<char>
    decreases kv.len(),
{
    if kv.len() == 0 {
        codec
    } else if kv[0].0 == "encoder"@ {
        kv[0].1
    } else {
        encoder_of(codec, kv.drop_first())
    }
}

/// `<stem>_optimized.<ext>` beside the output (`output`, `webm` when the
/// path has no stem or extension).
pub open spec fn optimized_path(output: Seq<char>) -> Seq<char> {
    let stem = match file_stem(output) {
        Some(s) => s,
        None => "output"@,
    };
    let ext = match extension(output) {
        Some(e) => e,
        None => "webm"@,
    };
    with_file_name(output, stem + "_optimized."@ + ext)
}

pub open spec fn optimize_spec(cs: Seq<CommandModel>, output: Seq<char>) -> Option<
    (Seq<char>, Seq<char>),
> {
    let p = first_of(cs, CommandKind::Optimize, 0);
    if p < cs.len() {
        Some((encoder_of(cs[p]->Optimize_0, cs[p]->Optimize_1), optimized_path(output)))
    } else {
        None
    }
}

fn encoder_from(codec: &String, kv: &Vec<(String, String)>) -> (r: String)
    ensures
        r@ == encoder_of(codec@, crate::script::pairs_view(kv@)),
{
    let ghost pv = crate::script::pairs_view(kv@);
    let mut i: usize = 0;
    assert(pv.skip(0) =~= pv);
    while i < kv.len()
        invariant
            i <= kv.len(),
            pv == crate::script::pairs_view(kv@),
            encoder_of(codec@, pv) == encoder_of(codec@, pv.skip(i as int)),
        decreases kv.len() - i,
    {
        assert(pv.skip(i as int)[0] == pv[i as int]);
        assert(pv.skip(i as int).drop_first() =~= pv.skip(i + 1));
        let k = chars(&kv[i].0);
        if eq_lit(&k, "encoder") {
            return lit(kv[i].1.as_str());
        }
        i += 1;
    }
    assert(pv.skip(kv.len() as int) =~= Seq::<(Seq<char>, Seq<char>)>::empty());
    lit(codec.as_str())
}

/// The re-encode of the first `Optimize` command, if there is one.
pub fn optimize_job(script: &Script, output: &str) -> (r: Option<OptimizeJob>)
    ensures
        match r {
            Some(j) => optimize_spec(script@.commands, output@) == Some((j.encoder@, j.optimized@)),
            None => optimize_spec(script@.commands, output@) is None,
        },
{
    let ghost cs = script@.commands;
    match find_cmd(script, CommandKind::Optimize) {
        Some(i) => match &script.commands[i] {
            ScriptCommand::Optimize(codec, kv) => {
                assert(cs[i as int] == script.commands@[i as int]@);
                let encoder = encoder_from(codec, kv);
                let stem = match path_file_stem(output) {
                    Some(s) => s,
                    None => lit("output"),
                };
                let ext = match path_extension(output) {
                    Some(e) => e,
                    None => lit("webm"),
                };
                let mut name = lit(stem.as_str());
                push_str(&mut name, "_optimized.");
                push_str(&mut name, ext.as_str());
                let optimized = path_with_file_name(output, name.as_str());
                Some(OptimizeJob { encoder, optimized })
            },
            _ => None,
        },
        None => None,
    }
}

/// ffmpeg arguments of a re-encode.
pub fn optimize_args(output: &str, job: &OptimizeJob) -> (r: Vec<String>)
    ensures
        r@.map_values(|s: String| s@) == seq![
            "-y"@,
            "-i"@,
            output@,
            "-c:v"@,
            job.encoder@,
            job.optimized@,
        ],
{
    let mut v: Vec<String> = Vec::new();
    v.push(lit("-y"));
    v.push(lit("-i"));
    v.push(lit(output));
    v.push(lit("-c:v"));
    v.push(lit(job.encoder.as_str()));
    v.push(lit(job.optimized.as_str()));
    assert(v@.map_values(|s: String| s@) =~= seq![
        "-y"@,
        "-i"@,
        output@,
        "-c:v"@,
        job.encoder@,
        job.optimized@,
    ]);
    v
}

/// Where the operation timeline of a recording is written:
/// `<state>/<stem>.timeline.jsonl` (`output` without a stem).
pub open spec fn timeline_log_spec(env: XdgEnv, output: Seq<char>) -> Seq<char> {
    let stem = match file_stem(output) {
        Some(s) => s,
        None => "output"@,
    };
    join(state_dir_spec(env), stem + ".timeline.jsonl"@)
}

pub fn timeline_log_path(env: &XdgEnv, output: &str) -> (r: String)
    ensures
        r@ == timeline_log_spec(*env, output@),
{
    let stem = match path_file_stem(output) {
        Some(s) => s,
        None => lit("output"),
    };
    let mut name = lit(stem.as_str());
    push_str(&mut name, ".timeline.jsonl");
    let d = state_dir(env);
    join_path(d.as_str(), name.as_str())
}

} // verus!
