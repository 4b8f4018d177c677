//! The `.roll` script language: its data model and its parser.
//!
//! A script is a list of lines. Blank lines and lines starting with `#` are
//! ignored; every other line is a command word, one space, and the
//! command's argument text:
//!
//! ```text
//! Set Engine <Auto|VHS|Native>      Set Output "..."   Set FPS N   Set Shell "..."
//! Set <anything else> ...           (handed to vhs unchanged)
//! Type "..."    Enter    Key <name> [count]    Sleep <N|Nms|Ns>
//! MouseMove X Y [speed=...]    Click <Left|Right|Middle>    Shortcut "Ctrl+S"
//! ExecBefore "..."    ExecAfter "..."    WaitWindow "..." [timeout=<N|Nms|Ns>]
//! TargetWindow "..."    WindowSize W H    Padding N    Roll <N|Ns>
//! Optimize <codec> [key=value ...]
//! Legacy forms: Title "..."  Mode <TUI|GUI>  Terminal "..."  Output "..."  FPS N
//! ```

use vstd::prelude::*;

use crate::text::{
    ascii_lower_seq, chars_of, dec, ends_with, eq_lit, find_from, lines, parse_i32_spec, parse_unsigned,
    push_str, push_u64, split_once, starts_with, to_ascii_lower, trim, words,
};

verus! {

/// Mouse button of a `Click`.
#[derive(Debug, Clone, Copy, PartialEq, Eq, Structural)]
pub enum ClickType {
    Left,
    Right,
    Middle,
}

/// Legacy recording mode (`Mode TUI|GUI`).
#[derive(Debug, Clone, Copy, PartialEq, Eq, Structural)]
pub enum Mode {
    TUI,
    GUI,
}

/// Recording back end: vhs for terminal sessions, the native
/// compositor/wf-recorder path for desktop windows, or automatic choice.
#[derive(Debug, Clone, Copy, PartialEq, Eq, Structural)]
pub enum Engine {
    Auto,
    Vhs,
    Native,
}

impl Mode {
    /// The engine a legacy mode stands for.
    pub open spec fn spec_engine(self) -> Engine {
        match self {
            Mode::TUI => Engine::Vhs,
            Mode::GUI => Engine::Native,
        }
    }

    pub fn engine(&self) -> (e: Engine)
        ensures
            e == self.spec_engine(),
    {
        match self {
            Mode::TUI => Engine::Vhs,
            Mode::GUI => Engine::Native,
        }
    }
}

/// One script instruction.
#[derive(Debug, Clone, PartialEq, Eq)]
pub enum ScriptCommand {
    /// Type the text.
    Type(String),
    /// Press the named key the given number of times.
    Key(String, u32),
    /// Pause, in milliseconds.
    Sleep(u64),
    MouseMove(i32, i32),
    Click(ClickType),
    /// Key combination such as `Ctrl+S`.
    Shortcut(String),
    /// Shell command started before recording.
    ExecBefore(String),
    /// Shell command started after recording.
    ExecAfter(String),
    /// Wait for a window (name, timeout in milliseconds).
    WaitWindow(String, u64),
    TargetWindow(String),
    WindowSize(u32, u32),
    Padding(u32),
    /// Record for this many seconds.
    Roll(u64),
    /// Re-encode after recording: codec and `key=value` options.
    Optimize(String, Vec<(String, String)>),
    /// A vhs line passed through unchanged.
    Vhs(String),
}

/// A parsed script.
#[derive(Debug, Clone, PartialEq, Eq)]
pub struct Script {
    pub title: Option<String>,
    pub engine: Option<Engine>,
    pub shell: Option<String>,
    pub output: Option<String>,
    pub fps: Option<u32>,
    pub commands: Vec<ScriptCommand>,
}

/// Mathematical model of a [`ScriptCommand`].
pub enum CommandModel {
    Type(Seq<char>),
    Key(Seq<char>, u32),
    Sleep(u64),
    MouseMove(i32, i32),
    Click(ClickType),
    Shortcut(Seq<char>),
    ExecBefore(Seq<char>),
    ExecAfter(Seq<char>),
    WaitWindow(Seq<char>, u64),
    TargetWindow(Seq<char>),
    WindowSize(u32, u32),
    Padding(u32),
    Roll(u64),
    Optimize(Seq<char>, Seq<(Seq<char>, Seq<char>)>),
    Vhs(Seq<char>),
}

/// Mathematical model of a [`Script`].
pub struct ScriptModel {
    pub title: Option<Seq<char>>,
    pub engine: Option<Engine>,
    pub shell: Option<Seq<char>>,
    pub output: Option<Seq<char>>,
    pub fps: Option<u32>,
    pub commands: Seq<CommandModel>,
}

pub open spec fn opt_view(o: Option<String>) -> Option<Seq<char>> {
    match o {
        Some(s) => Some(s@),
        None => None,
    }
}

pub open spec fn pairs_view(kv: Seq<(String, String)>) -> Seq<(Seq<char>, Seq<char>)> {
    kv.map_values(|p: (String, String)| (p.0@, p.1@))
}

impl View for ScriptCommand {
    type V = CommandModel;

    open spec fn view(&self) -> CommandModel {
        match self {
            ScriptCommand::Type(s) => CommandModel::Type(s@),
            ScriptCommand::Key(s, n) => CommandModel::Key(s@, *n),
            ScriptCommand::Sleep(ms) => CommandModel::Sleep(*ms),
            ScriptCommand::MouseMove(x, y) => CommandModel::MouseMove(*x, *y),
            ScriptCommand::Click(c) => CommandModel::Click(*c),
            ScriptCommand::Shortcut(s) => CommandModel::Shortcut(s@),
            ScriptCommand::ExecBefore(s) => CommandModel::ExecBefore(s@),
            ScriptCommand::ExecAfter(s) => CommandModel::ExecAfter(s@),
            ScriptCommand::WaitWindow(s, ms) => CommandModel::WaitWindow(s@, *ms),
            ScriptCommand::TargetWindow(s) => CommandModel::TargetWindow(s@),
            ScriptCommand::WindowSize(w, h) => CommandModel::WindowSize(*w, *h),
            ScriptCommand::Padding(p) => CommandModel::Padding(*p),
            ScriptCommand::Roll(s) => CommandModel::Roll(*s),
            ScriptCommand::Optimize(c, kv) => CommandModel::Optimize(c@, pairs_view(kv@)),
            ScriptCommand::Vhs(s) => CommandModel::Vhs(s@),
        }
    }
}

pub open spec fn commands_view(cs: Seq<ScriptCommand>) -> Seq<CommandModel> {
    cs.map_values(|c: ScriptCommand| c@)
}

impl View for Script {
    type V = ScriptModel;

    open spec fn view(&self) -> ScriptModel {
        ScriptModel {
            title: opt_view(self.title),
            engine: self.engine,
            shell: opt_view(self.shell),
            output: opt_view(self.output),
            fps: self.fps,
            commands: commands_view(self.commands@),
        }
    }
}

// ───────────────────────── errors ─────────────────────────

/// Why a line was rejected.
#[derive(Debug, Clone, PartialEq, Eq)]
pub enum ParseErrorKind {
    /// A command word without any argument.
    Syntax,
    /// The command needs a double-quoted argument.
    Quoted(String),
    /// The command needs a number.
    Number(String),
    /// The command's value is not one it accepts (command, value).
    Invalid(String, String),
    /// The arguments do not have the command's shape.
    Format(String),
    /// No such command.
    Unknown(String),
}

pub enum ErrorKindModel {
    Syntax,
    Quoted(Seq<char>),
    Number(Seq<char>),
    Invalid(Seq<char>, Seq<char>),
    Format(Seq<char>),
    Unknown(Seq<char>),
}

impl View for ParseErrorKind {
    type V = ErrorKindModel;

    open spec fn view(&self) -> ErrorKindModel {
        match self {
            ParseErrorKind::Syntax => ErrorKindModel::Syntax,
            ParseErrorKind::Quoted(c) => ErrorKindModel::Quoted(c@),
            ParseErrorKind::Number(c) => ErrorKindModel::Number(c@),
            ParseErrorKind::Invalid(c, v) => ErrorKindModel::Invalid(c@, v@),
            ParseErrorKind::Format(c) => ErrorKindModel::Format(c@),
            ParseErrorKind::Unknown(c) => ErrorKindModel::Unknown(c@),
        }
    }
}

/// A rejected line: its 1-based number and the reason.
#[derive(Debug, Clone, PartialEq, Eq)]
pub struct ParseError {
    pub line: usize,
    pub kind: ParseErrorKind,
}

pub struct ParseErrorModel {
    pub line: nat,
    pub kind: ErrorKindModel,
}

impl View for ParseError {
    type V = ParseErrorModel;

    open spec fn view(&self) -> ParseErrorModel {
        ParseErrorModel { line: self.line as nat, kind: self.kind@ }
    }
}

pub open spec fn kind_message(k: ErrorKindModel) -> Seq<char> {
    match k {
        ErrorKindModel::Syntax => "指令格式錯誤，應為 '指令 參數'"@,
        ErrorKindModel::Quoted(c) => c + " 格式錯誤，應為 "@ + c + " \"...\""@,
        ErrorKindModel::Number(c) => c + " 必須是數字"@,
        ErrorKindModel::Invalid(c, v) => "無效的 "@ + c + " 值 '"@ + v + "'"@,
        ErrorKindModel::Format(c) => c + " 格式錯誤"@,
        ErrorKindModel::Unknown(c) => "未知的指令 '"@ + c + "'"@,
    }
}

/// The text a user sees for a rejected line.
pub open spec fn error_message(e: ParseErrorModel) -> Seq<char> {
    "第 "@ + dec(e.line) + " 行："@ + kind_message(e.kind)
}

impl ParseErrorKind {
    pub fn message(&self) -> (m: String)
        ensures
            m@ == kind_message(self@),
    {
        let mut m = String::new();
        match self {
            ParseErrorKind::Syntax => {
                push_str(&mut m, "指令格式錯誤，應為 '指令 參數'");
            },
            ParseErrorKind::Quoted(c) => {
                push_str(&mut m, c.as_str());
                push_str(&mut m, " 格式錯誤，應為 ");
                push_str(&mut m, c.as_str());
                push_str(&mut m, " \"...\"");
            },
            ParseErrorKind::Number(c) => {
                push_str(&mut m, c.as_str());
                push_str(&mut m, " 必須是數字");
            },
            ParseErrorKind::Invalid(c, v) => {
                push_str(&mut m, "無效的 ");
                push_str(&mut m, c.as_str());
                push_str(&mut m, " 值 '");
                push_str(&mut m, v.as_str());
                push_str(&mut m, "'");
            },
            ParseErrorKind::Format(c) => {
                push_str(&mut m, c.as_str());
                push_str(&mut m, " 格式錯誤");
            },
            ParseErrorKind::Unknown(c) => {
                push_str(&mut m, "未知的指令 '");
                push_str(&mut m, c.as_str());
                push_str(&mut m, "'");
            },
        }
        assert(m@ =~= kind_message(self@));
        m
    }
}

impl ParseError {
    /// The message shown for this error, e.g. `第 3 行：未知的指令 'Foo'`.
    pub fn message(&self) -> (m: String)
        ensures
            m@ == error_message(self@),
    {
        let mut m = String::new();
        push_str(&mut m, "第 ");
        push_u64(&mut m, self.line as u64);
        push_str(&mut m, " 行：");
        let k = self.kind.message();
        push_str(&mut m, k.as_str());
        assert(m@ =~= error_message(self@));
        m
    }
}

// ───────────────────────── argument shapes ─────────────────────────

/// The text between a leading and a trailing double quote.
pub open spec fn quoted(s: Seq<char>) -> Option<Seq<char>> {
    if s.len() >= 2 && s[0] == '"' && s.last() == '"' {
        Some(s.subrange(1, s.len() - 1))
    } else {
        None
    }
}

/// A duration in milliseconds: `N`, `Nms` or `Ns`.
pub open spec fn duration_ms(s: Seq<char>) -> Option<nat> {
    if ends_with(s, "ms"@) {
        parse_unsigned(s.take(s.len() - 2), u64::MAX as nat)
    } else if ends_with(s, "s"@) {
        match parse_unsigned(s.take(s.len() - 1), u64::MAX as nat) {
            Some(v) => if v * 1000 <= u64::MAX {
                Some(v * 1000)
            } else {
                None
            },
            None => None,
        }
    } else {
        parse_unsigned(s, u64::MAX as nat)
    }
}

/// What `Set Engine`, `[defaults].engine` accept, case-insensitively.
pub open spec fn engine_named(s: Seq<char>) -> Option<Engine> {
    let l = ascii_lower_seq(s);
    if l == "vhs"@ {
        Some(Engine::Vhs)
    } else if l == "native"@ {
        Some(Engine::Native)
    } else if l == "auto"@ {
        Some(Engine::Auto)
    } else {
        None
    }
}

/// Engine name, case-insensitive (`vhs` / `native` / `auto`); anything else
/// is `None`.
pub fn parse_engine_str(s: &str) -> (e: Option<Engine>)
    ensures
        e == engine_named(s@),
{
    let v = chars_of(s);
    let l = to_ascii_lower(&v);
    if eq_lit(&l, "vhs") {
        Some(Engine::Vhs)
    } else if eq_lit(&l, "native") {
        Some(Engine::Native)
    } else if eq_lit(&l, "auto") {
        Some(Engine::Auto)
    } else {
        None
    }
}

// ───────────────────────── line effects ─────────────────────────

/// What one line does to the script being built.
pub enum LineEffect {
    Nothing,
    Title(String),
    Engine(Engine),
    Shell(String),
    Output(String),
    Fps(u32),
    Command(ScriptCommand),
}

pub enum EffectModel {
    Nothing,
    Title(Seq<char>),
    Engine(Engine),
    Shell(Seq<char>),
    Output(Seq<char>),
    Fps(u32),
    Command(CommandModel),
}

impl View for LineEffect {
    type V = EffectModel;

    open spec fn view(&self) -> EffectModel {
        match self {
            LineEffect::Nothing => EffectModel::Nothing,
            LineEffect::Title(s) => EffectModel::Title(s@),
            LineEffect::Engine(e) => EffectModel::Engine(*e),
            LineEffect::Shell(s) => EffectModel::Shell(s@),
            LineEffect::Output(s) => EffectModel::Output(s@),
            LineEffect::Fps(n) => EffectModel::Fps(*n),
            LineEffect::Command(c) => EffectModel::Command(c@),
        }
    }
}

pub open spec fn want_quoted(
    rest: Seq<char>,
    name: Seq<char>,
    f: spec_fn(Seq<char>) -> EffectModel,
) -> Result<EffectModel, ErrorKindModel> {
    match quoted(rest) {
        Some(q) => Ok(f(q)),
        None => Err(ErrorKindModel::Quoted(name)),
    }
}

/// `Set <key> <value>`: the key and the value (empty when there is no space).
pub open spec fn split_key(rest: Seq<char>) -> (Seq<char>, Seq<char>) {
    match split_once(rest, ' ') {
        Some((k, v)) => (k, v),
        None => (rest, Seq::empty()),
    }
}

pub open spec fn set_effect(rest: Seq<char>, line: Seq<char>) -> Result<
    EffectModel,
    ErrorKindModel,
> {
    let (key, val) = split_key(rest);
    if key == "Engine"@ {
        match engine_named(val) {
            Some(e) => Ok(EffectModel::Engine(e)),
            None => Err(ErrorKindModel::Invalid("Set Engine"@, val)),
        }
    } else if key == "Output"@ {
        want_quoted(val, "Set Output"@, |q: Seq<char>| EffectModel::Output(q))
    } else if key == "FPS"@ {
        match parse_unsigned(val, u32::MAX as nat) {
            Some(n) => Ok(EffectModel::Fps(n as u32)),
            None => Err(ErrorKindModel::Number("Set FPS"@)),
        }
    } else if key == "Shell"@ {
        want_quoted(val, "Set Shell"@, |q: Seq<char>| EffectModel::Shell(q))
    } else {
        Ok(EffectModel::Command(CommandModel::Vhs(line)))
    }
}

pub open spec fn key_effect(rest: Seq<char>) -> Result<EffectModel, ErrorKindModel> {
    let ws = words(rest);
    if ws.len() == 1 {
        Ok(EffectModel::Command(CommandModel::Key(ws[0], 1)))
    } else if ws.len() == 2 {
        match parse_unsigned(ws[1], u32::MAX as nat) {
            Some(n) => Ok(EffectModel::Command(CommandModel::Key(ws[0], n as u32))),
            None => Err(ErrorKindModel::Number("Key"@)),
        }
    } else {
        Err(ErrorKindModel::Format("Key"@))
    }
}

pub open spec fn mouse_effect(rest: Seq<char>) -> Result<EffectModel, ErrorKindModel> {
    let ws = words(rest);
    if ws.len() == 2 || (ws.len() == 3 && starts_with(ws[2], "speed="@)) {
        match (parse_i32_spec(ws[0]), parse_i32_spec(ws[1])) {
            (Some(x), Some(y)) => Ok(
                EffectModel::Command(CommandModel::MouseMove(x as i32, y as i32)),
            ),
            _ => Err(ErrorKindModel::Format("MouseMove"@)),
        }
    } else {
        Err(ErrorKindModel::Format("MouseMove"@))
    }
}

pub open spec fn click_effect(rest: Seq<char>) -> Result<EffectModel, ErrorKindModel> {
    if rest == "Left"@ {
        Ok(EffectModel::Command(CommandModel::Click(ClickType::Left)))
    } else if rest == "Right"@ {
        Ok(EffectModel::Command(CommandModel::Click(ClickType::Right)))
    } else if rest == "Middle"@ {
        Ok(EffectModel::Command(CommandModel::Click(ClickType::Middle)))
    } else {
        Err(ErrorKindModel::Invalid("Click"@, rest))
    }
}

pub open spec fn wait_effect(rest: Seq<char>) -> Result<EffectModel, ErrorKindModel> {
    if rest.len() >= 1 && rest[0] == '"' && find_from(rest, '"', 1) < rest.len() {
        let j = find_from(rest, '"', 1);
        let name = rest.subrange(1, j);
        let after = trim(rest.skip(j + 1));
        if after.len() == 0 {
            Ok(EffectModel::Command(CommandModel::WaitWindow(name, 10000)))
        } else if starts_with(after, "timeout="@) {
            match duration_ms(after.skip("timeout="@.len() as int)) {
                Some(ms) => Ok(EffectModel::Command(CommandModel::WaitWindow(name, ms as u64))),
                None => Err(ErrorKindModel::Number("WaitWindow timeout"@)),
            }
        } else {
            Err(ErrorKindModel::Format("WaitWindow"@))
        }
    } else {
        Err(ErrorKindModel::Quoted("WaitWindow"@))
    }
}

pub open spec fn size_effect(rest: Seq<char>) -> Result<EffectModel, ErrorKindModel> {
    let ws = words(rest);
    if ws.len() == 2 {
        match (parse_unsigned(ws[0], u32::MAX as nat), parse_unsigned(ws[1], u32::MAX as nat)) {
            (Some(w), Some(h)) => Ok(
                EffectModel::Command(CommandModel::WindowSize(w as u32, h as u32)),
            ),
            _ => Err(ErrorKindModel::Format("WindowSize"@)),
        }
    } else {
        Err(ErrorKindModel::Format("WindowSize"@))
    }
}

/// Seconds of `Roll`: a number with an optional `s`.
pub open spec fn roll_secs(rest: Seq<char>) -> Option<nat> {
    if ends_with(rest, "s"@) {
        parse_unsigned(rest.take(rest.len() - 1), u64::MAX as nat)
    } else {
        parse_unsigned(rest, u64::MAX as nat)
    }
}

/// `key=value` options of `Optimize`.
pub open spec fn all_pairs(ws: Seq<Seq<char>>) -> bool {
    forall|i: int| 1 <= i < ws.len() ==> (#[trigger] split_once(ws[i], '=')) is Some
}

pub open spec fn option_pairs(ws: Seq<Seq<char>>) -> Seq<(Seq<char>, Seq<char>)> {
    Seq::new((ws.len() - 1) as nat, |i: int| split_once(ws[i + 1], '=').unwrap())
}

pub open spec fn optimize_effect(rest: Seq<char>) -> Result<EffectModel, ErrorKindModel> {
    let ws = words(rest);
    if ws.len() >= 1 && all_pairs(ws) {
        Ok(EffectModel::Command(CommandModel::Optimize(ws[0], option_pairs(ws))))
    } else {
        Err(ErrorKindModel::Format("Optimize"@))
    }
}

/// What a command word with its argument text does.
pub open spec fn command_effect(cmd: Seq<char>, rest: Seq<char>, line: Seq<char>) -> Result<
    EffectModel,
    ErrorKindModel,
> {
    if cmd == "Set"@ {
        set_effect(rest, line)
    } else if cmd == "Type"@ {
        want_quoted(rest, "Type"@, |q: Seq<char>| EffectModel::Command(CommandModel::Type(q)))
    } else if cmd == "Enter"@ {
        Ok(EffectModel::Command(CommandModel::Key("Enter"@, 1)))
    } else if cmd == "Key"@ {
        key_effect(rest)
    } else if cmd == "Sleep"@ {
        match duration_ms(rest) {
            Some(ms) => Ok(EffectModel::Command(CommandModel::Sleep(ms as u64))),
            None => Err(ErrorKindModel::Number("Sleep"@)),
        }
    } else if cmd == "MouseMove"@ {
        mouse_effect(rest)
    } else if cmd == "Click"@ {
        click_effect(rest)
    } else if cmd == "Shortcut"@ {
        want_quoted(
            rest,
            "Shortcut"@,
            |q: Seq<char>| EffectModel::Command(CommandModel::Shortcut(q)),
        )
    } else if cmd == "ExecBefore"@ {
        want_quoted(
            rest,
            "ExecBefore"@,
            |q: Seq<char>| EffectModel::Command(CommandModel::ExecBefore(q)),
        )
    } else if cmd == "ExecAfter"@ {
        want_quoted(
            rest,
            "ExecAfter"@,
            |q: Seq<char>| EffectModel::Command(CommandModel::ExecAfter(q)),
        )
    } else if cmd == "WaitWindow"@ {
        wait_effect(rest)
    } else if cmd == "TargetWindow"@ {
        want_quoted(
            rest,
            "TargetWindow"@,
            |q: Seq<char>| EffectModel::Command(CommandModel::TargetWindow(q)),
        )
    } else if cmd == "WindowSize"@ {
        size_effect(rest)
    } else if cmd == "Padding"@ {
        match parse_unsigned(rest, u32::MAX as nat) {
            Some(n) => Ok(EffectModel::Command(CommandModel::Padding(n as u32))),
            None => Err(ErrorKindModel::Number("Padding"@)),
        }
    } else if cmd == "Roll"@ {
        match roll_secs(rest) {
            Some(n) => Ok(EffectModel::Command(CommandModel::Roll(n as u64))),
            None => Err(ErrorKindModel::Number("Roll"@)),
        }
    } else if cmd == "Optimize"@ {
        optimize_effect(rest)
    } else if cmd == "Title"@ {
        want_quoted(rest, "Title"@, |q: Seq<char>| EffectModel::Title(q))
    } else if cmd == "Mode"@ {
        if rest == "TUI"@ {
            Ok(EffectModel::Engine(Mode::TUI.spec_engine()))
        } else if rest == "GUI"@ {
            Ok(EffectModel::Engine(Mode::GUI.spec_engine()))
        } else {
            Err(ErrorKindModel::Invalid("Mode"@, rest))
        }
    } else if cmd == "Terminal"@ {
        want_quoted(rest, "Terminal"@, |q: Seq<char>| EffectModel::Shell(q))
    } else if cmd == "Output"@ {
        want_quoted(rest, "Output"@, |q: Seq<char>| EffectModel::Output(q))
    } else if cmd == "FPS"@ {
        match parse_unsigned(rest, u32::MAX as nat) {
            Some(n) => Ok(EffectModel::Fps(n as u32)),
            None => Err(ErrorKindModel::Number("FPS"@)),
        }
    } else {
        Err(ErrorKindModel::Unknown(cmd))
    }
}

/// What one (already trimmed) line does.
pub open spec fn line_effect(t: Seq<char>) -> Result<EffectModel, ErrorKindModel> {
    if t.len() == 0 || t[0] == '#' {
        Ok(EffectModel::Nothing)
    } else if t == "Enter"@ {
        Ok(EffectModel::Command(CommandModel::Key("Enter"@, 1)))
    } else {
        match split_once(t, ' ') {
            None => Err(ErrorKindModel::Syntax),
            Some((cmd, rest)) => command_effect(cmd, rest, t),
        }
    }
}

pub open spec fn apply_effect(m: ScriptModel, e: EffectModel) -> ScriptModel {
    match e {
        EffectModel::Nothing => m,
        EffectModel::Title(t) => ScriptModel { title: Some(t), ..m },
        EffectModel::Engine(x) => ScriptModel { engine: Some(x), ..m },
        EffectModel::Shell(s) => ScriptModel { shell: Some(s), ..m },
        EffectModel::Output(o) => ScriptModel { output: Some(o), ..m },
        EffectModel::Fps(n) => ScriptModel { fps: Some(n), ..m },
        EffectModel::Command(c) => ScriptModel { commands: m.commands.push(c), ..m },
    }
}

pub open spec fn empty_model() -> ScriptModel {
    ScriptModel {
        title: None,
        engine: None,
        shell: None,
        output: None,
        fps: None,
        commands: Seq::empty(),
    }
}

/// Parse lines `i..` on top of `m`; line numbers are 1-based.
pub open spec fn parse_from(ls: Seq<Seq<char>>, i: int, m: ScriptModel) -> Result<
    ScriptModel,
    ParseErrorModel,
>
    decreases ls.len() - i,
{
    if i < 0 || i >= ls.len() {
        Ok(m)
    } else {
        match line_effect(trim(ls[i])) {
            Ok(e) => parse_from(ls, i + 1, apply_effect(m, e)),
            Err(k) => Err(ParseErrorModel { line: (i + 1) as nat, kind: k }),
        }
    }
}

/// The meaning of a whole `.roll` text.
pub open spec fn parse_roll(content: Seq<char>) -> Result<ScriptModel, ParseErrorModel> {
    parse_from(lines(content), 0, empty_model())
}

/// Two parse outcomes agree: the same script, or a rejection for the same
/// reason (the line number may differ).
pub open spec fn same_outcome(
    a: Result<ScriptModel, ParseErrorModel>,
    b: Result<ScriptModel, ParseErrorModel>,
) -> bool {
    match (a, b) {
        (Ok(x), Ok(y)) => x == y,
        (Err(x), Err(y)) => x.kind == y.kind,
        _ => false,
    }
}

/// A line that means nothing: blank, or a comment.
pub open spec fn inert_line(c: Seq<char>) -> bool {
    trim(c).len() == 0 || trim(c)[0] == '#'
}

proof fn lemma_parse_shifted(ls: Seq<Seq<char>>, k: int, c: Seq<char>, j: int, m: ScriptModel)
    requires
        0 <= k <= j <= ls.len(),
    ensures
        same_outcome(parse_from(ls.insert(k, c), j + 1, m), parse_from(ls, j, m)),
    decreases ls.len() - j,
{
    let ls2 = ls.insert(k, c);
    ls.insert_ensures(k, c);
    if j < ls.len() {
        assert(ls2[j + 1] == ls[j]);
        match line_effect(trim(ls[j])) {
            Ok(e) => lemma_parse_shifted(ls, k, c, j + 1, apply_effect(m, e)),
            Err(_) => {},
        }
    }
}

proof fn lemma_parse_prefix(ls: Seq<Seq<char>>, k: int, c: Seq<char>, i: int, m: ScriptModel)
    requires
        0 <= i <= k <= ls.len(),
        inert_line(c),
    ensures
        same_outcome(parse_from(ls.insert(k, c), i, m), parse_from(ls, i, m)),
    decreases k - i,
{
    let ls2 = ls.insert(k, c);
    ls.insert_ensures(k, c);
    if i == k {
        assert(ls2[k] == c);
        assert(line_effect(trim(c)) == Ok::<EffectModel, ErrorKindModel>(EffectModel::Nothing));
        lemma_parse_shifted(ls, k, c, k, m);
    } else {
        assert(ls2[i] == ls[i]);
        match line_effect(trim(ls[i])) {
            Ok(e) => lemma_parse_prefix(ls, k, c, i + 1, apply_effect(m, e)),
            Err(_) => {},
        }
    }
}

/// Blank lines and comments mean nothing: inserting one anywhere in a
/// script gives the same script, or the same rejection.
pub proof fn law_inert_lines_ignored(ls: Seq<Seq<char>>, k: int, c: Seq<char>)
    requires
        0 <= k <= ls.len(),
        inert_line(c),
    ensures
        same_outcome(parse_from(ls.insert(k, c), 0, empty_model()), parse_from(ls, 0, empty_model())),
{
    lemma_parse_prefix(ls, k, c, 0, empty_model());
}

/// The commands lines `i..` contribute: one for each line whose meaning is
/// a command, none for any other line.
pub open spec fn line_commands(ls: Seq<Seq<char>>, i: int) -> Seq<CommandModel>
    decreases ls.len() - i,
{
    if i < 0 || i >= ls.len() {
        Seq::empty()
    } else {
        let here = match line_effect(trim(ls[i])) {
            Ok(EffectModel::Command(c)) => seq![c],
            _ => Seq::empty(),
        };
        here + line_commands(ls, i + 1)
    }
}

/// The title after lines `i..`: that of the last `Title` line, else `acc`.
pub open spec fn last_title(ls: Seq<Seq<char>>, i: int, acc: Option<Seq<char>>) -> Option<
    Seq<char>,
>
    decreases ls.len() - i,
{
    if i < 0 || i >= ls.len() {
        acc
    } else {
        let next = match line_effect(trim(ls[i])) {
            Ok(EffectModel::Title(t)) => Some(t),
            _ => acc,
        };
        last_title(ls, i + 1, next)
    }
}

/// The output after lines `i..`: that of the last `Output` line, else `acc`.
pub open spec fn last_output(ls: Seq<Seq<char>>, i: int, acc: Option<Seq<char>>) -> Option<
    Seq<char>,
>
    decreases ls.len() - i,
{
    if i < 0 || i >= ls.len() {
        acc
    } else {
        let next = match line_effect(trim(ls[i])) {
            Ok(EffectModel::Output(o)) => Some(o),
            _ => acc,
        };
        last_output(ls, i + 1, next)
    }
}

/// The frame rate after lines `i..`: that of the last `FPS` line, else `acc`.
pub open spec fn last_fps(ls: Seq<Seq<char>>, i: int, acc: Option<u32>) -> Option<u32>
    decreases ls.len() - i,
{
    if i < 0 || i >= ls.len() {
        acc
    } else {
        let next = match line_effect(trim(ls[i])) {
            Ok(EffectModel::Fps(n)) => Some(n),
            _ => acc,
        };
        last_fps(ls, i + 1, next)
    }
}

/// The engine after lines `i..`: that of the last engine line, else `acc`.
pub open spec fn last_engine(ls: Seq<Seq<char>>, i: int, acc: Option<Engine>) -> Option<Engine>
    decreases ls.len() - i,
{
    if i < 0 || i >= ls.len() {
        acc
    } else {
        let next = match line_effect(trim(ls[i])) {
            Ok(EffectModel::Engine(e)) => Some(e),
            _ => acc,
        };
        last_engine(ls, i + 1, next)
    }
}

/// The shell after lines `i..`: that of the last shell line, else `acc`.
pub open spec fn last_shell(ls: Seq<Seq<char>>, i: int, acc: Option<Seq<char>>) -> Option<
    Seq<char>,
>
    decreases ls.len() - i,
{
    if i < 0 || i >= ls.len() {
        acc
    } else {
        let next = match line_effect(trim(ls[i])) {
            Ok(EffectModel::Shell(t)) => Some(t),
            _ => acc,
        };
        last_shell(ls, i + 1, next)
    }
}

/// Every line from `i` on has a meaning (is blank, a comment, a header or a
/// command).
pub open spec fn lines_valid(ls: Seq<Seq<char>>, i: int) -> bool {
    forall|j: int| i <= j < ls.len() ==> (#[trigger] line_effect(trim(ls[j]))) is Ok
}

proof fn lemma_parse_lines(ls: Seq<Seq<char>>, i: int, m: ScriptModel)
    requires
        0 <= i,
    ensures
        parse_from(ls, i, m) is Ok <==> lines_valid(ls, i),
        parse_from(ls, i, m) matches Ok(s) ==> s.commands == m.commands + line_commands(ls, i)
            && s.title == last_title(ls, i, m.title) && s.output == last_output(ls, i, m.output)
            && s.fps == last_fps(ls, i, m.fps) && s.engine == last_engine(ls, i, m.engine)
            && s.shell == last_shell(ls, i, m.shell),
    decreases ls.len() - i,
{
    if i < ls.len() {
        match line_effect(trim(ls[i])) {
            Ok(e) => {
                let m2 = apply_effect(m, e);
                lemma_parse_lines(ls, i + 1, m2);
                if lines_valid(ls, i + 1) {
                    assert forall|j: int| i <= j < ls.len() implies (#[trigger] line_effect(
                        trim(ls[j]),
                    )) is Ok by {
                        if j > i {
                            assert(i + 1 <= j);
                        }
                    }
                }
                match e {
                    EffectModel::Command(c) => {
                        assert(m.commands + (seq![c] + line_commands(ls, i + 1)) =~= m.commands.push(
                            c,
                        ) + line_commands(ls, i + 1));
                    },
                    _ => {
                        assert(Seq::<CommandModel>::empty() + line_commands(ls, i + 1)
                            =~= line_commands(ls, i + 1));
                    },
                }
            },
            Err(_) => {
                assert(!(line_effect(trim(ls[i])) is Ok));
            },
        }
    } else {
        assert(m.commands + line_commands(ls, i) =~= m.commands);
    }
}

/// A script parses exactly when every line has a meaning. It then holds,
/// in file order, exactly one command for each line that is a command;
/// blank lines, comments and header lines add none. A later header line
/// (`Title`, `Output`, `FPS`, the engine or the shell) overwrites an
/// earlier one.
pub proof fn law_one_command_per_line(content: Seq<char>)
    ensures
        parse_roll(content) is Ok <==> lines_valid(lines(content), 0),
        parse_roll(content) matches Ok(s) ==> {
            let ls = lines(content);
            &&& s.commands == line_commands(ls, 0)
            &&& s.title == last_title(ls, 0, None)
            &&& s.output == last_output(ls, 0, None)
            &&& s.fps == last_fps(ls, 0, None)
            &&& s.engine == last_engine(ls, 0, None)
            &&& s.shell == last_shell(ls, 0, None)
        },
{
    lemma_parse_lines(lines(content), 0, empty_model());
    assert(Seq::<CommandModel>::empty() + line_commands(lines(content), 0) =~= line_commands(
        lines(content),
        0,
    ));
}

/// A one-line script: its only line is the line itself, unchanged by
/// trimming.
proof fn lemma_one_line(l: Seq<char>)
    requires
        l.len() > 0,
        forall|k: int| 0 <= k < l.len() ==> l[k] != '\n',
        l.last() != '\r',
        !crate::text::is_ws(l[0]),
        !crate::text::is_ws(l.last()),
    ensures
        lines(l + "\n"@) == seq![l],
        trim(l) == l,
{
    reveal_strlit("\n");
    let s = l + "\n"@;
    crate::text::lemma_find_from(s, '\n', 0, l.len() as int);
    assert(s.subrange(0, l.len() as int) =~= l);
    assert(crate::text::lines_from(s, l.len() as int + 1) =~= Seq::<Seq<char>>::empty());
    assert(lines(s) =~= seq![l]);
}

/// The button words of the `Click` command.
pub open spec fn click_word(b: ClickType) -> Seq<char> {
    match b {
        ClickType::Left => "Left"@,
        ClickType::Right => "Right"@,
        ClickType::Middle => "Middle"@,
    }
}

/// `Click <word>` names its button: the script `Click Left`, `Click Right`
/// or `Click Middle` (one line) holds exactly one command, a click of the
/// button with that name, and nothing else.
pub proof fn law_click_names_its_button(b: ClickType)
    ensures
        parse_roll("Click "@ + click_word(b) + "\n"@) == Ok::<ScriptModel, ParseErrorModel>(
            ScriptModel { commands: seq![CommandModel::Click(b)], ..empty_model() },
        ),
{
    reveal_strlit("Click ");
    reveal_strlit("Click");
    reveal_strlit("Left");
    reveal_strlit("Right");
    reveal_strlit("Middle");
    reveal_strlit("Enter");
    reveal_strlit("Set");
    reveal_strlit("Type");
    reveal_strlit("Key");
    reveal_strlit("Sleep");
    reveal_strlit("MouseMove");
    let w = click_word(b);
    let l = "Click "@ + w;
    assert(l[0] == 'C');
    assert(l.last() == w.last());
    lemma_one_line(l);
    crate::text::lemma_find_from(l, ' ', 0, 5);
    assert(l.take(5) =~= "Click"@);
    assert(l.skip(6) =~= w);
    assert(l != "Enter"@) by {
        assert(l[0] != "Enter"@[0]);
    }
    assert(("Click"@) != ("Sleep"@)) by {
        assert(("Click"@)[0] != ("Sleep"@)[0]);
    }
    assert(line_effect(l) == Ok::<EffectModel, ErrorKindModel>(
        EffectModel::Command(CommandModel::Click(b)),
    ));
    assert(("Click "@ + w + "\n"@) =~= l + "\n"@);
    let m = apply_effect(empty_model(), EffectModel::Command(CommandModel::Click(b)));
    assert(m.commands =~= seq![CommandModel::Click(b)]);
    let ls = seq![l];
    assert(trim(ls[0]) == l);
    assert(parse_from(ls, 1, m) == Ok::<ScriptModel, ParseErrorModel>(m));
    assert(parse_from(ls, 0, empty_model()) == Ok::<ScriptModel, ParseErrorModel>(m));
    assert(m == ScriptModel { commands: seq![CommandModel::Click(b)], ..empty_model() });
}

/// A `Type` line types exactly the text between its quotes: the one-line
/// script `Type "<q>"` holds exactly one command, typing `q`, for any text
/// `q` on one line.
pub proof fn law_type_keeps_its_text(q: Seq<char>)
    requires
        forall|k: int| 0 <= k < q.len() ==> q[k] != '\n' && q[k] != '\r',
    ensures
        parse_roll("Type \""@ + q + "\"\n"@) == Ok::<ScriptModel, ParseErrorModel>(
            ScriptModel { commands: seq![CommandModel::Type(q)], ..empty_model() },
        ),
{
    reveal_strlit("Type \"");
    reveal_strlit("\"\n");
    reveal_strlit("\"");
    reveal_strlit("\n");
    reveal_strlit("Type");
    reveal_strlit("Enter");
    reveal_strlit("Set");
    let l = "Type \""@ + q + "\""@;
    assert(l.last() == '"');
    assert(l[0] == 'T');
    assert forall|k: int| 0 <= k < l.len() implies l[k] != '\n' by {
        if 6 <= k < 6 + q.len() {
            assert(l[k] == q[k - 6]);
        }
    }
    lemma_one_line(l);
    crate::text::lemma_find_from(l, ' ', 0, 4);
    assert(l.take(4) =~= "Type"@);
    let rest = l.skip(5);
    assert(rest =~= "\""@ + q + "\""@);
    assert(rest.subrange(1, rest.len() - 1) =~= q);
    assert(l != "Enter"@) by {
        assert(l[0] != "Enter"@[0]);
    }
    assert(line_effect(l) == Ok::<EffectModel, ErrorKindModel>(
        EffectModel::Command(CommandModel::Type(q)),
    ));
    assert(("Type \""@ + q + "\"\n"@) =~= l + "\n"@);
    let m = apply_effect(empty_model(), EffectModel::Command(CommandModel::Type(q)));
    assert(m.commands =~= seq![CommandModel::Type(q)]);
    let ls = seq![l];
    assert(trim(ls[0]) == l);
    assert(parse_from(ls, 1, m) == Ok::<ScriptModel, ParseErrorModel>(m));
    assert(parse_from(ls, 0, empty_model()) == Ok::<ScriptModel, ParseErrorModel>(m));
}

} // verus!
