//! Executable `.roll` parser, proved to compute [`parse_roll`].

use vstd::prelude::*;

use crate::script::{
    all_pairs, apply_effect, click_effect, command_effect, commands_view, duration_ms,
    empty_model, key_effect, line_effect, mouse_effect, option_pairs, optimize_effect,
    pairs_view, parse_engine_str, parse_from, parse_roll, quoted, roll_secs, set_effect,
    size_effect, split_key, wait_effect, want_quoted, ClickType, CommandModel, EffectModel,
    ErrorKindModel, LineEffect, Mode, ParseError, ParseErrorKind, ParseErrorModel, Script,
    ScriptCommand, ScriptModel,
};
use crate::text::{
    chars_of, lit, ends_with_lit, eq_lit, find_char, lines, parse_i32, parse_u32, parse_u64,
    parse_unsigned, slice, split_lines, split_once, split_once_char, split_words,
    starts_with_lit, string_of, trim_chars, words,
};

verus! {

/// The executable result agrees with the specified one.
pub open spec fn effect_agrees(
    r: Result<LineEffect, ParseErrorKind>,
    s: Result<EffectModel, ErrorKindModel>,
) -> bool {
    match r {
        Ok(e) => s == Ok::<EffectModel, ErrorKindModel>(e@),
        Err(k) => s == Err::<EffectModel, ErrorKindModel>(k@),
    }
}

fn quoted_exec(s: &Vec<char>) -> (r: Option<Vec<char>>)
    ensures
        match r {
            Some(q) => quoted(s@) == Some(q@),
            None => quoted(s@) is None,
        },
{
    if s.len() >= 2 && s[0] == '"' && s[s.len() - 1] == '"' {
        Some(slice(s, 1, s.len() - 1))
    } else {
        None
    }
}

/// `N`, `Nms` or `Ns` in milliseconds.
pub fn duration_exec(s: &Vec<char>) -> (r: Option<u64>)
    ensures
        match r {
            Some(v) => duration_ms(s@) == Some(v as nat),
            None => duration_ms(s@) is None,
        },
{
    if ends_with_lit(s, "ms") {
        proof {
            reveal_strlit("ms");
        }
        let body = slice(s, 0, s.len() - 2);
        assert(body@ =~= s@.take(s@.len() - 2));
        parse_u64(&body)
    } else if ends_with_lit(s, "s") {
        proof {
            reveal_strlit("s");
        }
        let body = slice(s, 0, s.len() - 1);
        assert(body@ =~= s@.take(s@.len() - 1));
        match parse_u64(&body) {
            Some(v) => {
                if v <= u64::MAX / 1000 {
                    Some(v * 1000)
                } else {
                    None
                }
            },
            None => None,
        }
    } else {
        parse_u64(s)
    }
}

fn quoted_arg(
    rest: &Vec<char>,
    name: &str,
) -> (r: Result<String, ParseErrorKind>)
    ensures
        match r {
            Ok(q) => quoted(rest@) == Some(q@),
            Err(k) => quoted(rest@) is None && k@ == ErrorKindModel::Quoted(name@),
        },
{
    match quoted_exec(rest) {
        Some(q) => Ok(string_of(&q)),
        None => Err(ParseErrorKind::Quoted(lit(name))),
    }
}

fn set_exec(rest: &Vec<char>, line: &Vec<char>) -> (r: Result<LineEffect, ParseErrorKind>)
    ensures
        effect_agrees(r, set_effect(rest@, line@)),
{
    let (key, val) = match split_once_char(rest, ' ') {
        Some((k, v)) => (k, v),
        None => {
            let e: Vec<char> = Vec::new();
            assert(e@ =~= Seq::<char>::empty());
            (slice(rest, 0, rest.len()), e)
        },
    };
    assert(split_key(rest@) == (key@, val@)) by {
        assert(rest@.subrange(0, rest@.len() as int) =~= rest@);
    }
    if eq_lit(&key, "Engine") {
        let vs = string_of(&val);
        match parse_engine_str(vs.as_str()) {
            Some(e) => Ok(LineEffect::Engine(e)),
            None => Err(ParseErrorKind::Invalid(lit("Set Engine"), vs)),
        }
    } else if eq_lit(&key, "Output") {
        match quoted_arg(&val, "Set Output") {
            Ok(q) => Ok(LineEffect::Output(q)),
            Err(k) => Err(k),
        }
    } else if eq_lit(&key, "FPS") {
        match parse_u32(&val) {
            Some(n) => Ok(LineEffect::Fps(n)),
            None => Err(ParseErrorKind::Number(lit("Set FPS"))),
        }
    } else if eq_lit(&key, "Shell") {
        match quoted_arg(&val, "Set Shell") {
            Ok(q) => Ok(LineEffect::Shell(q)),
            Err(k) => Err(k),
        }
    } else {
        Ok(LineEffect::Command(ScriptCommand::Vhs(string_of(line))))
    }
}

/// The words of `rest` with their models.
fn words_of(rest: &Vec<char>) -> (r: Vec<Vec<char>>)
    ensures
        r@.len() == words(rest@).len(),
        forall|i: int| 0 <= i < r@.len() ==> #[trigger] r@[i]@ == words(rest@)[i],
{
    let r = split_words(rest);
    assert forall|i: int| 0 <= i < r@.len() implies #[trigger] r@[i]@ == words(rest@)[i] by {
        assert(r@.map_values(|w: Vec<char>| w@)[i] == r@[i]@);
    }
    r
}

fn key_exec(rest: &Vec<char>) -> (r: Result<LineEffect, ParseErrorKind>)
    ensures
        effect_agrees(r, key_effect(rest@)),
{
    let ws = words_of(rest);
    if ws.len() == 1 {
        Ok(LineEffect::Command(ScriptCommand::Key(string_of(&ws[0]), 1)))
    } else if ws.len() == 2 {
        match parse_u32(&ws[1]) {
            Some(n) => Ok(LineEffect::Command(ScriptCommand::Key(string_of(&ws[0]), n))),
            None => Err(ParseErrorKind::Number(lit("Key"))),
        }
    } else {
        Err(ParseErrorKind::Format(lit("Key")))
    }
}

fn mouse_exec(rest: &Vec<char>) -> (r: Result<LineEffect, ParseErrorKind>)
    ensures
        effect_agrees(r, mouse_effect(rest@)),
{
    let ws = words_of(rest);
    let shaped = ws.len() == 2 || (ws.len() == 3 && starts_with_lit(&ws[2], "speed="));
    if shaped {
        match (parse_i32(&ws[0]), parse_i32(&ws[1])) {
            (Some(x), Some(y)) => Ok(LineEffect::Command(ScriptCommand::MouseMove(x, y))),
            _ => Err(ParseErrorKind::Format(lit("MouseMove"))),
        }
    } else {
        Err(ParseErrorKind::Format(lit("MouseMove")))
    }
}

fn click_exec(rest: &Vec<char>) -> (r: Result<LineEffect, ParseErrorKind>)
    ensures
        effect_agrees(r, click_effect(rest@)),
{
    if eq_lit(rest, "Left") {
        Ok(LineEffect::Command(ScriptCommand::Click(ClickType::Left)))
    } else if eq_lit(rest, "Right") {
        Ok(LineEffect::Command(ScriptCommand::Click(ClickType::Right)))
    } else if eq_lit(rest, "Middle") {
        Ok(LineEffect::Command(ScriptCommand::Click(ClickType::Middle)))
    } else {
        Err(ParseErrorKind::Invalid(lit("Click"), string_of(rest)))
    }
}

fn wait_exec(rest: &Vec<char>) -> (r: Result<LineEffect, ParseErrorKind>)
    ensures
        effect_agrees(r, wait_effect(rest@)),
{
    if rest.len() >= 1 && rest[0] == '"' {
        let j = find_char(rest, '"', 1);
        if j < rest.len() {
            let name = string_of(&slice(rest, 1, j));
            let tail = slice(rest, j + 1, rest.len());
            assert(tail@ =~= rest@.skip(j + 1));
            let after = trim_chars(&tail);
            if after.len() == 0 {
                return Ok(LineEffect::Command(ScriptCommand::WaitWindow(name, 10000)));
            } else if starts_with_lit(&after, "timeout=") {
                let n = chars_of("timeout=").len();
                let value = slice(&after, n, after.len());
                assert(value@ =~= after@.skip("timeout="@.len() as int));
                return match duration_exec(&value) {
                    Some(ms) => Ok(LineEffect::Command(ScriptCommand::WaitWindow(name, ms))),
                    None => Err(ParseErrorKind::Number(lit("WaitWindow timeout"))),
                };
            } else {
                return Err(ParseErrorKind::Format(lit("WaitWindow")));
            }
        }
    }
    Err(ParseErrorKind::Quoted(lit("WaitWindow")))
}

fn size_exec(rest: &Vec<char>) -> (r: Result<LineEffect, ParseErrorKind>)
    ensures
        effect_agrees(r, size_effect(rest@)),
{
    let ws = words_of(rest);
    if ws.len() == 2 {
        match (parse_u32(&ws[0]), parse_u32(&ws[1])) {
            (Some(w), Some(h)) => Ok(LineEffect::Command(ScriptCommand::WindowSize(w, h))),
            _ => Err(ParseErrorKind::Format(lit("WindowSize"))),
        }
    } else {
        Err(ParseErrorKind::Format(lit("WindowSize")))
    }
}

fn roll_exec(rest: &Vec<char>) -> (r: Option<u64>)
    ensures
        match r {
            Some(v) => roll_secs(rest@) == Some(v as nat),
            None => roll_secs(rest@) is None,
        },
{
    if ends_with_lit(rest, "s") {
        proof {
            reveal_strlit("s");
        }
        let body = slice(rest, 0, rest.len() - 1);
        assert(body@ =~= rest@.take(rest@.len() - 1));
        parse_u64(&body)
    } else {
        parse_u64(rest)
    }
}

fn optimize_exec(rest: &Vec<char>) -> (r: Result<LineEffect, ParseErrorKind>)
    ensures
        effect_agrees(r, optimize_effect(rest@)),
{
    let ws = words_of(rest);
    if ws.len() == 0 {
        return Err(ParseErrorKind::Format(lit("Optimize")));
    }
    let ghost wm = words(rest@);
    let mut kv: Vec<(String, String)> = Vec::new();
    let mut i: usize = 1;
    while i < ws.len()
        invariant
            1 <= i <= ws.len(),
            wm == words(rest@),
            ws@.len() == wm.len(),
            forall|k: int| 0 <= k < ws@.len() ==> #[trigger] ws@[k]@ == wm[k],
            forall|k: int| 1 <= k < i ==> (#[trigger] split_once(wm[k], '=')) is Some,
            pairs_view(kv@) =~= option_pairs(wm).take(i - 1),
        decreases ws.len() - i,
    {
        match split_once_char(&ws[i], '=') {
            Some((k, v)) => {
                let ghost old_kv = kv@;
                kv.push((string_of(&k), string_of(&v)));
                assert(pairs_view(kv@) =~= pairs_view(old_kv).push((k@, v@)));
                assert(option_pairs(wm).take(i as int) =~= option_pairs(wm).take(i - 1).push(
                    option_pairs(wm)[i - 1],
                ));
            },
            None => {
                assert(ws@[i as int]@ == wm[i as int]);
                assert(split_once(wm[i as int], '=') is None);
                assert(!all_pairs(wm));
                return Err(ParseErrorKind::Format(lit("Optimize")));
            },
        }
        i += 1;
    }
    assert(option_pairs(wm).take(ws.len() - 1) =~= option_pairs(wm));
    Ok(LineEffect::Command(ScriptCommand::Optimize(string_of(&ws[0]), kv)))
}

/// Quoted-argument commands that add a script command.
fn quoted_command(rest: &Vec<char>, which: u8) -> (r: Result<LineEffect, ParseErrorKind>)
    requires
        which < 5,
    ensures
        which == 0 ==> effect_agrees(
            r,
            want_quoted(
                rest@,
                "Type"@,
                |q: Seq<char>| EffectModel::Command(CommandModel::Type(q)),
            ),
        ),
        which == 1 ==> effect_agrees(
            r,
            want_quoted(
                rest@,
                "Shortcut"@,
                |q: Seq<char>| EffectModel::Command(CommandModel::Shortcut(q)),
            ),
        ),
        which == 2 ==> effect_agrees(
            r,
            want_quoted(
                rest@,
                "ExecBefore"@,
                |q: Seq<char>| EffectModel::Command(CommandModel::ExecBefore(q)),
            ),
        ),
        which == 3 ==> effect_agrees(
            r,
            want_quoted(
                rest@,
                "ExecAfter"@,
                |q: Seq<char>| EffectModel::Command(CommandModel::ExecAfter(q)),
            ),
        ),
        which == 4 ==> effect_agrees(
            r,
            want_quoted(
                rest@,
                "TargetWindow"@,
                |q: Seq<char>| EffectModel::Command(CommandModel::TargetWindow(q)),
            ),
        ),
{
    let name = if which == 0 {
        "Type"
    } else if which == 1 {
        "Shortcut"
    } else if which == 2 {
        "ExecBefore"
    } else if which == 3 {
        "ExecAfter"
    } else {
        "TargetWindow"
    };
    match quoted_arg(rest, name) {
        Ok(q) => {
            let c = if which == 0 {
                ScriptCommand::Type(q)
            } else if which == 1 {
                ScriptCommand::Shortcut(q)
            } else if which == 2 {
                ScriptCommand::ExecBefore(q)
            } else if which == 3 {
                ScriptCommand::ExecAfter(q)
            } else {
                ScriptCommand::TargetWindow(q)
            };
            Ok(LineEffect::Command(c))
        },
        Err(k) => Err(k),
    }
}

/// Legacy setting commands and `Mode`.
fn legacy_exec(cmd: &Vec<char>, rest: &Vec<char>) -> (r: Result<LineEffect, ParseErrorKind>)
    requires
        cmd@ == "Title"@ || cmd@ == "Mode"@ || cmd@ == "Terminal"@ || cmd@ == "Output"@ || cmd@
            == "FPS"@,
    ensures
        cmd@ == "Title"@ ==> effect_agrees(
            r,
            want_quoted(rest@, "Title"@, |q: Seq<char>| EffectModel::Title(q)),
        ),
        cmd@ != "Title"@ && cmd@ == "Mode"@ ==> effect_agrees(
            r,
            if rest@ == "TUI"@ {
                Ok(EffectModel::Engine(Mode::TUI.spec_engine()))
            } else if rest@ == "GUI"@ {
                Ok(EffectModel::Engine(Mode::GUI.spec_engine()))
            } else {
                Err(ErrorKindModel::Invalid("Mode"@, rest@))
            },
        ),
        cmd@ != "Title"@ && cmd@ != "Mode"@ && cmd@ == "Terminal"@ ==> effect_agrees(
            r,
            want_quoted(rest@, "Terminal"@, |q: Seq<char>| EffectModel::Shell(q)),
        ),
        cmd@ != "Title"@ && cmd@ != "Mode"@ && cmd@ != "Terminal"@ && cmd@ == "Output"@
            ==> effect_agrees(
            r,
            want_quoted(rest@, "Output"@, |q: Seq<char>| EffectModel::Output(q)),
        ),
        cmd@ != "Title"@ && cmd@ != "Mode"@ && cmd@ != "Terminal"@ && cmd@ != "Output"@
            ==> effect_agrees(
            r,
            match parse_unsigned(rest@, u32::MAX as nat) {
                Some(n) => Ok(EffectModel::Fps(n as u32)),
                None => Err(ErrorKindModel::Number("FPS"@)),
            },
        ),
{
    if eq_lit(cmd, "Title") {
        match quoted_arg(rest, "Title") {
            Ok(q) => Ok(LineEffect::Title(q)),
            Err(k) => Err(k),
        }
    } else if eq_lit(cmd, "Mode") {
        if eq_lit(rest, "TUI") {
            Ok(LineEffect::Engine(Mode::TUI.engine()))
        } else if eq_lit(rest, "GUI") {
            Ok(LineEffect::Engine(Mode::GUI.engine()))
        } else {
            Err(ParseErrorKind::Invalid(lit("Mode"), string_of(rest)))
        }
    } else if eq_lit(cmd, "Terminal") {
        match quoted_arg(rest, "Terminal") {
            Ok(q) => Ok(LineEffect::Shell(q)),
            Err(k) => Err(k),
        }
    } else if eq_lit(cmd, "Output") {
        match quoted_arg(rest, "Output") {
            Ok(q) => Ok(LineEffect::Output(q)),
            Err(k) => Err(k),
        }
    } else {
        match parse_u32(rest) {
            Some(n) => Ok(LineEffect::Fps(n)),
            None => Err(ParseErrorKind::Number(lit("FPS"))),
        }
    }
}

fn command_exec(cmd: &Vec<char>, rest: &Vec<char>, line: &Vec<char>) -> (r: Result<
    LineEffect,
    ParseErrorKind,
>)
    ensures
        effect_agrees(r, command_effect(cmd@, rest@, line@)),
{
    if eq_lit(cmd, "Set") {
        set_exec(rest, line)
    } else if eq_lit(cmd, "Type") {
        quoted_command(rest, 0)
    } else if eq_lit(cmd, "Enter") {
        Ok(LineEffect::Command(ScriptCommand::Key(lit("Enter"), 1)))
    } else if eq_lit(cmd, "Key") {
        key_exec(rest)
    } else if eq_lit(cmd, "Sleep") {
        match duration_exec(rest) {
            Some(ms) => Ok(LineEffect::Command(ScriptCommand::Sleep(ms))),
            None => Err(ParseErrorKind::Number(lit("Sleep"))),
        }
    } else if eq_lit(cmd, "MouseMove") {
        mouse_exec(rest)
    } else if eq_lit(cmd, "Click") {
        click_exec(rest)
    } else if eq_lit(cmd, "Shortcut") {
        quoted_command(rest, 1)
    } else if eq_lit(cmd, "ExecBefore") {
        quoted_command(rest, 2)
    } else if eq_lit(cmd, "ExecAfter") {
        quoted_command(rest, 3)
    } else if eq_lit(cmd, "WaitWindow") {
        wait_exec(rest)
    } else if eq_lit(cmd, "TargetWindow") {
        quoted_command(rest, 4)
    } else if eq_lit(cmd, "WindowSize") {
        size_exec(rest)
    } else if eq_lit(cmd, "Padding") {
        match parse_u32(rest) {
            Some(n) => Ok(LineEffect::Command(ScriptCommand::Padding(n))),
            None => Err(ParseErrorKind::Number(lit("Padding"))),
        }
    } else if eq_lit(cmd, "Roll") {
        match roll_exec(rest) {
            Some(n) => Ok(LineEffect::Command(ScriptCommand::Roll(n))),
            None => Err(ParseErrorKind::Number(lit("Roll"))),
        }
    } else if eq_lit(cmd, "Optimize") {
        optimize_exec(rest)
    } else if eq_lit(cmd, "Title") || eq_lit(cmd, "Mode") || eq_lit(cmd, "Terminal") || eq_lit(
        cmd,
        "Output",
    ) || eq_lit(cmd, "FPS") {
        legacy_exec(cmd, rest)
    } else {
        Err(ParseErrorKind::Unknown(string_of(cmd)))
    }
}

/// What one trimmed line does.
pub fn line_effect_exec(t: &Vec<char>) -> (r: Result<LineEffect, ParseErrorKind>)
    ensures
        effect_agrees(r, line_effect(t@)),
{
    if t.len() == 0 || t[0] == '#' {
        return Ok(LineEffect::Nothing);
    }
    if eq_lit(t, "Enter") {
        return Ok(LineEffect::Command(ScriptCommand::Key(lit("Enter"), 1)));
    }
    match split_once_char(t, ' ') {
        None => Err(ParseErrorKind::Syntax),
        Some((cmd, rest)) => command_exec(&cmd, &rest, t),
    }
}

/// Apply a line's effect to the script being built.
fn apply(script: &mut Script, e: LineEffect)
    ensures
        final(script)@ == apply_effect(old(script)@, e@),
{
    match e {
        LineEffect::Nothing => {},
        LineEffect::Title(t) => {
            script.title = Some(t);
        },
        LineEffect::Engine(x) => {
            script.engine = Some(x);
        },
        LineEffect::Shell(s) => {
            script.shell = Some(s);
        },
        LineEffect::Output(o) => {
            script.output = Some(o);
        },
        LineEffect::Fps(n) => {
            script.fps = Some(n);
        },
        LineEffect::Command(c) => {
            let ghost cv = c@;
            script.commands.push(c);
            assert(commands_view(script.commands@) =~= commands_view(old(script).commands@).push(
                cv,
            ));
        },
    }
}

/// Parses `.roll` text. Blank lines and `#` comments are skipped; the first
/// line that does not parse is reported with its 1-based number.
pub fn parse_roll_content(content: &str) -> (r: Result<Script, ParseError>)
    ensures
        match r {
            Ok(s) => parse_roll(content@) == Ok::<ScriptModel, ParseErrorModel>(s@),
            Err(e) => parse_roll(content@) == Err::<ScriptModel, ParseErrorModel>(e@),
        },
{
    let text = chars_of(content);
    let ls = split_lines(&text);
    let ghost lm = lines(content@);
    assert(ls@.len() == lm.len());
    let mut script = Script {
        title: None,
        engine: None,
        shell: None,
        output: None,
        fps: None,
        commands: Vec::new(),
    };
    assert(script@ == empty_model()) by {
        assert(commands_view(script.commands@) =~= Seq::<CommandModel>::empty());
    }
    let mut i: usize = 0;
    while i < ls.len()
        invariant
            i <= ls.len(),
            lm == ls@.map_values(|l: Vec<char>| l@),
            lm.len() == ls@.len(),
            parse_roll(content@) == parse_from(lm, i as int, script@),
        decreases ls.len() - i,
    {
        assert(lm[i as int] == ls@[i as int]@);
        let t = trim_chars(&ls[i]);
        match line_effect_exec(&t) {
            Ok(e) => {
                apply(&mut script, e);
            },
            Err(k) => {
                return Err(ParseError { line: i + 1, kind: k });
            },
        }
        i += 1;
    }
    Ok(script)
}

} // verus!
