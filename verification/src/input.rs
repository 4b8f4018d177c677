//! Keyboard and mouse injection: choice of back end, shortcut parsing, the
//! argument lists handed to `wtype`, and the event sequences written to the
//! virtual uinput keyboard and mouse.
//!
//! An event is a pair (code, value): value 1 presses, value 0 releases.

use vstd::prelude::*;

use crate::keys::{
    ascii_key, ascii_key_spec, key_name_spec, parse_key_name, BTN_LEFT, BTN_MIDDLE, BTN_RIGHT,
    KEY_LEFTALT, KEY_LEFTCTRL, KEY_LEFTMETA, KEY_LEFTSHIFT,
};
use crate::script::ClickType;
use crate::text::{
    ascii_lower_seq, chars_of, eq_lit, lit, pieces, push_str, spec_to_lowercase, split_char,
    string_of, to_ascii_lower, to_lowercase, trim, trim_chars,
};

verus! {

// ───────────────────────── errors ─────────────────────────

/// Why an injection request was refused.
#[derive(Debug, Clone, PartialEq, Eq)]
pub enum InputError {
    /// A key name the virtual keyboard does not know.
    UnknownKey(String),
    /// A shortcut without a modifier (the whole combination).
    ShortcutFormat(String),
    /// A modifier that is not Ctrl/Shift/Alt/Super (lower-cased).
    ShortcutModifier(String),
    /// A character outside printable ASCII.
    UnsupportedChar(char),
    /// Mouse events need the uinput back end.
    MouseUnavailable,
}

pub enum InputErrorModel {
    UnknownKey(Seq<char>),
    ShortcutFormat(Seq<char>),
    ShortcutModifier(Seq<char>),
    UnsupportedChar(char),
    MouseUnavailable,
}

impl View for InputError {
    type V = InputErrorModel;

    open spec fn view(&self) -> InputErrorModel {
        match self {
            InputError::UnknownKey(s) => InputErrorModel::UnknownKey(s@),
            InputError::ShortcutFormat(s) => InputErrorModel::ShortcutFormat(s@),
            InputError::ShortcutModifier(s) => InputErrorModel::ShortcutModifier(s@),
            InputError::UnsupportedChar(c) => InputErrorModel::UnsupportedChar(*c),
            InputError::MouseUnavailable => InputErrorModel::MouseUnavailable,
        }
    }
}

pub open spec fn input_error_text(e: InputErrorModel) -> Seq<char> {
    match e {
        InputErrorModel::UnknownKey(n) => "Key 不支援的按鍵名稱「"@ + n
            + "」（uinput 子集；wtype 後端可完整支援）"@,
        InputErrorModel::ShortcutFormat(c) => "Shortcut 格式錯誤：「"@ + c
            + "」（預期如 Ctrl+S，單鍵請用 Key）"@,
        InputErrorModel::ShortcutModifier(m) => "Shortcut 不支援的修飾鍵「"@ + m
            + "」（支援 Ctrl/Shift/Alt/Super）"@,
        InputErrorModel::UnsupportedChar(c) => "Type 不支援的字元「"@ + seq![c]
            + "」（uinput ASCII 子集）"@,
        InputErrorModel::MouseUnavailable => "滑鼠注入未支援：/dev/uinput 不可寫（wtype 後端僅鍵盤）"@,
    }
}

impl InputError {
    /// The message shown to the user.
    pub fn message(&self) -> (m: String)
        ensures
            m@ == input_error_text(self@),
    {
        match self {
            InputError::UnknownKey(n) => {
                let mut m = lit("Key 不支援的按鍵名稱「");
                push_str(&mut m, n.as_str());
                push_str(&mut m, "」（uinput 子集；wtype 後端可完整支援）");
                m
            },
            InputError::ShortcutFormat(c) => {
                let mut m = lit("Shortcut 格式錯誤：「");
                push_str(&mut m, c.as_str());
                push_str(&mut m, "」（預期如 Ctrl+S，單鍵請用 Key）");
                m
            },
            InputError::ShortcutModifier(o) => {
                let mut m = lit("Shortcut 不支援的修飾鍵「");
                push_str(&mut m, o.as_str());
                push_str(&mut m, "」（支援 Ctrl/Shift/Alt/Super）");
                m
            },
            InputError::UnsupportedChar(c) => {
                let mut m = lit("Type 不支援的字元「");
                m.push(*c);
                push_str(&mut m, "」（uinput ASCII 子集）");
                m
            },
            InputError::MouseUnavailable => lit("滑鼠注入未支援：/dev/uinput 不可寫（wtype 後端僅鍵盤）"),
        }
    }
}

// ───────────────────────── back end ─────────────────────────

/// Where key and mouse events go.
#[derive(Debug, Clone, Copy, PartialEq, Eq, Structural)]
pub enum InputBackend {
    /// The kernel's userspace input device: keyboard and mouse, every compositor.
    UinputNative,
    /// The `wtype` tool: keyboard only, wlroots compositors.
    Wtype,
}

impl InputBackend {
    pub open spec fn describe_spec(self) -> Seq<char> {
        match self {
            InputBackend::UinputNative => "UinputNative (Kernel Level Input)"@,
            InputBackend::Wtype => "Wtype (Keyboard only)"@,
        }
    }

    /// Name of the back end as shown to the user.
    pub fn describe(&self) -> (r: String)
        ensures
            r@ == self.describe_spec(),
    {
        match self {
            InputBackend::UinputNative => lit("UinputNative (Kernel Level Input)"),
            InputBackend::Wtype => lit("Wtype (Keyboard only)"),
        }
    }

    /// uinput when `/dev/uinput` can be opened for writing, else wtype.
    pub open spec fn detect_spec(uinput_writable: bool) -> InputBackend {
        if uinput_writable {
            InputBackend::UinputNative
        } else {
            InputBackend::Wtype
        }
    }

    pub fn detect(uinput_writable: bool) -> (b: InputBackend)
        ensures
            b == Self::detect_spec(uinput_writable),
    {
        if uinput_writable {
            InputBackend::UinputNative
        } else {
            InputBackend::Wtype
        }
    }
}

// ───────────────────────── shortcuts ─────────────────────────

/// The `+`-separated parts of a combination, each trimmed.
pub open spec fn shortcut_parts(combo: Seq<char>) -> Seq<Seq<char>> {
    pieces(combo, '+').map_values(|p: Seq<char>| trim(p))
}

/// The wtype name of a modifier, whatever its case.
pub open spec fn modifier_name(m: Seq<char>) -> Option<Seq<char>> {
    let l = ascii_lower_seq(m);
    if l == "ctrl"@ || l == "control"@ {
        Some("ctrl"@)
    } else if l == "shift"@ {
        Some("shift"@)
    } else if l == "alt"@ {
        Some("alt"@)
    } else if l == "super"@ || l == "win"@ || l == "meta"@ {
        Some("super"@)
    } else {
        None
    }
}

/// The modifiers' wtype names, or the first one not known (lower-cased).
pub open spec fn normalize_mods(ms: Seq<Seq<char>>) -> Result<Seq<Seq<char>>, Seq<char>>
    decreases ms.len(),
{
    if ms.len() == 0 {
        Ok(Seq::empty())
    } else {
        match modifier_name(ms[0]) {
            None => Err(ascii_lower_seq(ms[0])),
            Some(n) => match normalize_mods(ms.drop_first()) {
                Ok(r) => Ok(seq![n] + r),
                Err(e) => Err(e),
            },
        }
    }
}

/// A combination is at least one modifier and a key: the modifiers' wtype
/// names and the key, lower-cased.
pub open spec fn shortcut_spec(combo: Seq<char>) -> Result<
    (Seq<Seq<char>>, Seq<char>),
    InputErrorModel,
> {
    let parts = shortcut_parts(combo);
    if parts.len() < 2 {
        Err(InputErrorModel::ShortcutFormat(combo))
    } else {
        match normalize_mods(parts.drop_last()) {
            Ok(mods) => Ok((mods, spec_to_lowercase(parts.last()))),
            Err(bad) => Err(InputErrorModel::ShortcutModifier(bad)),
        }
    }
}

pub open spec fn strings_view(v: Seq<String>) -> Seq<Seq<char>> {
    v.map_values(|s: String| s@)
}

pub open spec fn shortcut_result_view(r: Result<(Vec<String>, String), InputError>) -> Result<
    (Seq<Seq<char>>, Seq<char>),
    InputErrorModel,
> {
    match r {
        Ok((m, k)) => Ok((strings_view(m@), k@)),
        Err(e) => Err(e@),
    }
}

fn modifier_of(m: &Vec<char>) -> (r: Option<String>)
    ensures
        match r {
            Some(n) => modifier_name(m@) == Some(n@),
            None => modifier_name(m@) is None,
        },
{
    let l = to_ascii_lower(m);
    if eq_lit(&l, "ctrl") || eq_lit(&l, "control") {
        Some(lit("ctrl"))
    } else if eq_lit(&l, "shift") {
        Some(lit("shift"))
    } else if eq_lit(&l, "alt") {
        Some(lit("alt"))
    } else if eq_lit(&l, "super") || eq_lit(&l, "win") || eq_lit(&l, "meta") {
        Some(lit("super"))
    } else {
        None
    }
}

pub open spec fn prepend_ok(
    o: Seq<Seq<char>>,
    r: Result<Seq<Seq<char>>, Seq<char>>,
) -> Result<Seq<Seq<char>>, Seq<char>> {
    match r {
        Ok(t) => Ok(o + t),
        Err(e) => Err(e),
    }
}

/// Split `"Ctrl+Shift+S"` into its modifiers' wtype names and its key.
pub fn parse_shortcut(combo: &str) -> (r: Result<(Vec<String>, String), InputError>)
    ensures
        shortcut_result_view(r) == shortcut_spec(combo@),
{
    let cv = chars_of(combo);
    let raw = split_char(&cv, '+');
    let ghost rv = raw@.map_values(|l: Vec<char>| l@);
    let mut parts: Vec<Vec<char>> = Vec::new();
    let mut i: usize = 0;
    while i < raw.len()
        invariant
            i <= raw.len(),
            rv == raw@.map_values(|l: Vec<char>| l@),
            parts@.map_values(|l: Vec<char>| l@) == rv.take(i as int).map_values(
                |p: Seq<char>| trim(p),
            ),
        decreases raw.len() - i,
    {
        let t = trim_chars(&raw[i]);
        let ghost before = parts@.map_values(|l: Vec<char>| l@);
        parts.push(t);
        assert(parts@.map_values(|l: Vec<char>| l@) =~= before.push(t@));
        assert(rv.take(i + 1).map_values(|p: Seq<char>| trim(p)) =~= rv.take(i as int).map_values(
            |p: Seq<char>| trim(p),
        ).push(trim(rv[i as int])));
        i += 1;
    }
    let ghost pv = parts@.map_values(|l: Vec<char>| l@);
    assert(rv.take(raw.len() as int) =~= rv);
    assert(pv == shortcut_parts(combo@));
    if parts.len() < 2 {
        return Err(InputError::ShortcutFormat(lit(combo)));
    }
    let n = parts.len() - 1;
    let ghost ms = pv.drop_last();
    let mut out: Vec<String> = Vec::new();
    let mut j: usize = 0;
    assert(ms.skip(0) =~= ms);
    assert(strings_view(out@) =~= Seq::<Seq<char>>::empty());
    assert(normalize_mods(ms) == prepend_ok(strings_view(out@), normalize_mods(ms))) by {
        match normalize_mods(ms) {
            Ok(t) => assert(Seq::<Seq<char>>::empty() + t =~= t),
            Err(_) => {},
        }
    }
    while j < n
        invariant
            n == parts.len() - 1,
            j <= n,
            pv == parts@.map_values(|l: Vec<char>| l@),
            pv == shortcut_parts(combo@),
            ms == pv.drop_last(),
            normalize_mods(ms) == prepend_ok(strings_view(out@), normalize_mods(ms.skip(j as int))),
        decreases n - j,
    {
        assert(ms.skip(j as int)[0] == ms[j as int]);
        assert(ms.skip(j as int).drop_first() =~= ms.skip(j + 1));
        match modifier_of(&parts[j]) {
            None => {
                assert(pv[j as int] == ms[j as int]);
                assert(normalize_mods(ms.skip(j as int)) == Err::<Seq<Seq<char>>, Seq<char>>(
                    ascii_lower_seq(ms[j as int]),
                ));
                let bad = to_ascii_lower(&parts[j]);
                assert(normalize_mods(ms) == Err::<Seq<Seq<char>>, Seq<char>>(bad@));
                assert(shortcut_spec(combo@) == Err::<(Seq<Seq<char>>, Seq<char>), InputErrorModel>(
                    InputErrorModel::ShortcutModifier(bad@),
                ));
                let bs = string_of(&bad);
                return Err(InputError::ShortcutModifier(bs));
            },
            Some(name) => {
                let ghost before = strings_view(out@);
                out.push(name);
                assert(strings_view(out@) =~= before.push(name@));
                assert(before + (seq![name@] + match normalize_mods(ms.skip(j + 1)) {
                    Ok(t) => t,
                    Err(_) => Seq::empty(),
                }) =~= strings_view(out@) + match normalize_mods(ms.skip(j + 1)) {
                    Ok(t) => t,
                    Err(_) => Seq::empty(),
                });
            },
        }
        j += 1;
    }
    assert(ms.skip(n as int) =~= Seq::<Seq<char>>::empty());
    assert(strings_view(out@) + Seq::<Seq<char>>::empty() =~= strings_view(out@));
    let key_text = string_of(&parts[n]);
    let key = to_lowercase(key_text.as_str());
    Ok((out, key))
}

// ───────────────────────── wtype ─────────────────────────

/// The `wtype` tool (keyboard only).
pub struct WtypeAdapter {
    pub wtype: String,
}

pub open spec fn repeat_seq<T>(s: Seq<T>, k: nat) -> Seq<T>
    decreases k,
{
    if k == 0 {
        Seq::empty()
    } else {
        repeat_seq(s, (k - 1) as nat) + s
    }
}

/// A count of zero presses once.
pub open spec fn at_least_one(count: u32) -> nat {
    if count == 0 {
        1
    } else {
        count as nat
    }
}

pub open spec fn wtype_key_spec(name: Seq<char>, count: u32) -> Seq<Seq<char>> {
    repeat_seq(seq!["-P"@, name, "-p"@, name], at_least_one(count))
}

/// `-M m` for each modifier, the key, then `-m m` for each modifier in
/// reverse order.
pub open spec fn wtype_shortcut_spec(mods: Seq<Seq<char>>, key: Seq<char>) -> Seq<Seq<char>> {
    mods_press(mods) + seq![key] + mods_release(mods)
}

pub open spec fn mods_press(mods: Seq<Seq<char>>) -> Seq<Seq<char>>
    decreases mods.len(),
{
    if mods.len() == 0 {
        Seq::empty()
    } else {
        mods_press(mods.drop_last()) + seq!["-M"@, mods.last()]
    }
}

pub open spec fn mods_release(mods: Seq<Seq<char>>) -> Seq<Seq<char>>
    decreases mods.len(),
{
    if mods.len() == 0 {
        Seq::empty()
    } else {
        seq!["-m"@, mods.last()] + mods_release(mods.drop_last())
    }
}

fn push_arg(v: &mut Vec<String>, a: &str)
    ensures
        strings_view(final(v)@) == strings_view(old(v)@).push(a@),
{
    let ghost before = strings_view(v@);
    v.push(lit(a));
    assert(strings_view(v@) =~= before.push(a@));
}

impl WtypeAdapter {
    /// The tool named by the `WTYPE` variable, else `wtype`.
    pub fn new(env_wtype: Option<String>) -> (w: Self)
        ensures
            w.wtype@ == match env_wtype {
                Some(s) => s@,
                None => "wtype"@,
            },
    {
        match env_wtype {
            Some(s) => WtypeAdapter { wtype: s },
            None => WtypeAdapter { wtype: lit("wtype") },
        }
    }

    /// Arguments that type a text.
    pub fn key_type_args(&self, text: &str) -> (r: Vec<String>)
        ensures
            strings_view(r@) == seq![text@],
    {
        let mut v: Vec<String> = Vec::new();
        push_arg(&mut v, text);
        assert(strings_view(v@) =~= seq![text@]);
        v
    }

    /// Arguments that press and release a named key `count` times (at least once).
    pub fn key_press_args(&self, name: &str, count: u32) -> (r: Vec<String>)
        ensures
            strings_view(r@) == wtype_key_spec(name@, count),
    {
        let times: u32 = if count == 0 {
            1
        } else {
            count
        };
        let mut v: Vec<String> = Vec::new();
        let mut i: u32 = 0;
        while i < times
            invariant
                i <= times,
                times as nat == at_least_one(count),
                strings_view(v@) == repeat_seq(seq!["-P"@, name@, "-p"@, name@], i as nat),
            decreases times - i,
        {
            let ghost before = strings_view(v@);
            push_arg(&mut v, "-P");
            push_arg(&mut v, name);
            push_arg(&mut v, "-p");
            push_arg(&mut v, name);
            proof {
                reveal_strlit("-P");
                reveal_strlit("-p");
            }
            assert(strings_view(v@) =~= before + seq!["-P"@, name@, "-p"@, name@]);
            i += 1;
        }
        v
    }

    /// Arguments for a combination: modifiers down, key, modifiers up in
    /// reverse order.
    pub fn shortcut_args(&self, combo: &str) -> (r: Result<Vec<String>, InputError>)
        ensures
            match r {
                Ok(a) => match shortcut_spec(combo@) {
                    Ok((mods, key)) => strings_view(a@) == wtype_shortcut_spec(mods, key),
                    Err(_) => false,
                },
                Err(e) => shortcut_spec(combo@) == Err::<(Seq<Seq<char>>, Seq<char>), _>(e@),
            },
    {
        let (mods, key) = match parse_shortcut(combo) {
            Ok(p) => p,
            Err(e) => return Err(e),
        };
        let ghost mv = strings_view(mods@);
        let mut v: Vec<String> = Vec::new();
        let mut i: usize = 0;
        while i < mods.len()
            invariant
                i <= mods.len(),
                mv == strings_view(mods@),
                strings_view(v@) == mods_press(mv.take(i as int)),
            decreases mods.len() - i,
        {
            let ghost before = strings_view(v@);
            push_arg(&mut v, "-M");
            push_arg(&mut v, mods[i].as_str());
            proof {
                reveal_strlit("-M");
            }
            assert(mv.take(i + 1).drop_last() =~= mv.take(i as int));
            assert(strings_view(v@) =~= before + seq!["-M"@, mv[i as int]]);
            i += 1;
        }
        assert(mv.take(mods.len() as int) =~= mv);
        push_arg(&mut v, key.as_str());
        let ghost mid = strings_view(v@);
        let mut k: usize = mods.len();
        while k > 0
            invariant
                k <= mods.len(),
                mv == strings_view(mods@),
                mid == mods_press(mv) + seq![key@],
                strings_view(v@) + mods_release(mv.take(k as int)) == mid + mods_release(mv),
            decreases k,
        {
            let ghost before = strings_view(v@);
            push_arg(&mut v, "-m");
            push_arg(&mut v, mods[k - 1].as_str());
            proof {
                reveal_strlit("-m");
            }
            assert(mv.take(k as int).drop_last() =~= mv.take(k - 1));
            assert(mv.take(k as int).last() == mv[k - 1]);
            assert(strings_view(v@) =~= before + seq!["-m"@, mv[k - 1]]);
            assert(strings_view(v@) + mods_release(mv.take(k - 1)) =~= before + mods_release(
                mv.take(k as int),
            ));
            k -= 1;
        }
        assert(mv.take(0) =~= Seq::<Seq<char>>::empty());
        assert(strings_view(v@) =~= mid + mods_release(mv));
        Ok(v)
    }

    /// wtype cannot move the mouse.
    pub fn mouse_move(&self, x: i32, y: i32) -> (r: Result<(), InputError>)
        ensures
            r == Err::<(), InputError>(InputError::MouseUnavailable),
    {
        Err(InputError::MouseUnavailable)
    }

    /// wtype cannot click.
    pub fn mouse_click(&self, button: ClickType) -> (r: Result<(), InputError>)
        ensures
            r == Err::<(), InputError>(InputError::MouseUnavailable),
    {
        Err(InputError::MouseUnavailable)
    }
}

// ───────────────────────── uinput events ─────────────────────────

/// Press and release a key, with shift held around it when asked.
pub open spec fn tap_spec(code: u16, shift: bool) -> Seq<(u16, i32)> {
    if shift {
        seq![(KEY_LEFTSHIFT, 1i32), (code, 1i32), (code, 0i32), (KEY_LEFTSHIFT, 0i32)]
    } else {
        seq![(code, 1i32), (code, 0i32)]
    }
}

/// The events that type a text: those of its longest typable prefix, and
/// the first character that cannot be typed, if any.
pub open spec fn type_spec(t: Seq<char>) -> (Seq<(u16, i32)>, Option<char>)
    decreases t.len(),
{
    if t.len() == 0 {
        (Seq::empty(), None)
    } else {
        match ascii_key_spec(t[0]) {
            None => (Seq::empty(), Some(t[0])),
            Some((k, s)) => {
                let r = type_spec(t.drop_first());
                (tap_spec(k, s) + r.0, r.1)
            },
        }
    }
}

/// The uinput code of a modifier's wtype name.
pub open spec fn modifier_code(name: Seq<char>) -> u16 {
    if name == "ctrl"@ {
        KEY_LEFTCTRL
    } else if name == "shift"@ {
        KEY_LEFTSHIFT
    } else if name == "alt"@ {
        KEY_LEFTALT
    } else {
        KEY_LEFTMETA
    }
}

pub open spec fn taps_forward(mods: Seq<Seq<char>>) -> Seq<(u16, i32)>
    decreases mods.len(),
{
    if mods.len() == 0 {
        Seq::empty()
    } else {
        taps_forward(mods.drop_last()) + tap_spec(modifier_code(mods.last()), false)
    }
}

pub open spec fn taps_backward(mods: Seq<Seq<char>>) -> Seq<(u16, i32)>
    decreases mods.len(),
{
    if mods.len() == 0 {
        Seq::empty()
    } else {
        tap_spec(modifier_code(mods.last()), false) + taps_backward(mods.drop_last())
    }
}

fn push_tap(v: &mut Vec<(u16, i32)>, code: u16, shift: bool)
    ensures
        final(v)@ == old(v)@ + tap_spec(code, shift),
{
    if shift {
        v.push((KEY_LEFTSHIFT, 1));
    }
    v.push((code, 1));
    v.push((code, 0));
    if shift {
        v.push((KEY_LEFTSHIFT, 0));
    }
    assert(v@ =~= old(v)@ + tap_spec(code, shift));
}

/// Events that type `text`, stopping before the first character outside
/// printable ASCII, which is returned beside them.
pub fn type_events(text: &str) -> (r: (Vec<(u16, i32)>, Option<char>))
    ensures
        (r.0@, r.1) == type_spec(text@),
{
    let t = chars_of(text);
    let mut v: Vec<(u16, i32)> = Vec::new();
    let mut i: usize = 0;
    assert(t@.skip(0) =~= t@);
    assert(v@ + type_spec(t@).0 =~= type_spec(t@).0);
    while i < t.len()
        invariant
            i <= t.len(),
            t@ == text@,
            type_spec(t@) == (v@ + type_spec(t@.skip(i as int)).0, type_spec(t@.skip(i as int)).1),
        decreases t.len() - i,
    {
        assert(t@.skip(i as int)[0] == t@[i as int]);
        assert(t@.skip(i as int).drop_first() =~= t@.skip(i + 1));
        match ascii_key(t[i]) {
            None => {
                assert(type_spec(t@.skip(i as int)) == (Seq::<(u16, i32)>::empty(), Some(t@[i as int])));
                assert(v@ + Seq::<(u16, i32)>::empty() =~= v@);
                assert(type_spec(t@).0 =~= v@);
                assert(type_spec(t@).1 == Some(t@[i as int]));
                let c = t[i];
                return (v, Some(c));
            },
            Some((k, s)) => {
                let ghost before = v@;
                push_tap(&mut v, k, s);
                assert(before + (tap_spec(k, s) + type_spec(t@.skip(i + 1)).0) =~= v@ + type_spec(
                    t@.skip(i + 1),
                ).0);
            },
        }
        i += 1;
    }
    assert(t@.skip(t.len() as int) =~= Seq::<char>::empty());
    assert(v@ + Seq::<(u16, i32)>::empty() =~= v@);
    (v, None)
}

/// Events that press a named key `count` times (at least once).
pub fn key_press_events(name: &str, count: u32) -> (r: Result<Vec<(u16, i32)>, InputError>)
    ensures
        match r {
            Ok(v) => match key_name_spec(name@) {
                Some((k, s)) => v@ == repeat_seq(tap_spec(k, s), at_least_one(count)),
                None => false,
            },
            Err(e) => key_name_spec(name@) is None && e@ == InputErrorModel::UnknownKey(name@),
        },
{
    let (code, shift) = match parse_key_name(name) {
        Ok(k) => k,
        Err(e) => return Err(e),
    };
    let times: u32 = if count == 0 {
        1
    } else {
        count
    };
    let mut v: Vec<(u16, i32)> = Vec::new();
    let mut i: u32 = 0;
    while i < times
        invariant
            i <= times,
            times as nat == at_least_one(count),
            v@ == repeat_seq(tap_spec(code, shift), i as nat),
        decreases times - i,
    {
        push_tap(&mut v, code, shift);
        i += 1;
    }
    Ok(v)
}

pub open spec fn shortcut_events_spec(combo: Seq<char>) -> Result<Seq<(u16, i32)>, InputErrorModel> {
    match shortcut_spec(combo) {
        Err(e) => Err(e),
        Ok((mods, key)) => match key_name_spec(key) {
            None => Err(InputErrorModel::UnknownKey(key)),
            Some((k, s)) => Ok(taps_forward(mods) + tap_spec(k, s) + taps_backward(mods)),
        },
    }
}

/// The key a modifier word (any case) presses in a shortcut: ctrl or
/// control the left Ctrl key, shift the left Shift key, alt the left Alt
/// key, super, win or meta the left Meta key; these four keys differ.
pub proof fn law_modifier_keys(m: Seq<char>)
    ensures
        ({
            let l = ascii_lower_seq(m);
            let code = modifier_code(modifier_name(m).unwrap());
            &&& (l == "ctrl"@ || l == "control"@) ==> modifier_name(m) is Some && code
                == KEY_LEFTCTRL
            &&& l == "shift"@ ==> modifier_name(m) is Some && code == KEY_LEFTSHIFT
            &&& l == "alt"@ ==> modifier_name(m) is Some && code == KEY_LEFTALT
            &&& (l == "super"@ || l == "win"@ || l == "meta"@) ==> modifier_name(m) is Some
                && code == KEY_LEFTMETA
        }),
        KEY_LEFTCTRL != KEY_LEFTSHIFT && KEY_LEFTCTRL != KEY_LEFTALT && KEY_LEFTCTRL
            != KEY_LEFTMETA && KEY_LEFTSHIFT != KEY_LEFTALT && KEY_LEFTSHIFT != KEY_LEFTMETA
            && KEY_LEFTALT != KEY_LEFTMETA,
{
    reveal_strlit("ctrl");
    reveal_strlit("control");
    reveal_strlit("shift");
    reveal_strlit("alt");
    reveal_strlit("super");
    reveal_strlit("win");
    reveal_strlit("meta");
    let l = ascii_lower_seq(m);
    assert(("ctrl"@)[0] != ("meta"@)[0]);
    assert(("alt"@)[0] != ("win"@)[0]);
    assert(("shift"@)[1] != ("super"@)[1]);
    assert(("ctrl"@).len() != ("shift"@).len() && ("ctrl"@).len() != ("alt"@).len());
    assert(("control"@).len() != ("shift"@).len() && ("control"@).len() != ("alt"@).len());
    assert(("shift"@).len() != ("alt"@).len());
}

fn modifier_key(name: &String) -> (c: u16)
    ensures
        c == modifier_code(name@),
{
    let v = crate::text::chars(name);
    if eq_lit(&v, "ctrl") {
        KEY_LEFTCTRL
    } else if eq_lit(&v, "shift") {
        KEY_LEFTSHIFT
    } else if eq_lit(&v, "alt") {
        KEY_LEFTALT
    } else {
        KEY_LEFTMETA
    }
}

/// Events for a combination: each modifier tapped in order, the key, then
/// each modifier tapped again in reverse order.
pub fn shortcut_events(combo: &str) -> (r: Result<Vec<(u16, i32)>, InputError>)
    ensures
        match r {
            Ok(v) => shortcut_events_spec(combo@) == Ok::<_, InputErrorModel>(v@),
            Err(e) => shortcut_events_spec(combo@) == Err::<Seq<(u16, i32)>, _>(e@),
        },
{
    let (mods, key) = match parse_shortcut(combo) {
        Ok(p) => p,
        Err(e) => return Err(e),
    };
    let (code, shift) = match parse_key_name(key.as_str()) {
        Ok(k) => k,
        Err(e) => return Err(e),
    };
    let ghost mv = strings_view(mods@);
    let mut v: Vec<(u16, i32)> = Vec::new();
    let mut i: usize = 0;
    while i < mods.len()
        invariant
            i <= mods.len(),
            mv == strings_view(mods@),
            v@ == taps_forward(mv.take(i as int)),
        decreases mods.len() - i,
    {
        let m = modifier_key(&mods[i]);
        push_tap(&mut v, m, false);
        assert(mv.take(i + 1).drop_last() =~= mv.take(i as int));
        i += 1;
    }
    assert(mv.take(mods.len() as int) =~= mv);
    push_tap(&mut v, code, shift);
    let ghost mid = v@;
    let mut k: usize = mods.len();
    while k > 0
        invariant
            k <= mods.len(),
            mv == strings_view(mods@),
            mid == taps_forward(mv) + tap_spec(code, shift),
            v@ + taps_backward(mv.take(k as int)) == mid + taps_backward(mv),
        decreases k,
    {
        let ghost before = v@;
        let m = modifier_key(&mods[k - 1]);
        push_tap(&mut v, m, false);
        assert(mv.take(k as int).drop_last() =~= mv.take(k - 1));
        assert(mv.take(k as int).last() == mv[k - 1]);
        assert(v@ + taps_backward(mv.take(k - 1)) =~= before + taps_backward(mv.take(k as int)));
        k -= 1;
    }
    assert(mv.take(0) =~= Seq::<Seq<char>>::empty());
    assert(v@ =~= mid + taps_backward(mv));
    Ok(v)
}

/// The uinput code of a mouse button.
pub open spec fn button_code(b: ClickType) -> u16 {
    match b {
        ClickType::Left => BTN_LEFT,
        ClickType::Right => BTN_RIGHT,
        ClickType::Middle => BTN_MIDDLE,
    }
}

/// A click presses and releases the named button's own code (left
/// `BTN_LEFT`, right `BTN_RIGHT`, middle `BTN_MIDDLE`): different buttons
/// give different events.
pub proof fn law_buttons_distinct(a: ClickType, b: ClickType)
    ensures
        (a is Left ==> button_code(a) == BTN_LEFT) && (a is Right ==> button_code(a) == BTN_RIGHT)
            && (a is Middle ==> button_code(a) == BTN_MIDDLE),
        a != b ==> button_code(a) != button_code(b),
{
}

/// Press and release a mouse button.
pub fn click_events(button: ClickType) -> (r: Vec<(u16, i32)>)
    ensures
        r@ == seq![(button_code(button), 1i32), (button_code(button), 0i32)],
{
    let code = match button {
        ClickType::Left => BTN_LEFT,
        ClickType::Right => BTN_RIGHT,
        ClickType::Middle => BTN_MIDDLE,
    };
    let mut v: Vec<(u16, i32)> = Vec::new();
    v.push((code, 1));
    v.push((code, 0));
    assert(v@ =~= seq![(code, 1i32), (code, 0i32)]);
    v
}

// ───────────────────────── laws ─────────────────────────

/// How much a sequence of events leaves the key `c` pressed: presses
/// minus releases.
pub open spec fn net_down(evs: Seq<(u16, i32)>, c: u16) -> int
    decreases evs.len(),
{
    if evs.len() == 0 {
        0
    } else {
        net_down(evs.drop_last(), c) + if evs.last().0 == c {
            if evs.last().1 == 1 {
                1int
            } else if evs.last().1 == 0 {
                -1int
            } else {
                0int
            }
        } else {
            0int
        }
    }
}

proof fn lemma_net_down_concat(a: Seq<(u16, i32)>, b: Seq<(u16, i32)>, c: u16)
    ensures
        net_down(a + b, c) == net_down(a, c) + net_down(b, c),
    decreases b.len(),
{
    if b.len() == 0 {
        assert(a + b =~= a);
    } else {
        assert((a + b).drop_last() =~= a + b.drop_last());
        lemma_net_down_concat(a, b.drop_last(), c);
    }
}

proof fn lemma_tap_balanced(k: u16, s: bool, c: u16)
    ensures
        net_down(tap_spec(k, s), c) == 0,
{
    reveal_with_fuel(net_down, 5);
    let t = tap_spec(k, s);
    if s {
        assert(t.drop_last().drop_last().drop_last().drop_last() =~= Seq::<(u16, i32)>::empty());
    } else {
        assert(t.drop_last().drop_last() =~= Seq::<(u16, i32)>::empty());
    }
}

proof fn lemma_repeat_balanced(k: u16, s: bool, n: nat, c: u16)
    ensures
        net_down(repeat_seq(tap_spec(k, s), n), c) == 0,
    decreases n,
{
    if n == 0 {
        assert(repeat_seq(tap_spec(k, s), n) =~= Seq::<(u16, i32)>::empty());
    } else {
        lemma_repeat_balanced(k, s, (n - 1) as nat, c);
        lemma_tap_balanced(k, s, c);
        lemma_net_down_concat(repeat_seq(tap_spec(k, s), (n - 1) as nat), tap_spec(k, s), c);
    }
}

proof fn lemma_type_balanced(t: Seq<char>, c: u16)
    ensures
        net_down(type_spec(t).0, c) == 0,
    decreases t.len(),
{
    if t.len() == 0 {
        assert(type_spec(t).0 =~= Seq::<(u16, i32)>::empty());
    } else {
        match ascii_key_spec(t[0]) {
            None => {
                assert(type_spec(t).0 =~= Seq::<(u16, i32)>::empty());
            },
            Some((k, s)) => {
                lemma_type_balanced(t.drop_first(), c);
                lemma_tap_balanced(k, s, c);
                lemma_net_down_concat(tap_spec(k, s), type_spec(t.drop_first()).0, c);
            },
        }
    }
}

proof fn lemma_mod_taps_balanced(mods: Seq<Seq<char>>, c: u16)
    ensures
        net_down(taps_forward(mods), c) == 0,
        net_down(taps_backward(mods), c) == 0,
    decreases mods.len(),
{
    if mods.len() == 0 {
        assert(taps_forward(mods) =~= Seq::<(u16, i32)>::empty());
        assert(taps_backward(mods) =~= Seq::<(u16, i32)>::empty());
    } else {
        let m = modifier_code(mods.last());
        lemma_mod_taps_balanced(mods.drop_last(), c);
        lemma_tap_balanced(m, false, c);
        lemma_net_down_concat(taps_forward(mods.drop_last()), tap_spec(m, false), c);
        lemma_net_down_concat(tap_spec(m, false), taps_backward(mods.drop_last()), c);
    }
}

/// No injected key is left held down: typing a text (or its typable
/// prefix), pressing a named key any number of times, and a combination
/// each release every key they press.
pub proof fn law_no_key_left_down(text: Seq<char>, name: Seq<char>, count: u32, combo: Seq<char>, c: u16)
    ensures
        net_down(type_spec(text).0, c) == 0,
        key_name_spec(name) matches Some((k, s)) ==> net_down(
            repeat_seq(tap_spec(k, s), at_least_one(count)),
            c,
        ) == 0,
        shortcut_events_spec(combo) matches Ok(evs) ==> net_down(evs, c) == 0,
{
    lemma_type_balanced(text, c);
    if let Some((k, s)) = key_name_spec(name) {
        lemma_repeat_balanced(k, s, at_least_one(count), c);
    }
    if let Ok((mods, key)) = shortcut_spec(combo) {
        if let Some((k, s)) = key_name_spec(key) {
            lemma_mod_taps_balanced(mods, c);
            lemma_tap_balanced(k, s, c);
            lemma_net_down_concat(taps_forward(mods), tap_spec(k, s), c);
            lemma_net_down_concat(taps_forward(mods) + tap_spec(k, s), taps_backward(mods), c);
        }
    }
}

} // verus!
