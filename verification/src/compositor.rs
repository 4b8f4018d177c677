//! Wayland compositor knowledge: window geometry, the two error layers of a
//! compositor query, window lookup in niri / sway / umbriel listings, and the
//! clipping of niri's scrolling-layout coordinates to an output.
//!
//! Running `niri msg`, `swaymsg` or `umbriel` and decoding their JSON is the
//! caller's part; the decoded listings arrive here as plain values.

use vstd::prelude::*;

use crate::ffmpeg::{push_arg, push_arg_string};
use crate::scan::strings_view;
use crate::text::{
    chars, chars_of, contains_chars, contains_seq, dec, dec_int, eq_chars, lit, push_i64,
    push_str, push_u64, slice, spec_to_lowercase, string_of, to_lowercase, trim, trim_chars,
};

verus! {

/// A window rectangle.
#[derive(Debug, Clone, Copy, PartialEq, Eq, Structural)]
pub struct WindowGeometry {
    pub x: i32,
    pub y: i32,
    pub width: u32,
    pub height: u32,
}

/// `x,y wxh` of the rectangle grown by `padding` on every side.
pub open spec fn wf_arg_spec(g: WindowGeometry, padding: u32) -> Seq<char> {
    dec_int(g.x - padding) + ","@ + dec_int(g.y - padding) + " "@ + dec(
        (g.width + 2 * padding) as nat,
    ) + "x"@ + dec((g.height + 2 * padding) as nat)
}

impl WindowGeometry {
    /// The `-g` argument of wf-recorder, e.g. `1900,20 1240x840`, for the
    /// window grown by `padding` pixels on every side.
    pub fn to_wf_recorder_arg(&self, padding: u32) -> (r: String)
        requires
            padding <= i32::MAX,
            self.x - padding >= i32::MIN,
            self.y - padding >= i32::MIN,
            self.width + 2 * padding <= u32::MAX,
            self.height + 2 * padding <= u32::MAX,
        ensures
            r@ == wf_arg_spec(*self, padding),
    {
        let p = padding as i32;
        let x = self.x - p;
        let y = self.y - p;
        let w = self.width + padding * 2;
        let h = self.height + padding * 2;
        let mut r = String::new();
        push_i64(&mut r, x as i64);
        push_str(&mut r, ",");
        push_i64(&mut r, y as i64);
        push_str(&mut r, " ");
        push_u64(&mut r, w as u64);
        push_str(&mut r, "x");
        push_u64(&mut r, h as u64);
        assert(r@ =~= wf_arg_spec(*self, padding));
        r
    }

    /// Whether the padded rectangle can be written without overflow (the
    /// condition of [`Self::to_wf_recorder_arg`]).
    pub fn padding_in_range(&self, padding: u32) -> (r: bool)
        ensures
            r == (padding <= i32::MAX && self.x - padding >= i32::MIN && self.y - padding
                >= i32::MIN && self.width + 2 * padding <= u32::MAX && self.height + 2 * padding
                <= u32::MAX),
    {
        padding <= i32::MAX as u32 && self.x as i64 - padding as i64 >= i32::MIN as i64 && self.y as i64
            - padding as i64 >= i32::MIN as i64 && self.width as u64 + 2 * padding as u64
            <= u32::MAX as u64 && self.height as u64 + 2 * padding as u64 <= u32::MAX as u64
    }
}

// ───────────────────────── error layers ─────────────────────────

/// A compositor query failed either in the IPC layer (the tool could not
/// run, failed, or printed something unreadable) or because no window
/// matched. Only the second is worth retrying.
#[derive(Debug, Clone, PartialEq, Eq)]
pub enum CompositorError {
    Ipc(String),
    NotFound(String),
}

pub open spec fn compositor_error_text(e: CompositorError) -> Seq<char> {
    match e {
        CompositorError::Ipc(m) => "compositor IPC 不可用（"@ + m@ + "）"@,
        CompositorError::NotFound(m) => "查無視窗："@ + m@,
    }
}

impl CompositorError {
    /// Whether the failure is in the IPC layer.
    pub fn is_ipc(&self) -> (r: bool)
        ensures
            r == (*self is Ipc),
    {
        match self {
            CompositorError::Ipc(_) => true,
            CompositorError::NotFound(_) => false,
        }
    }

    /// The message shown to users.
    pub fn message(&self) -> (m: String)
        ensures
            m@ == compositor_error_text(*self),
    {
        match self {
            CompositorError::Ipc(d) => {
                let mut m = lit("compositor IPC 不可用（");
                push_str(&mut m, d.as_str());
                push_str(&mut m, "）");
                m
            },
            CompositorError::NotFound(d) => {
                let mut m = lit("查無視窗：");
                push_str(&mut m, d.as_str());
                m
            },
        }
    }
}

pub open spec fn has_ipc_cause(causes: Seq<Option<CompositorError>>) -> bool {
    exists|i: int| 0 <= i < causes.len() && (#[trigger] causes[i] matches Some(e) && e is Ipc)
}

/// Whether any cause in an error chain is an IPC-layer compositor error.
pub fn is_ipc_error(causes: &Vec<Option<CompositorError>>) -> (r: bool)
    ensures
        r == has_ipc_cause(causes@),
{
    let mut i: usize = 0;
    while i < causes.len()
        invariant
            i <= causes.len(),
            forall|k: int| 0 <= k < i ==> !(#[trigger] causes@[k] matches Some(e) && e is Ipc),
        decreases causes.len() - i,
    {
        if let Some(e) = &causes[i] {
            if e.is_ipc() {
                return true;
            }
        }
        i += 1;
    }
    false
}

/// What `WaitWindow` polling does after a failed lookup.
#[derive(Debug, Clone, Copy, PartialEq, Eq, Structural)]
pub enum WaitDecision {
    /// IPC failure: give up at once, keeping the cause.
    Fail,
    /// No window and the deadline has passed.
    TimedOut,
    /// No window yet: try again after a pause.
    Retry,
}

pub fn wait_decision(ipc_failure: bool, deadline_passed: bool) -> (d: WaitDecision)
    ensures
        d == if ipc_failure {
            WaitDecision::Fail
        } else if deadline_passed {
            WaitDecision::TimedOut
        } else {
            WaitDecision::Retry
        },
{
    if ipc_failure {
        WaitDecision::Fail
    } else if deadline_passed {
        WaitDecision::TimedOut
    } else {
        WaitDecision::Retry
    }
}

pub open spec fn wait_timeout_text(target: Seq<char>, last: Seq<char>) -> Seq<char> {
    "WaitWindow 逾時：視窗「"@ + target + "」未出現（最後一次查詢："@ + last
        + "）\n提示：可用 `tapedeck run --dry-run` 檢查，或先手動開啟目標視窗"@
}

/// Message when `WaitWindow` times out, carrying the last "no window" cause.
pub fn wait_timeout_message(target: &str, last_missing: &str) -> (m: String)
    ensures
        m@ == wait_timeout_text(target@, last_missing@),
{
    let mut m = lit("WaitWindow 逾時：視窗「");
    push_str(&mut m, target);
    push_str(&mut m, "」未出現（最後一次查詢：");
    push_str(&mut m, last_missing);
    push_str(&mut m, "）\n提示：可用 `tapedeck run --dry-run` 檢查，或先手動開啟目標視窗");
    m
}

// ───────────────────────── tool output ─────────────────────────

/// Text of raw bytes with invalid UTF-8 replaced, as
/// `String::from_utf8_lossy` decodes it.
pub uninterp spec fn spec_utf8_lossy(b: Seq<u8>) -> Seq<char>;

/// Calls `String::from_utf8_lossy`; the contract claims only that the result
/// is the function of the bytes named `spec_utf8_lossy`.
#[verifier::external_body]
pub(crate) fn utf8_lossy(b: &[u8]) -> (r: String)
    ensures
        r@ == spec_utf8_lossy(b@),
{
    String::from_utf8_lossy(b).into_owned()
}

/// The last part of a failing tool's stderr text: empty output is named as
/// such, output longer than 200 characters keeps its last 200 behind a
/// marker.
pub open spec fn tail_of_text(t: Seq<char>) -> Seq<char> {
    let s = trim(t);
    if s.len() == 0 {
        "(stderr 空)"@
    } else if s.len() <= 200 {
        s
    } else {
        "(截尾) "@ + s.skip(s.len() - 200)
    }
}

pub open spec fn stderr_tail_spec(b: Seq<u8>) -> Seq<char> {
    tail_of_text(spec_utf8_lossy(b))
}

pub fn stderr_tail_of_text(text: &str) -> (r: String)
    ensures
        r@ == tail_of_text(text@),
{
    let v = chars_of(text);
    let s = trim_chars(&v);
    if s.len() == 0 {
        lit("(stderr 空)")
    } else if s.len() <= 200 {
        string_of(&s)
    } else {
        let tail = slice(&s, s.len() - 200, s.len());
        assert(tail@ =~= s@.skip(s@.len() - 200));
        let mut r = lit("(截尾) ");
        crate::text::push_chars(&mut r, &tail);
        r
    }
}

/// The tail of a failing tool's stderr bytes, decoded as UTF-8 with
/// invalid sequences replaced.
pub fn stderr_tail(bytes: &[u8]) -> (r: String)
    ensures
        r@ == stderr_tail_spec(bytes@),
{
    let text = utf8_lossy(bytes);
    stderr_tail_of_text(text.as_str())
}

/// IPC error for a tool that could not be started.
pub fn ipc_spawn_error(tool: &str, cause: &str) -> (e: CompositorError)
    ensures
        e == CompositorError::Ipc(e->Ipc_0),
        e->Ipc_0@ == tool@ + " 執行失敗："@ + cause@,
{
    let mut m = lit(tool);
    push_str(&mut m, " 執行失敗：");
    push_str(&mut m, cause);
    CompositorError::Ipc(m)
}

/// IPC error for a tool that exited unsuccessfully.
pub fn ipc_exit_error(tool: &str, status: &str, stderr: &[u8]) -> (e: CompositorError)
    ensures
        e == CompositorError::Ipc(e->Ipc_0),
        e->Ipc_0@ == tool@ + " 結束碼 "@ + status@ + "，stderr："@ + stderr_tail_spec(stderr@),
{
    let mut m = lit(tool);
    push_str(&mut m, " 結束碼 ");
    push_str(&mut m, status);
    push_str(&mut m, "，stderr：");
    let t = stderr_tail(stderr);
    push_str(&mut m, t.as_str());
    CompositorError::Ipc(m)
}

/// IPC error for output that is not the expected JSON.
pub fn ipc_json_error(tool: &str, cause: &str) -> (e: CompositorError)
    ensures
        e == CompositorError::Ipc(e->Ipc_0),
        e->Ipc_0@ == tool@ + " 輸出 JSON 解析失敗："@ + cause@,
{
    let mut m = lit(tool);
    push_str(&mut m, " 輸出 JSON 解析失敗：");
    push_str(&mut m, cause);
    CompositorError::Ipc(m)
}

// ───────────────────────── matching ─────────────────────────

pub open spec fn opt_s(o: Option<String>) -> Option<Seq<char>> {
    match o {
        Some(s) => Some(s@),
        None => None,
    }
}

/// A window is the target when its app id equals the target or its title
/// contains it.
pub open spec fn window_matches(app_id: Option<Seq<char>>, title: Option<Seq<char>>, target: Seq<
    char,
>) -> bool {
    app_id == Some(target) || (title matches Some(t) && contains_seq(t, target))
}

pub fn matches_target(app_id: &Option<String>, title: &Option<String>, target: &Vec<char>) -> (r:
    bool)
    ensures
        r == window_matches(opt_s(*app_id), opt_s(*title), target@),
{
    let by_app = match app_id {
        Some(a) => {
            let av = chars(a);
            eq_chars(&av, target)
        },
        None => false,
    };
    if by_app {
        return true;
    }
    match title {
        Some(t) => {
            let tv = chars(t);
            contains_chars(&tv, target)
        },
        None => false,
    }
}

pub open spec fn not_found_text(compositor: Seq<char>, target: Seq<char>) -> Seq<char> {
    "在 "@ + compositor + " 中找不到符合 '"@ + target + "' 的視窗"@
}

fn not_found(compositor: &str, target: &Vec<char>) -> (e: CompositorError)
    ensures
        e == CompositorError::NotFound(e->NotFound_0),
        e->NotFound_0@ == not_found_text(compositor@, target@),
{
    let mut m = lit("在 ");
    push_str(&mut m, compositor);
    push_str(&mut m, " 中找不到符合 '");
    crate::text::push_chars(&mut m, target);
    push_str(&mut m, "' 的視窗");
    CompositorError::NotFound(m)
}

// ───────────────────────── niri ─────────────────────────

/// niri back end.
#[derive(Debug, Clone, Copy)]
pub struct NiriCompositor;

/// sway back end.
#[derive(Debug, Clone, Copy)]
pub struct SwayCompositor;

/// umbriel back end.
#[derive(Debug, Clone, Copy)]
pub struct UmbrielCompositor;

/// Where a niri window sits: newer niri reports the position in the
/// scrolling layout and the window size, older niri a logical geometry.
#[derive(Debug, Clone)]
pub struct NiriLayout {
    pub pos_in_scrolling_layout: Option<(i32, i32)>,
    pub window_size: Option<(u32, u32)>,
    pub logical_geometry: Option<WindowGeometry>,
}

/// One window of `niri msg --json windows`.
#[derive(Debug, Clone)]
pub struct NiriWindow {
    pub id: u64,
    pub title: Option<String>,
    pub app_id: Option<String>,
    pub layout: NiriLayout,
}

/// A niri output's logical rectangle in scrolling-layout coordinates.
#[derive(Debug, Clone, Copy, PartialEq, Eq, Structural)]
pub struct NiriOutputLogical {
    pub x: i32,
    pub y: i32,
    pub width: u32,
    pub height: u32,
}

pub open spec fn layout_geometry(l: NiriLayout) -> Option<WindowGeometry> {
    match (l.pos_in_scrolling_layout, l.window_size) {
        (Some(p), Some(s)) => Some(WindowGeometry { x: p.0, y: p.1, width: s.0, height: s.1 }),
        _ => l.logical_geometry,
    }
}

impl NiriLayout {
    /// Newer fields first, the older logical geometry as fallback.
    pub fn to_geometry(&self) -> (g: Option<WindowGeometry>)
        ensures
            g == layout_geometry(*self),
    {
        match (self.pos_in_scrolling_layout, self.window_size) {
            (Some(p), Some(s)) => Some(WindowGeometry { x: p.0, y: p.1, width: s.0, height: s.1 }),
            _ => self.logical_geometry,
        }
    }
}

pub open spec fn first_niri_match(ws: Seq<NiriWindow>, t: Seq<char>, i: int) -> int
    decreases ws.len() - i,
{
    if i < 0 || i >= ws.len() {
        ws.len() as int
    } else if window_matches(opt_s(ws[i].app_id), opt_s(ws[i].title), t) {
        i
    } else {
        first_niri_match(ws, t, i + 1)
    }
}

pub open spec fn niri_lookup(ws: Seq<NiriWindow>, t: Seq<char>) -> Option<Option<WindowGeometry>> {
    let i = first_niri_match(ws, t, 0);
    if i < ws.len() {
        Some(layout_geometry(ws[i].layout))
    } else {
        None
    }
}

/// A niri window's rectangle is its position in the scrolling layout
/// (x, y) with its window size (width, height) when niri reports both, and
/// its logical geometry otherwise.
pub proof fn law_niri_geometry(l: NiriLayout)
    ensures
        l.pos_in_scrolling_layout is Some && l.window_size is Some ==> layout_geometry(l) == Some(
            WindowGeometry {
                x: l.pos_in_scrolling_layout.unwrap().0,
                y: l.pos_in_scrolling_layout.unwrap().1,
                width: l.window_size.unwrap().0,
                height: l.window_size.unwrap().1,
            },
        ),
        !(l.pos_in_scrolling_layout is Some && l.window_size is Some) ==> layout_geometry(l)
            == l.logical_geometry,
{
}

/// The window is named by the target: its app id equals it, or its title
/// contains it.
pub open spec fn named_by(w: NiriWindow, t: Seq<char>) -> bool {
    opt_s(w.app_id) == Some(t) || (w.title is Some && contains_seq(w.title.unwrap()@, t))
}

proof fn lemma_first_niri_match(ws: Seq<NiriWindow>, t: Seq<char>, j: int, i: int)
    requires
        0 <= j <= i <= ws.len(),
        i < ws.len() ==> named_by(ws[i], t),
        forall|k: int| j <= k < i ==> !named_by(#[trigger] ws[k], t),
    ensures
        first_niri_match(ws, t, j) == i,
    decreases i - j,
{
    if j < i {
        lemma_first_niri_match(ws, t, j + 1, i);
    }
}

/// A niri window whose app id equals the target, or whose title contains
/// it, is found: the lookup takes the first listed such window (with its
/// geometry, when it has one); with no such window nothing is found.
pub proof fn law_niri_finds_named_window(ws: Seq<NiriWindow>, t: Seq<char>, i: int)
    ensures
        0 <= i < ws.len() && named_by(ws[i], t) && (forall|k: int|
            0 <= k < i ==> !named_by(#[trigger] ws[k], t)) ==> niri_lookup(ws, t) == Some(
            layout_geometry(ws[i].layout),
        ),
        (forall|k: int| 0 <= k < ws.len() ==> !named_by(#[trigger] ws[k], t)) ==> niri_lookup(
            ws,
            t,
        ) is None,
{
    if 0 <= i < ws.len() && named_by(ws[i], t) && (forall|k: int|
        0 <= k < i ==> !named_by(#[trigger] ws[k], t)) {
        lemma_first_niri_match(ws, t, 0, i);
    }
    if forall|k: int| 0 <= k < ws.len() ==> !named_by(#[trigger] ws[k], t) {
        lemma_first_niri_match(ws, t, 0, ws.len() as int);
    }
}

impl NiriCompositor {
    /// Geometry of the first listed window that matches `target`; no match,
    /// or a match without usable geometry, is a "no window" error.
    pub fn find_in(windows: &Vec<NiriWindow>, target: &str) -> (r: Result<
        WindowGeometry,
        CompositorError,
    >)
        ensures
            match r {
                Ok(g) => niri_lookup(windows@, target@) == Some(Some(g)),
                Err(e) => e is NotFound && (niri_lookup(windows@, target@) is None
                    || niri_lookup(windows@, target@) == Some(None::<WindowGeometry>)),
            },
    {
        let t = chars_of(target);
        let mut i: usize = 0;
        while i < windows.len()
            invariant
                i <= windows.len(),
                t@ == target@,
                first_niri_match(windows@, target@, 0) == first_niri_match(windows@, target@, i as int),
            decreases windows.len() - i,
        {
            let w = &windows[i];
            if matches_target(&w.app_id, &w.title, &t) {
                return match w.layout.to_geometry() {
                    Some(g) => Ok(g),
                    None => {
                        let mut m = lit("Niri 視窗 '");
                        push_str(&mut m, target);
                        push_str(&mut m, "' 缺少可用的 geometry 欄位（上游結構改版？）");
                        Err(CompositorError::NotFound(m))
                    },
                };
            }
            i += 1;
        }
        Err(not_found("Niri", &t))
    }
}

/// Clip of a window against an output, in output-relative coordinates.
pub open spec fn clip_spec(win: WindowGeometry, out: NiriOutputLogical) -> Option<WindowGeometry> {
    let x = if win.x >= out.x { win.x as int } else { out.x as int };
    let y = if win.y >= out.y { win.y as int } else { out.y as int };
    let wr = win.x + win.width;
    let orr = out.x + out.width;
    let right = if wr <= orr { wr } else { orr };
    let wb = win.y + win.height;
    let ob = out.y + out.height;
    let bottom = if wb <= ob { wb } else { ob };
    if right <= x || bottom <= y {
        None
    } else {
        Some(
            WindowGeometry {
                x: (x - out.x) as i32,
                y: (y - out.y) as i32,
                width: (right - x) as u32,
                height: (bottom - y) as u32,
            },
        )
    }
}

/// No overlap between a window and an output.
#[derive(Debug, Clone, PartialEq, Eq)]
pub struct NoOverlap {
    pub message: String,
}

pub open spec fn rect_fits(x: i32, w: u32) -> bool {
    w <= i32::MAX && x + w <= i32::MAX
}

/// Whether a rectangle's far edge stays within `i32`.
pub fn rect_in_range(x: i32, w: u32) -> (r: bool)
    ensures
        r == rect_fits(x, w),
{
    w <= i32::MAX as u32 && x as i64 + w as i64 <= i32::MAX as i64
}

impl NiriCompositor {
    /// Intersection of the window with the output, moved to output-relative
    /// coordinates; an error when they do not overlap.
    pub fn clip_to_output(win: &WindowGeometry, out: &NiriOutputLogical) -> (r: Result<
        WindowGeometry,
        NoOverlap,
    >)
        requires
            rect_fits(win.x, win.width),
            rect_fits(win.y, win.height),
            rect_fits(out.x, out.width),
            rect_fits(out.y, out.height),
        ensures
            match r {
                Ok(g) => clip_spec(*win, *out) == Some(g),
                Err(_) => clip_spec(*win, *out) is None,
            },
    {
        let (ox, oy) = (out.x, out.y);
        let (ow, oh) = (out.width as i32, out.height as i32);
        let x = if win.x >= ox { win.x } else { ox };
        let y = if win.y >= oy { win.y } else { oy };
        let wr = win.x + win.width as i32;
        let orr = ox + ow;
        let right = if wr <= orr { wr } else { orr };
        let wb = win.y + win.height as i32;
        let ob = oy + oh;
        let bottom = if wb <= ob { wb } else { ob };
        if right <= x || bottom <= y {
            let mut m = lit("視窗與輸出 (");
            push_i64(&mut m, out.x as i64);
            push_str(&mut m, ",");
            push_i64(&mut m, out.y as i64);
            push_str(&mut m, " ");
            push_u64(&mut m, out.width as u64);
            push_str(&mut m, "x");
            push_u64(&mut m, out.height as u64);
            push_str(&mut m, ") 無交集");
            return Err(NoOverlap { message: m });
        }
        Ok(
            WindowGeometry {
                x: x - ox,
                y: y - oy,
                width: (right - x) as u32,
                height: (bottom - y) as u32,
            },
        )
    }

    /// The first output whose logical rectangle holds the point.
    pub fn output_containing(outputs: &Vec<NiriOutputLogical>, cx: i32, cy: i32) -> (r: Option<
        NiriOutputLogical,
    >)
        ensures
            match r {
                Some(o) => exists|i: int|
                    0 <= i < outputs@.len() && outputs@[i] == o && holds_point(o, cx, cy) && (
                    forall|k: int| 0 <= k < i ==> !holds_point(#[trigger] outputs@[k], cx, cy)),
                None => forall|k: int|
                    0 <= k < outputs@.len() ==> !holds_point(#[trigger] outputs@[k], cx, cy),
            },
    {
        let mut i: usize = 0;
        while i < outputs.len()
            invariant
                i <= outputs.len(),
                forall|k: int| 0 <= k < i ==> !holds_point(#[trigger] outputs@[k], cx, cy),
            decreases outputs.len() - i,
        {
            let o = outputs[i];
            let ox = o.x as i64;
            let oy = o.y as i64;
            if cx as i64 >= ox && (cx as i64) < ox + o.width as i64 && cy as i64 >= oy && (cy as i64)
                < oy + o.height as i64 {
                return Some(o);
            }
            i += 1;
        }
        None
    }
}

pub open spec fn holds_point(o: NiriOutputLogical, cx: i32, cy: i32) -> bool {
    o.x <= cx < o.x + o.width && o.y <= cy < o.y + o.height
}

/// Centre of a window (`x + width / 2`, `y + height / 2`).
pub fn window_center(win: &WindowGeometry) -> (r: (i32, i32))
    requires
        rect_fits(win.x, win.width),
        rect_fits(win.y, win.height),
    ensures
        r.0 == win.x + (win.width as i32) / 2,
        r.1 == win.y + (win.height as i32) / 2,
{
    (win.x + win.width as i32 / 2, win.y + win.height as i32 / 2)
}

/// Message when a window centre lies on no output.
pub fn no_output_message(cx: i32, cy: i32) -> (m: String)
    ensures
        m@ == "視窗中心 ("@ + dec_int(cx as int) + ","@ + dec_int(cy as int)
            + ") 不在任何 niri 輸出的 logical 範圍內"@,
{
    let mut m = lit("視窗中心 (");
    push_i64(&mut m, cx as i64);
    push_str(&mut m, ",");
    push_i64(&mut m, cy as i64);
    push_str(&mut m, ") 不在任何 niri 輸出的 logical 範圍內");
    m
}

/// Law: a clipped rectangle lies inside the output and inside the window.
pub proof fn law_clip_inside(win: WindowGeometry, out: NiriOutputLogical)
    requires
        rect_fits(out.x, out.width),
        rect_fits(out.y, out.height),
        clip_spec(win, out) is Some,
    ensures
        ({
            let g = clip_spec(win, out).unwrap();
            &&& 0 <= g.x && g.x + g.width <= out.width
            &&& 0 <= g.y && g.y + g.height <= out.height
            &&& win.x <= out.x + g.x && out.x + g.x + g.width <= win.x + win.width
            &&& win.y <= out.y + g.y && out.y + g.y + g.height <= win.y + win.height
            &&& g.width > 0 && g.height > 0
        }),
{
}

/// niri command lines of a silent move: focus the window, then move it.
pub fn niri_focus_args(target: &str) -> (r: Vec<String>)
    ensures
        strings_view(r@) == seq!["msg"@, "action"@, "focus-window"@, "--app-id"@, target@],
{
    let mut v: Vec<String> = Vec::new();
    push_arg(&mut v, "msg");
    push_arg(&mut v, "action");
    push_arg(&mut v, "focus-window");
    push_arg(&mut v, "--app-id");
    push_arg(&mut v, target);
    v
}

pub fn niri_move_args(workspace: &str) -> (r: Vec<String>)
    ensures
        strings_view(r@) == seq!["msg"@, "action"@, "move-window-to-workspace"@, workspace@],
{
    let mut v: Vec<String> = Vec::new();
    push_arg(&mut v, "msg");
    push_arg(&mut v, "action");
    push_arg(&mut v, "move-window-to-workspace");
    push_arg(&mut v, workspace);
    v
}

// ───────────────────────── sway ─────────────────────────

/// A node of `swaymsg -t get_tree`.
#[derive(Debug)]
pub struct SwayNode {
    pub name: Option<String>,
    pub app_id: Option<String>,
    pub rect: WindowGeometry,
    pub nodes: Vec<SwayNode>,
    pub floating_nodes: Vec<SwayNode>,
}

pub open spec fn node_hit(n: SwayNode, t: Seq<char>) -> bool {
    window_matches(opt_s(n.app_id), opt_s(n.name), t) && n.rect.width > 0 && n.rect.height > 0
}

/// Depth-first, the node before its tiled children before its floating
/// children: the rectangle of the first matching node with a non-empty
/// rectangle.
pub open spec fn sway_search(n: SwayNode, t: Seq<char>) -> Option<WindowGeometry>
    decreases n, 2int, 0int,
{
    if node_hit(n, t) {
        Some(n.rect)
    } else {
        match sway_search_list(n.nodes@, 0, t) {
            Some(g) => Some(g),
            None => sway_search_list(n.floating_nodes@, 0, t),
        }
    }
}

pub open spec fn sway_search_list(ns: Seq<SwayNode>, i: int, t: Seq<char>) -> Option<WindowGeometry>
    decreases ns, 1int, ns.len() - i,
{
    if i < 0 || i >= ns.len() {
        None
    } else {
        match sway_search(ns[i], t) {
            Some(g) => Some(g),
            None => sway_search_list(ns, i + 1, t),
        }
    }
}

proof fn lemma_sway_found_nonempty(n: SwayNode, t: Seq<char>)
    ensures
        sway_search(n, t) matches Some(g) ==> g.width > 0 && g.height > 0,
    decreases n, 2int, 0int,
{
    lemma_sway_list_found_nonempty(n.nodes@, 0, t);
    lemma_sway_list_found_nonempty(n.floating_nodes@, 0, t);
}

proof fn lemma_sway_list_found_nonempty(ns: Seq<SwayNode>, i: int, t: Seq<char>)
    ensures
        sway_search_list(ns, i, t) matches Some(g) ==> g.width > 0 && g.height > 0,
    decreases ns, 1int, ns.len() - i,
{
    if 0 <= i < ns.len() {
        assert(decreases_to!(ns => ns[i]));
        lemma_sway_found_nonempty(ns[i], t);
        lemma_sway_list_found_nonempty(ns, i + 1, t);
    }
}

/// In the sway tree, a node whose app id equals the target or whose name
/// contains it, with a non-empty rectangle, is found when it is the node
/// searched from (before its children); whatever is found has a non-empty
/// rectangle.
pub proof fn law_sway_finds_named_window(n: SwayNode, t: Seq<char>)
    ensures
        (opt_s(n.app_id) == Some(t) || (n.name is Some && contains_seq(n.name.unwrap()@, t)))
            && n.rect.width > 0 && n.rect.height > 0 ==> sway_search(n, t) == Some(n.rect),
        sway_search(n, t) matches Some(g) ==> g.width > 0 && g.height > 0,
{
    lemma_sway_found_nonempty(n, t);
}

impl SwayCompositor {
    /// First matching node of the tree with a non-empty rectangle.
    pub fn search_tree(node: &SwayNode, target: &Vec<char>) -> (r: Option<WindowGeometry>)
        ensures
            r == sway_search(*node, target@),
        decreases node, 2int, 0int,
    {
        if matches_target(&node.app_id, &node.name, target) && node.rect.width > 0
            && node.rect.height > 0 {
            return Some(node.rect);
        }
        match Self::search_list(&node.nodes, target) {
            Some(g) => Some(g),
            None => Self::search_list(&node.floating_nodes, target),
        }
    }

    fn search_list(ns: &Vec<SwayNode>, target: &Vec<char>) -> (r: Option<WindowGeometry>)
        ensures
            r == sway_search_list(ns@, 0, target@),
        decreases ns@, 1int, 0int,
    {
        let mut i: usize = 0;
        while i < ns.len()
            invariant
                i <= ns.len(),
                sway_search_list(ns@, 0, target@) == sway_search_list(ns@, i as int, target@),
            decreases ns.len() - i,
        {
            proof {
                assert(decreases_to!(ns@ => ns@[i as int]));
            }
            match Self::search_tree(&ns[i], target) {
                Some(g) => {
                    return Some(g);
                },
                None => {},
            }
            i += 1;
        }
        None
    }

    /// Geometry of the first matching window of the tree.
    pub fn find_in(root: &SwayNode, target: &str) -> (r: Result<WindowGeometry, CompositorError>)
        ensures
            match r {
                Ok(g) => sway_search(*root, target@) == Some(g),
                Err(e) => e is NotFound && sway_search(*root, target@) is None,
            },
    {
        let t = chars_of(target);
        match Self::search_tree(root, &t) {
            Some(g) => Ok(g),
            None => {
                let mut m = lit("在 Sway 視窗樹中找不到符合 '");
                push_str(&mut m, target);
                push_str(&mut m, "' 的視窗");
                Err(CompositorError::NotFound(m))
            },
        }
    }
}

/// sway command of a silent move: `[app_id="<t>"] move container to workspace <w>`.
pub fn sway_move_command(target: &str, workspace: &str) -> (r: String)
    ensures
        r@ == "[app_id=\""@ + target@ + "\"] move container to workspace "@ + workspace@,
{
    let mut r = lit("[app_id=\"");
    push_str(&mut r, target);
    push_str(&mut r, "\"] move container to workspace ");
    push_str(&mut r, workspace);
    r
}

// ───────────────────────── which compositor ─────────────────────────

/// The compositor a session runs.
#[derive(Debug, Clone, Copy, PartialEq, Eq, Structural)]
pub enum CompositorKind {
    Niri,
    Sway,
}

/// niri when either lower-cased text mentions niri, sway when one mentions
/// sway, niri otherwise.
pub open spec fn detect_lower_spec(d: Seq<char>, w: Seq<char>) -> CompositorKind {
    if contains_seq(d, "niri"@) || contains_seq(w, "niri"@) {
        CompositorKind::Niri
    } else if contains_seq(d, "sway"@) || contains_seq(w, "sway"@) {
        CompositorKind::Sway
    } else {
        CompositorKind::Niri
    }
}

/// The same decision on `XDG_CURRENT_DESKTOP` and `WAYLAND_DISPLAY`, each
/// lower-cased first.
pub open spec fn detect_spec(desktop: Seq<char>, display: Seq<char>) -> CompositorKind {
    detect_lower_spec(spec_to_lowercase(desktop), spec_to_lowercase(display))
}

/// The compositor named by already lower-cased session variables.
pub fn detect_from_lowercase(desktop: &str, display: &str) -> (k: CompositorKind)
    ensures
        k == detect_lower_spec(desktop@, display@),
{
    let dv = chars_of(desktop);
    let wv = chars_of(display);
    if crate::text::contains_lit(&dv, "niri") || crate::text::contains_lit(&wv, "niri") {
        CompositorKind::Niri
    } else if crate::text::contains_lit(&dv, "sway") || crate::text::contains_lit(&wv, "sway") {
        CompositorKind::Sway
    } else {
        CompositorKind::Niri
    }
}

pub fn detect_compositor(xdg_current_desktop: &str, wayland_display: &str) -> (k: CompositorKind)
    ensures
        k == detect_spec(xdg_current_desktop@, wayland_display@),
{
    let d = to_lowercase(xdg_current_desktop);
    let w = to_lowercase(wayland_display);
    detect_from_lowercase(d.as_str(), w.as_str())
}

} // verus!
