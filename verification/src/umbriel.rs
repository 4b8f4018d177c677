//! umbriel compositor control: window lookup in `umbriel windows --json`
//! listings and the two-step silent move (`window-focus:<id>`, then
//! `window-move-to-workspace:<ws>`), since umbriel cannot move a window by id.

use vstd::prelude::*;

use crate::compositor::{
    matches_target, not_found_text, opt_s, window_matches, CompositorError, WindowGeometry,
};
use crate::ffmpeg::{push_arg, push_arg_string};
use crate::scan::strings_view;
use crate::text::{chars_of, lit, push_str};

verus! {

/// One window of `umbriel windows --json`: the id is a hex string and the
/// geometry is flat.
#[derive(Debug, Clone)]
pub struct UmbrielWindow {
    pub id: String,
    pub app_id: Option<String>,
    pub title: Option<String>,
    /// `output:name`, e.g. `HDMI-A-1:1`.
    pub workspace: Option<String>,
    pub x: i32,
    pub y: i32,
    pub w: u32,
    pub h: u32,
}

/// The two steps of a move.
#[derive(Debug, Clone, Copy, PartialEq, Eq, Structural)]
pub enum UmbrielMoveStep {
    Focus,
    Move,
}

pub open spec fn step_label(s: UmbrielMoveStep) -> Seq<char> {
    match s {
        UmbrielMoveStep::Focus => "window-focus"@,
        UmbrielMoveStep::Move => "window-move-to-workspace"@,
    }
}

/// A program and its arguments.
#[derive(Debug, Clone)]
pub struct CommandLine {
    pub program: String,
    pub args: Vec<String>,
}

impl UmbrielMoveStep {
    /// Name of the step, as it appears in the umbriel action and in errors.
    pub fn label(&self) -> (r: String)
        ensures
            r@ == step_label(*self),
    {
        match self {
            UmbrielMoveStep::Focus => lit("window-focus"),
            UmbrielMoveStep::Move => lit("window-move-to-workspace"),
        }
    }

    /// `umbriel msg <label>:<arg>`, built only when the session variables
    /// the umbriel CLI needs are present.
    pub fn command_with(&self, display: &str, runtime_dir: &str, arg: &str) -> (r: Result<
        CommandLine,
        CompositorError,
    >)
        ensures
            match r {
                Ok(c) => display@.len() > 0 && runtime_dir@.len() > 0 && c.program@ == "umbriel"@
                    && strings_view(c.args@) == seq!["msg"@, step_label(*self) + ":"@ + arg@],
                Err(e) => (display@.len() == 0 || runtime_dir@.len() == 0) && e is Ipc,
            },
    {
        match umbriel_env_check(display, runtime_dir) {
            Err(e) => Err(e),
            Ok(()) => {
                let mut args: Vec<String> = Vec::new();
                push_arg(&mut args, "msg");
                let mut action = self.label();
                push_str(&mut action, ":");
                push_str(&mut action, arg);
                push_arg_string(&mut args, action);
                Ok(CommandLine { program: lit("umbriel"), args })
            },
        }
    }
}

pub open spec fn env_check_text() -> Seq<char> {
    "umbriel CLI 需要 WAYLAND_DISPLAY 與 XDG_RUNTIME_DIR 環境變數（REQ-4），目前缺其中之一"@
}

/// The umbriel CLI needs both `WAYLAND_DISPLAY` and `XDG_RUNTIME_DIR`; a
/// missing one is an IPC-layer error.
pub fn umbriel_env_check(display: &str, runtime_dir: &str) -> (r: Result<(), CompositorError>)
    ensures
        r is Ok <==> (display@.len() > 0 && runtime_dir@.len() > 0),
        r matches Err(e) ==> e == CompositorError::Ipc(e->Ipc_0) && e->Ipc_0@ == env_check_text(),
{
    let d = chars_of(display);
    let r = chars_of(runtime_dir);
    if d.len() == 0 || r.len() == 0 {
        return Err(
            CompositorError::Ipc(
                lit(
                    "umbriel CLI 需要 WAYLAND_DISPLAY 與 XDG_RUNTIME_DIR 環境變數（REQ-4），目前缺其中之一",
                ),
            ),
        );
    }
    Ok(())
}

pub open spec fn first_umbriel_match(ws: Seq<UmbrielWindow>, t: Seq<char>, i: int) -> int
    decreases ws.len() - i,
{
    if i < 0 || i >= ws.len() {
        ws.len() as int
    } else if window_matches(opt_s(ws[i].app_id), opt_s(ws[i].title), t) {
        i
    } else {
        first_umbriel_match(ws, t, i + 1)
    }
}

fn first_match(windows: &Vec<UmbrielWindow>, target: &str) -> (r: usize)
    ensures
        r == first_umbriel_match(windows@, target@, 0),
        r <= windows.len(),
{
    let t = chars_of(target);
    let mut i: usize = 0;
    while i < windows.len()
        invariant
            i <= windows.len(),
            t@ == target@,
            first_umbriel_match(windows@, target@, 0) == first_umbriel_match(
                windows@,
                target@,
                i as int,
            ),
        decreases windows.len() - i,
    {
        if matches_target(&windows[i].app_id, &windows[i].title, &t) {
            return i;
        }
        i += 1;
    }
    i
}

/// Id of the first window whose app id equals the target or whose title
/// contains it (geometry plays no part).
pub fn umbriel_window_id(windows: &Vec<UmbrielWindow>, target: &str) -> (r: Option<String>)
    ensures
        ({
            let i = first_umbriel_match(windows@, target@, 0);
            match r {
                Some(id) => i < windows@.len() && id@ == windows@[i].id@,
                None => i >= windows@.len(),
            }
        }),
{
    let i = first_match(windows, target);
    if i < windows.len() {
        Some(crate::text::copy_string(&windows[i].id))
    } else {
        None
    }
}

pub open spec fn umbriel_geometry_spec(w: UmbrielWindow) -> WindowGeometry {
    WindowGeometry { x: w.x, y: w.y, width: w.w, height: w.h }
}

/// The flat geometry fields as a rectangle.
pub fn umbriel_geometry(w: &UmbrielWindow) -> (g: WindowGeometry)
    ensures
        g == umbriel_geometry_spec(*w),
{
    WindowGeometry { x: w.x, y: w.y, width: w.w, height: w.h }
}

/// Geometry of the first matching window, or a "no window" error.
pub fn umbriel_find_geometry(windows: &Vec<UmbrielWindow>, target: &str) -> (r: Result<
    WindowGeometry,
    CompositorError,
>)
    ensures
        ({
            let i = first_umbriel_match(windows@, target@, 0);
            match r {
                Ok(g) => i < windows@.len() && g == umbriel_geometry_spec(windows@[i]),
                Err(e) => i >= windows@.len() && e == CompositorError::NotFound(e->NotFound_0)
                    && e->NotFound_0@ == not_found_text("Umbriel"@, target@),
            }
        }),
{
    let i = first_match(windows, target);
    if i < windows.len() {
        Ok(umbriel_geometry(&windows[i]))
    } else {
        let mut m = lit("在 ");
        push_str(&mut m, "Umbriel");
        push_str(&mut m, " 中找不到符合 '");
        push_str(&mut m, target);
        push_str(&mut m, "' 的視窗");
        Err(CompositorError::NotFound(m))
    }
}

/// Runs the two steps through `run`: focus the window `id`; only when that
/// succeeds, move it to `workspace`. A failing first step is returned as it
/// is and the second does not run; otherwise the second step's result is
/// returned.
pub fn umbriel_focus_then_move<F>(id: &str, workspace: &str, run: &F) -> (r: Result<
    (),
    CompositorError,
>) where F: Fn(UmbrielMoveStep, &str) -> Result<(), CompositorError>
    requires
        call_requires(*run, (UmbrielMoveStep::Focus, id)),
        forall|x: Result<(), CompositorError>|
            call_ensures(*run, (UmbrielMoveStep::Focus, id), x) && x is Ok ==> call_requires(
                *run,
                (UmbrielMoveStep::Move, workspace),
            ),
    ensures
        exists|first: Result<(), CompositorError>|
            #![trigger call_ensures(*run, (UmbrielMoveStep::Focus, id), first)]
            call_ensures(*run, (UmbrielMoveStep::Focus, id), first) && (first is Err ==> r
                == first) && (first is Ok ==> call_ensures(
                *run,
                (UmbrielMoveStep::Move, workspace),
                r,
            )),
{
    let first = run(UmbrielMoveStep::Focus, id);
    match first {
        Err(e) => Err(e),
        Ok(()) => run(UmbrielMoveStep::Move, workspace),
    }
}

} // verus!
