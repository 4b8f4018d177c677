//! `tapedeck doctor`: the table of external tools, and the report built from
//! what the checks found.

use vstd::prelude::*;

use crate::input::InputBackend;
use crate::text::{dec, lit, push_str, push_u64};

verus! {

/// An external tool: its name, the flag that makes it print its version,
/// and why tapedeck needs it.
pub struct Dep {
    pub name: String,
    pub version_flag: String,
    pub hint: String,
}

pub struct DepModel {
    pub name: Seq<char>,
    pub version_flag: Seq<char>,
    pub hint: Seq<char>,
}

impl View for Dep {
    type V = DepModel;

    open spec fn view(&self) -> DepModel {
        DepModel { name: self.name@, version_flag: self.version_flag@, hint: self.hint@ }
    }
}

pub open spec fn deps_spec() -> Seq<DepModel> {
    seq![
        DepModel {
            name: "vhs"@,
            version_flag: "--version"@,
            hint: "TUI 錄製與編排所需（.roll → .tape 轉譯後驅動）"@,
        },
        DepModel {
            name: "ffmpeg"@,
            version_flag: "-version"@,
            hint: "影片編碼與處理所需（編碼器掃描、媒體優化）"@,
        },
        DepModel { name: "wf-recorder"@, version_flag: "-v"@, hint: "Wayland 螢幕錄製所需（GUI 軌錄製）"@ },
    ]
}

pub open spec fn deps_view(v: Seq<Dep>) -> Seq<DepModel> {
    v.map_values(|d: Dep| d@)
}

fn dep(name: &str, flag: &str, hint: &str) -> (d: Dep)
    ensures
        d@ == (DepModel { name: name@, version_flag: flag@, hint: hint@ }),
{
    Dep { name: lit(name), version_flag: lit(flag), hint: lit(hint) }
}

/// The tools checked, in report order.
pub fn deps() -> (r: Vec<Dep>)
    ensures
        deps_view(r@) == deps_spec(),
{
    let mut v: Vec<Dep> = Vec::new();
    v.push(dep("vhs", "--version", "TUI 錄製與編排所需（.roll → .tape 轉譯後驅動）"));
    v.push(dep("ffmpeg", "-version", "影片編碼與處理所需（編碼器掃描、媒體優化）"));
    v.push(dep("wf-recorder", "-v", "Wayland 螢幕錄製所需（GUI 軌錄製）"));
    assert(deps_view(v@) =~= deps_spec());
    v
}

/// The mark in front of a check's line.
pub open spec fn mark(ok: bool) -> Seq<char> {
    if ok {
        "✅"@
    } else {
        "❌"@
    }
}

pub fn ok_or_missing(ok: bool) -> (r: String)
    ensures
        r@ == mark(ok),
{
    if ok {
        lit("✅")
    } else {
        lit("❌")
    }
}

pub open spec fn dep_text(d: DepModel, ok: bool) -> Seq<char> {
    if ok {
        "✅ [OK] "@ + d.name + " found.\n"@
    } else {
        "❌ [MISSING] "@ + d.name + " not found.\n"@ + "   └─ Hint: "@ + d.hint + "\n"@
    }
}

pub open spec fn deps_text(ds: Seq<DepModel>, oks: Seq<bool>) -> Seq<char>
    decreases ds.len(),
{
    if ds.len() == 0 {
        Seq::empty()
    } else {
        deps_text(ds.drop_last(), oks) + dep_text(ds.last(), oks[ds.len() - 1])
    }
}

pub open spec fn uinput_hint() -> Seq<char> {
    "💡 To unlock full mouse/keyboard automation, fix permission:\n"@
        + "   Option A: sudo usermod -aG input $USER (and relogin)\n"@
        + "   Option B: Add udev rule /etc/udev/rules.d/99-input.rules\n"@
        + "             (KERNEL==\"uinput\", MODE=\"0660\", GROUP=\"input\")\n"@
}

/// The input back end section: device, kernel module, write permission,
/// the back end chosen, and how to get permission when it is missing.
pub open spec fn input_text(dev_ok: bool, module_ok: bool, perm_ok: bool) -> Seq<char> {
    "\n🎮 Input Provider Diagnostic:\n"@ + mark(dev_ok) + " Device: /dev/uinput "@ + (if dev_ok {
        "exists"@
    } else {
        "missing"@
    }) + "\n"@ + mark(module_ok) + " Kernel Module: uinput "@ + (if module_ok {
        "loaded"@
    } else {
        "not loaded"@
    }) + "\n"@ + mark(perm_ok) + " Permission: Current user "@ + (if perm_ok {
        "has"@
    } else {
        "has no"@
    }) + " write access to /dev/uinput\n"@ + "👉 Active Input Backend: "@
        + InputBackend::detect_spec(perm_ok).describe_spec() + "\n"@ + (if perm_ok {
        Seq::empty()
    } else {
        uinput_hint()
    })
}

/// The input section and whether uinput can be used.
pub fn input_provider_report(dev_ok: bool, module_ok: bool, perm_ok: bool) -> (r: (String, bool))
    ensures
        r.0@ == input_text(dev_ok, module_ok, perm_ok),
        r.1 == perm_ok,
{
    let mut out = lit("\n🎮 Input Provider Diagnostic:\n");
    push_str(&mut out, ok_or_missing(dev_ok).as_str());
    push_str(&mut out, " Device: /dev/uinput ");
    push_str(&mut out, if dev_ok { "exists" } else { "missing" });
    push_str(&mut out, "\n");
    push_str(&mut out, ok_or_missing(module_ok).as_str());
    push_str(&mut out, " Kernel Module: uinput ");
    push_str(&mut out, if module_ok { "loaded" } else { "not loaded" });
    push_str(&mut out, "\n");
    push_str(&mut out, ok_or_missing(perm_ok).as_str());
    push_str(&mut out, " Permission: Current user ");
    push_str(&mut out, if perm_ok { "has" } else { "has no" });
    push_str(&mut out, " write access to /dev/uinput\n");
    push_str(&mut out, "👉 Active Input Backend: ");
    let backend = InputBackend::detect(perm_ok);
    push_str(&mut out, backend.describe().as_str());
    push_str(&mut out, "\n");
    if !perm_ok {
        push_str(&mut out, "💡 To unlock full mouse/keyboard automation, fix permission:\n");
        push_str(&mut out, "   Option A: sudo usermod -aG input $USER (and relogin)\n");
        push_str(&mut out, "   Option B: Add udev rule /etc/udev/rules.d/99-input.rules\n");
        push_str(&mut out, "             (KERNEL==\"uinput\", MODE=\"0660\", GROUP=\"input\")\n");
    }
    assert(out@ =~= input_text(dev_ok, module_ok, perm_ok));
    (out, perm_ok)
}

/// What the doctor's checks found.
pub struct DoctorChecks {
    /// Whether each tool of [`deps`] answered its version flag, in order.
    pub deps_available: Vec<bool>,
    /// `/dev/uinput` exists.
    pub uinput_device: bool,
    /// The uinput kernel module is loaded.
    pub uinput_module: bool,
    /// The user may write to `/dev/uinput`.
    pub uinput_writable: bool,
    /// A render node exists under `/dev/dri`.
    pub dri: bool,
    /// Number of hardware encoders found.
    pub encoders: usize,
    /// Why writing the detected hardware to the configuration failed.
    pub save_error: Option<String>,
}

pub open spec fn bool_text(b: bool) -> Seq<char> {
    if b {
        "true"@
    } else {
        "false"@
    }
}

pub open spec fn all_true(s: Seq<bool>) -> bool
    decreases s.len(),
{
    if s.len() == 0 {
        true
    } else {
        all_true(s.drop_last()) && s.last()
    }
}

fn push_dep_line(out: &mut String, d: &Dep, ok: bool)
    ensures
        final(out)@ == old(out)@ + dep_text(d@, ok),
{
    if ok {
        push_str(out, "✅ [OK] ");
        push_str(out, d.name.as_str());
        push_str(out, " found.\n");
    } else {
        push_str(out, "❌ [MISSING] ");
        push_str(out, d.name.as_str());
        push_str(out, " not found.\n");
        push_str(out, "   └─ Hint: ");
        push_str(out, d.hint.as_str());
        push_str(out, "\n");
    }
    assert(out@ =~= old(out)@ + dep_text(d@, ok));
}

/// The whole report: tools, input back end, hardware, and the verdict.
pub open spec fn report_spec(c: DoctorChecks) -> Seq<char> {
    let all_ok = all_true(c.deps_available@) && c.uinput_writable && c.save_error is None;
    "🩺 Checking system dependencies for tapedeck.\n"@ + deps_text(
        deps_spec(),
        c.deps_available@,
    ) + input_text(c.uinput_device, c.uinput_module, c.uinput_writable) + "\n🔍 Hardware: dri="@
        + bool_text(c.dri) + " encoders="@ + dec(c.encoders as nat) + "\n"@ + (match c.save_error {
        Some(e) => "   └─ ⚠️ 寫回 [system.detected] 失敗: "@ + e@ + "\n"@,
        None => Seq::empty(),
    }) + "\n"@ + (if all_ok {
        "✨ All systems go! You're ready to tape.\n"@
    } else {
        "⚠️ Some dependencies are missing. Install them to proceed.\n"@
    })
}

pub fn doctor_report(checks: &DoctorChecks) -> (r: String)
    requires
        checks.deps_available@.len() == deps_spec().len(),
    ensures
        r@ == report_spec(*checks),
{
    let ds = deps();
    let mut out = lit("🩺 Checking system dependencies for tapedeck.\n");
    let ghost head = out@;
    let mut all_ok = true;
    let mut i: usize = 0;
    while i < ds.len()
        invariant
            i <= ds.len(),
            deps_view(ds@) == deps_spec(),
            checks.deps_available@.len() == ds.len(),
            out@ == head + deps_text(deps_spec().take(i as int), checks.deps_available@),
            all_ok == all_true(checks.deps_available@.take(i as int)),
        decreases ds.len() - i,
    {
        let ghost before = out@;
        let ok = checks.deps_available[i];
        push_dep_line(&mut out, &ds[i], ok);
        if !ok {
            all_ok = false;
        }
        assert(deps_spec().take(i + 1).drop_last() =~= deps_spec().take(i as int));
        assert(deps_spec()[i as int] == ds@[i as int]@);
        assert(checks.deps_available@.take(i + 1).drop_last() =~= checks.deps_available@.take(
            i as int,
        ));
        i += 1;
    }
    assert(deps_spec().take(ds.len() as int) =~= deps_spec());
    assert(checks.deps_available@.take(ds.len() as int) =~= checks.deps_available@);
    let (input, input_ok) = input_provider_report(
        checks.uinput_device,
        checks.uinput_module,
        checks.uinput_writable,
    );
    push_str(&mut out, input.as_str());
    if !input_ok {
        all_ok = false;
    }
    push_str(&mut out, "\n🔍 Hardware: dri=");
    push_str(&mut out, if checks.dri { "true" } else { "false" });
    push_str(&mut out, " encoders=");
    push_u64(&mut out, checks.encoders as u64);
    push_str(&mut out, "\n");
    match &checks.save_error {
        Some(e) => {
            push_str(&mut out, "   └─ ⚠️ 寫回 [system.detected] 失敗: ");
            push_str(&mut out, e.as_str());
            push_str(&mut out, "\n");
            all_ok = false;
        },
        None => {},
    }
    push_str(&mut out, "\n");
    if all_ok {
        push_str(&mut out, "✨ All systems go! You're ready to tape.\n");
    } else {
        push_str(&mut out, "⚠️ Some dependencies are missing. Install them to proceed.\n");
    }
    assert(out@ =~= report_spec(*checks));
    out
}

} // verus!
