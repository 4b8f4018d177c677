//! The MCP server's protocol logic: JSON-RPC 2.0 over stdio, one message per
//! line. The caller reads a line into an [`Incoming`] and writes the
//! [`Reply`] this module decides on; before `initialize` only `initialize`,
//! `ping` and `notifications/initialized` are served.

use vstd::prelude::*;

use crate::dispatcher::{link_name, link_spec, media_link};
use crate::doctor::{deps_spec, doctor_report, report_spec, DoctorChecks};
use crate::text::{chars, eq_lit, lit, push_str};

verus! {

/// The protocol revision this server speaks.
pub open spec fn protocol_version_spec() -> Seq<char> {
    "2025-06-18"@
}

pub fn protocol_version() -> (r: String)
    ensures
        r@ == protocol_version_spec(),
{
    lit("2025-06-18")
}

/// The name this server reports in `serverInfo`.
pub fn server_name() -> (r: String)
    ensures
        r@ == "tapedeck"@,
{
    lit("tapedeck")
}

// ───────────────────────── tools ─────────────────────────

/// Metadata of one tool; `input_schema` is JSON text.
pub struct Tool {
    pub name: String,
    pub description: String,
    pub input_schema: String,
}

/// Why a tool call failed.
#[derive(Debug, Clone, PartialEq, Eq)]
pub enum ToolError {
    /// No tool of that name (JSON-RPC -32602).
    Unknown(String),
    /// The call was refused or failed (`isError: true`; the session goes on).
    Execution(String),
}

/// The tools, in the order they are listed: name, description and input
/// schema (JSON text).
pub open spec fn tool_table() -> Seq<(Seq<char>, Seq<char>, Seq<char>)> {
    seq![
        (
            "tapedeck_run"@,
            "執行 .roll 錄製腳本並錄製輸出（webm/gif/webp/png）；可回傳最後一幀 PNG 供視覺驗證（T3）。"@,
            "{\"type\":\"object\",\"properties\":{\"script\":{\"type\":\"string\",\"description\":\".roll 腳本內容\"},\"output\":{\"type\":\"string\",\"description\":\"輸出檔名（預設依腳本或 XDG）\"},\"max_size\":{\"type\":\"integer\",\"description\":\"輸出大小上限 MB（超過自動壓縮）\"},\"humanize\":{\"type\":\"boolean\",\"description\":\"人類節奏優化（預設 false）\"},\"append_signature\":{\"type\":\"boolean\",\"description\":\"附推廣標籤（預設 false）\"}},\"required\":[\"script\"]}"@,
        ),
        (
            "tapedeck_inspect_environment"@,
            "封裝 tapedeck doctor：回報輸入後端（uinput/wtype）、依賴工具、硬體能力摘要。"@,
            "{\"type\":\"object\",\"properties\":{}}"@,
        ),
        (
            "tapedeck_extract_frames"@,
            "從錄製檔按 timestamp / 均勻抽樣擷取 PNG 影格，供視覺模型審查。"@,
            "{\"type\":\"object\",\"properties\":{\"media\":{\"type\":\"string\",\"description\":\"輸入媒體檔路徑\"},\"timestamps\":{\"type\":\"array\",\"items\":{\"type\":\"number\"},\"description\":\"指定時間點（秒）\"},\"count\":{\"type\":\"integer\",\"description\":\"均勻抽樣數量（未給 timestamps 時）\"}},\"required\":[\"media\"]}"@,
        ),
        (
            "tapedeck_link"@,
            "連結媒體資產到 SQLite 資產圖譜（sha256 + mtime），或查詢既有紀錄。"@,
            "{\"type\":\"object\",\"properties\":{\"media_file\":{\"type\":\"string\",\"description\":\"媒體檔路徑\"},\"format\":{\"type\":\"string\",\"description\":\"輸出格式 md/zola/html（預設 md）\"}},\"required\":[\"media_file\"]}"@,
        ),
        (
            "tapedeck_optimize"@,
            "壓製 GIF/WebP 體積（palettegen 雙 Pass / libwebp）。"@,
            "{\"type\":\"object\",\"properties\":{\"input\":{\"type\":\"string\",\"description\":\"輸入檔路徑\"},\"format\":{\"type\":\"string\",\"description\":\"gif/webp（預設依副檔名）\"},\"quality\":{\"type\":\"integer\",\"description\":\"品質 1-100（webp，預設 80）\"},\"fps\":{\"type\":\"integer\",\"description\":\"抽樣 fps（gif，預設 10）\"}},\"required\":[\"input\"]}"@,
        ),
        (
            "tapedeck_clean"@,
            "清理 SQLite 中的孤兒/失效資產（無 .md 引用的錄製檔）。"@,
            "{\"type\":\"object\",\"properties\":{\"dry_run\":{\"type\":\"boolean\",\"description\":\"只列出不刪除（預設 true）\"}}}"@,
        ),
    ]
}

/// The tool names, in the order they are listed.
pub open spec fn tool_names() -> Seq<Seq<char>> {
    tool_table().map_values(|t: (Seq<char>, Seq<char>, Seq<char>)| t.0)
}

pub open spec fn tools_view(v: Seq<Tool>) -> Seq<Seq<char>> {
    v.map_values(|t: Tool| t.name@)
}

pub open spec fn tools_full_view(v: Seq<Tool>) -> Seq<(Seq<char>, Seq<char>, Seq<char>)> {
    v.map_values(|t: Tool| (t.name@, t.description@, t.input_schema@))
}

fn tool(name: &str, description: &str, schema: &str) -> (t: Tool)
    ensures
        t.name@ == name@,
        t.description@ == description@,
        t.input_schema@ == schema@,
{
    Tool { name: lit(name), description: lit(description), input_schema: lit(schema) }
}

fn push_tool(v: &mut Vec<Tool>, t: Tool)
    ensures
        tools_full_view(final(v)@) == tools_full_view(old(v)@).push(
            (t.name@, t.description@, t.input_schema@),
        ),
{
    let ghost before = tools_full_view(v@);
    let ghost entry = (t.name@, t.description@, t.input_schema@);
    v.push(t);
    assert(tools_full_view(v@) =~= before.push(entry));
}

/// The six tools, with their descriptions and argument schemas.
pub fn list() -> (r: Vec<Tool>)
    ensures
        tools_full_view(r@) == tool_table(),
        tools_view(r@) == tool_names(),
{
    let mut v: Vec<Tool> = Vec::new();
    push_tool(&mut v, tool(
        "tapedeck_run",
        "執行 .roll 錄製腳本並錄製輸出（webm/gif/webp/png）；可回傳最後一幀 PNG 供視覺驗證（T3）。",
        "{\"type\":\"object\",\"properties\":{\"script\":{\"type\":\"string\",\"description\":\".roll 腳本內容\"},\"output\":{\"type\":\"string\",\"description\":\"輸出檔名（預設依腳本或 XDG）\"},\"max_size\":{\"type\":\"integer\",\"description\":\"輸出大小上限 MB（超過自動壓縮）\"},\"humanize\":{\"type\":\"boolean\",\"description\":\"人類節奏優化（預設 false）\"},\"append_signature\":{\"type\":\"boolean\",\"description\":\"附推廣標籤（預設 false）\"}},\"required\":[\"script\"]}",
    ));
    push_tool(&mut v, tool(
        "tapedeck_inspect_environment",
        "封裝 tapedeck doctor：回報輸入後端（uinput/wtype）、依賴工具、硬體能力摘要。",
        "{\"type\":\"object\",\"properties\":{}}",
    ));
    push_tool(&mut v, tool(
        "tapedeck_extract_frames",
        "從錄製檔按 timestamp / 均勻抽樣擷取 PNG 影格，供視覺模型審查。",
        "{\"type\":\"object\",\"properties\":{\"media\":{\"type\":\"string\",\"description\":\"輸入媒體檔路徑\"},\"timestamps\":{\"type\":\"array\",\"items\":{\"type\":\"number\"},\"description\":\"指定時間點（秒）\"},\"count\":{\"type\":\"integer\",\"description\":\"均勻抽樣數量（未給 timestamps 時）\"}},\"required\":[\"media\"]}",
    ));
    push_tool(&mut v, tool(
        "tapedeck_link",
        "連結媒體資產到 SQLite 資產圖譜（sha256 + mtime），或查詢既有紀錄。",
        "{\"type\":\"object\",\"properties\":{\"media_file\":{\"type\":\"string\",\"description\":\"媒體檔路徑\"},\"format\":{\"type\":\"string\",\"description\":\"輸出格式 md/zola/html（預設 md）\"}},\"required\":[\"media_file\"]}",
    ));
    push_tool(&mut v, tool(
        "tapedeck_optimize",
        "壓製 GIF/WebP 體積（palettegen 雙 Pass / libwebp）。",
        "{\"type\":\"object\",\"properties\":{\"input\":{\"type\":\"string\",\"description\":\"輸入檔路徑\"},\"format\":{\"type\":\"string\",\"description\":\"gif/webp（預設依副檔名）\"},\"quality\":{\"type\":\"integer\",\"description\":\"品質 1-100（webp，預設 80）\"},\"fps\":{\"type\":\"integer\",\"description\":\"抽樣 fps（gif，預設 10）\"}},\"required\":[\"input\"]}",
    ));
    push_tool(&mut v, tool(
        "tapedeck_clean",
        "清理 SQLite 中的孤兒/失效資產（無 .md 引用的錄製檔）。",
        "{\"type\":\"object\",\"properties\":{\"dry_run\":{\"type\":\"boolean\",\"description\":\"只列出不刪除（預設 true）\"}}}",
    ));
    assert(tools_full_view(v@) =~= tool_table());
    assert(tools_view(v@) =~= tool_names());
    v
}

proof fn lemma_tool_names()
    ensures
        tool_names() == seq![
            "tapedeck_run"@,
            "tapedeck_inspect_environment"@,
            "tapedeck_extract_frames"@,
            "tapedeck_link"@,
            "tapedeck_optimize"@,
            "tapedeck_clean"@,
        ],
{
    assert(tool_names() =~= seq![
        "tapedeck_run"@,
        "tapedeck_inspect_environment"@,
        "tapedeck_extract_frames"@,
        "tapedeck_link"@,
        "tapedeck_optimize"@,
        "tapedeck_clean"@,
    ]);
}

/// The six names differ (they have six different lengths).
proof fn lemma_names_distinct()
    ensures
        "tapedeck_run"@.len() == 12,
        "tapedeck_link"@.len() == 13,
        "tapedeck_clean"@.len() == 14,
        "tapedeck_optimize"@.len() == 17,
        "tapedeck_extract_frames"@.len() == 23,
        "tapedeck_inspect_environment"@.len() == 28,
{
    reveal_strlit("tapedeck_run");
    reveal_strlit("tapedeck_inspect_environment");
    reveal_strlit("tapedeck_extract_frames");
    reveal_strlit("tapedeck_link");
    reveal_strlit("tapedeck_optimize");
    reveal_strlit("tapedeck_clean");
}

proof fn lemma_listed(n: Seq<char>)
    requires
        tool_names().contains(n),
    ensures
        n == "tapedeck_run"@ || n == "tapedeck_inspect_environment"@ || n
            == "tapedeck_extract_frames"@ || n == "tapedeck_link"@ || n == "tapedeck_optimize"@
            || n == "tapedeck_clean"@,
{
    lemma_tool_names();
    let i = choose|i: int| 0 <= i < tool_names().len() && tool_names()[i] == n;
    assert(0 <= i < 6);
}

fn is_tool_name(name: &str) -> (r: bool)
    ensures
        r == tool_names().contains(name@),
{
    let v = crate::text::chars_of(name);
    let r = eq_lit(&v, "tapedeck_run") || eq_lit(&v, "tapedeck_inspect_environment") || eq_lit(
        &v,
        "tapedeck_extract_frames",
    ) || eq_lit(&v, "tapedeck_link") || eq_lit(&v, "tapedeck_optimize") || eq_lit(
        &v,
        "tapedeck_clean",
    );
    proof {
        lemma_tool_names();
        reveal_strlit("tapedeck_run");
        reveal_strlit("tapedeck_inspect_environment");
        reveal_strlit("tapedeck_extract_frames");
        reveal_strlit("tapedeck_link");
        reveal_strlit("tapedeck_optimize");
        reveal_strlit("tapedeck_clean");
        if r {
            if name@ == "tapedeck_run"@ {
                assert(tool_names()[0] == name@);
            } else if name@ == "tapedeck_inspect_environment"@ {
                assert(tool_names()[1] == name@);
            } else if name@ == "tapedeck_extract_frames"@ {
                assert(tool_names()[2] == name@);
            } else if name@ == "tapedeck_link"@ {
                assert(tool_names()[3] == name@);
            } else if name@ == "tapedeck_optimize"@ {
                assert(tool_names()[4] == name@);
            } else {
                assert(tool_names()[5] == name@);
            }
        } else {
            assert forall|i: int| 0 <= i < tool_names().len() implies tool_names()[i] != name@ by {}
        }
    }
    r
}

// ───────────────────────── tool calls ─────────────────────────

/// The arguments of one tool call, by JSON kind: strings, non-negative
/// integers and booleans. Arguments of other kinds are not read.
pub struct ToolArgs {
    pub text: Vec<(String, String)>,
    pub integer: Vec<(String, u64)>,
    pub flag: Vec<(String, bool)>,
}

pub struct ArgsModel {
    pub text: Seq<(Seq<char>, Seq<char>)>,
    pub integer: Seq<(Seq<char>, u64)>,
    pub flag: Seq<(Seq<char>, bool)>,
}

impl View for ToolArgs {
    type V = ArgsModel;

    open spec fn view(&self) -> ArgsModel {
        ArgsModel {
            text: self.text@.map_values(|p: (String, String)| (p.0@, p.1@)),
            integer: self.integer@.map_values(|p: (String, u64)| (p.0@, p.1)),
            flag: self.flag@.map_values(|p: (String, bool)| (p.0@, p.1)),
        }
    }
}

/// The value of the first argument named `k`.
pub open spec fn lookup<V>(s: Seq<(Seq<char>, V)>, k: Seq<char>) -> Option<V>
    decreases s.len(),
{
    if s.len() == 0 {
        None
    } else if s[0].0 == k {
        Some(s[0].1)
    } else {
        lookup(s.drop_first(), k)
    }
}

proof fn lemma_lookup_at<V>(s: Seq<(Seq<char>, V)>, k: Seq<char>, i: int)
    requires
        0 <= i <= s.len(),
        forall|j: int| 0 <= j < i ==> s[j].0 != k,
    ensures
        i < s.len() && s[i].0 == k ==> lookup(s, k) == Some(s[i].1),
        i == s.len() ==> lookup(s, k) is None,
    decreases i,
{
    if i > 0 {
        lemma_lookup_at(s.drop_first(), k, i - 1);
    }
}

/// Index of the first pair named `k`.
fn first_named<V>(v: &Vec<(String, V)>, k: &str) -> (r: Option<usize>)
    ensures
        match r {
            Some(i) => i < v@.len() && v@[i as int].0@ == k@ && forall|j: int|
                0 <= j < i ==> v@[j].0@ != k@,
            None => forall|j: int| 0 <= j < v@.len() ==> v@[j].0@ != k@,
        },
{
    let kv = crate::text::chars_of(k);
    let mut i: usize = 0;
    while i < v.len()
        invariant
            i <= v@.len(),
            kv@ == k@,
            forall|j: int| 0 <= j < i ==> v@[j].0@ != k@,
        decreases v.len() - i,
    {
        let name = chars(&v[i].0);
        if crate::text::eq_chars(&name, &kv) {
            return Some(i);
        }
        i += 1;
    }
    None
}

fn text_arg(args: &ToolArgs, k: &str) -> (r: Option<String>)
    ensures
        opt_str(r) == lookup(args@.text, k@),
{
    let ghost s = args@.text;
    match first_named(&args.text, k) {
        Some(i) => {
            proof {
                lemma_lookup_at(s, k@, i as int);
            }
            Some(lit(args.text[i].1.as_str()))
        },
        None => {
            proof {
                lemma_lookup_at(s, k@, s.len() as int);
            }
            None
        },
    }
}

fn integer_arg(args: &ToolArgs, k: &str) -> (r: Option<u64>)
    ensures
        r == lookup(args@.integer, k@),
{
    let ghost s = args@.integer;
    match first_named(&args.integer, k) {
        Some(i) => {
            proof {
                lemma_lookup_at(s, k@, i as int);
            }
            Some(args.integer[i].1)
        },
        None => {
            proof {
                lemma_lookup_at(s, k@, s.len() as int);
            }
            None
        },
    }
}

fn flag_arg(args: &ToolArgs, k: &str) -> (r: Option<bool>)
    ensures
        r == lookup(args@.flag, k@),
{
    let ghost s = args@.flag;
    match first_named(&args.flag, k) {
        Some(i) => {
            proof {
                lemma_lookup_at(s, k@, i as int);
            }
            Some(args.flag[i].1)
        },
        None => {
            proof {
                lemma_lookup_at(s, k@, s.len() as int);
            }
            None
        },
    }
}

/// The argument a tool cannot do without (a string), if it has one.
pub open spec fn required_arg(name: Seq<char>) -> Option<Seq<char>> {
    if name == "tapedeck_run"@ {
        Some("script"@)
    } else if name == "tapedeck_extract_frames"@ {
        Some("media"@)
    } else if name == "tapedeck_link"@ {
        Some("media_file"@)
    } else if name == "tapedeck_optimize"@ {
        Some("input"@)
    } else {
        None
    }
}

pub open spec fn missing_text(arg: Seq<char>) -> Seq<char> {
    "缺少參數："@ + arg
}

pub open spec fn unsupported_text(format: Seq<char>) -> Seq<char> {
    "不支援的格式 '"@ + format + "'，支援：md, html, zola"@
}

/// The outside work a tool call asks for, with what is handed to it.
pub enum ToolAction {
    /// Record the script text; `output` and `max_size` (MB) as given.
    Run { script: String, output: Option<String>, max_size: Option<u64> },
    /// Gather the doctor's checks and answer with [`inspect_reply`].
    InspectEnvironment,
    /// Take frames of the media file (8 unless `count` is given).
    ExtractFrames { media: String, count: u64 },
    /// Compress the input (quality 80 and 10 fps unless given).
    Optimize { input: String, format: Option<String>, quality: u64, fps: u64 },
    /// Remove orphaned assets (only list them unless `dry_run` is false).
    Clean { dry_run: bool },
}

pub enum ActionModel {
    Run { script: Seq<char>, output: Option<Seq<char>>, max_size: Option<u64> },
    InspectEnvironment,
    ExtractFrames { media: Seq<char>, count: u64 },
    Optimize { input: Seq<char>, format: Option<Seq<char>>, quality: u64, fps: u64 },
    Clean { dry_run: bool },
}

impl View for ToolAction {
    type V = ActionModel;

    open spec fn view(&self) -> ActionModel {
        match self {
            ToolAction::Run { script, output, max_size } => ActionModel::Run {
                script: script@,
                output: opt_str(*output),
                max_size: *max_size,
            },
            ToolAction::InspectEnvironment => ActionModel::InspectEnvironment,
            ToolAction::ExtractFrames { media, count } => ActionModel::ExtractFrames {
                media: media@,
                count: *count,
            },
            ToolAction::Optimize { input, format, quality, fps } => ActionModel::Optimize {
                input: input@,
                format: opt_str(*format),
                quality: *quality,
                fps: *fps,
            },
            ToolAction::Clean { dry_run } => ActionModel::Clean { dry_run: *dry_run },
        }
    }
}

/// What a tool call comes to: an answer decided here, or outside work.
pub enum ToolOutcome {
    /// The call is answered with this text (`isError: false`).
    Answer(String),
    /// The call is answered once the action has been performed.
    Perform(ToolAction),
}

pub enum CallModel {
    Unknown,
    Refused(Seq<char>),
    Answer(Seq<char>),
    Perform(ActionModel),
}

pub open spec fn call_view(r: Result<ToolOutcome, ToolError>) -> CallModel {
    match r {
        Ok(ToolOutcome::Answer(t)) => CallModel::Answer(t@),
        Ok(ToolOutcome::Perform(a)) => CallModel::Perform(a@),
        Err(ToolError::Unknown(_)) => CallModel::Unknown,
        Err(ToolError::Execution(m)) => CallModel::Refused(m@),
    }
}

pub open spec fn text_or(o: Option<Seq<char>>, d: Seq<char>) -> Seq<char> {
    match o {
        Some(t) => t,
        None => d,
    }
}

pub open spec fn num_or(o: Option<u64>, d: u64) -> u64 {
    match o {
        Some(t) => t,
        None => d,
    }
}

/// What a call of tool `name` with arguments `a` comes to.
pub open spec fn call_spec(name: Seq<char>, a: ArgsModel) -> CallModel {
    if !tool_names().contains(name) {
        CallModel::Unknown
    } else if required_arg(name) is Some && lookup(a.text, required_arg(name).unwrap()) is None {
        CallModel::Refused(missing_text(required_arg(name).unwrap()))
    } else if name == "tapedeck_link"@ {
        let file = lookup(a.text, "media_file"@).unwrap();
        let format = text_or(lookup(a.text, "format"@), "md"@);
        match link_spec(file, link_name(file), format) {
            Some(l) => CallModel::Answer(l),
            None => CallModel::Refused(unsupported_text(format)),
        }
    } else if name == "tapedeck_run"@ {
        CallModel::Perform(
            ActionModel::Run {
                script: lookup(a.text, "script"@).unwrap(),
                output: lookup(a.text, "output"@),
                max_size: lookup(a.integer, "max_size"@),
            },
        )
    } else if name == "tapedeck_inspect_environment"@ {
        CallModel::Perform(ActionModel::InspectEnvironment)
    } else if name == "tapedeck_extract_frames"@ {
        CallModel::Perform(
            ActionModel::ExtractFrames {
                media: lookup(a.text, "media"@).unwrap(),
                count: num_or(lookup(a.integer, "count"@), 8),
            },
        )
    } else if name == "tapedeck_optimize"@ {
        CallModel::Perform(
            ActionModel::Optimize {
                input: lookup(a.text, "input"@).unwrap(),
                format: lookup(a.text, "format"@),
                quality: num_or(lookup(a.integer, "quality"@), 80),
                fps: num_or(lookup(a.integer, "fps"@), 10),
            },
        )
    } else {
        CallModel::Perform(
            ActionModel::Clean {
                dry_run: match lookup(a.flag, "dry_run"@) {
                    Some(b) => b,
                    None => true,
                },
            },
        )
    }
}

fn missing(arg: &str) -> (r: Result<ToolOutcome, ToolError>)
    ensures
        call_view(r) == CallModel::Refused(missing_text(arg@)),
{
    let mut m = lit("缺少參數：");
    push_str(&mut m, arg);
    Err(ToolError::Execution(m))
}

/// Decide a tool call: an unknown tool is refused; a call without the
/// tool's required argument fails naming it; a link is answered here; the
/// other tools hand their arguments to outside work.
pub fn execute(name: &str, args: &ToolArgs) -> (r: Result<ToolOutcome, ToolError>)
    ensures
        call_view(r) == call_spec(name@, args@),
        r matches Err(ToolError::Unknown(n)) ==> n@ == name@,
{
    proof {
        lemma_tool_names();
        reveal_strlit("tapedeck_run");
        reveal_strlit("tapedeck_inspect_environment");
        reveal_strlit("tapedeck_extract_frames");
        reveal_strlit("tapedeck_link");
        reveal_strlit("tapedeck_optimize");
        reveal_strlit("tapedeck_clean");
    }
    if !is_tool_name(name) {
        return Err(ToolError::Unknown(lit(name)));
    }
    proof {
        lemma_listed(name@);
        lemma_names_distinct();
    }
    let v = crate::text::chars_of(name);
    if eq_lit(&v, "tapedeck_run") {
        let script = match text_arg(args, "script") {
            Some(t) => t,
            None => return missing("script"),
        };
        let output = text_arg(args, "output");
        let max_size = integer_arg(args, "max_size");
        Ok(ToolOutcome::Perform(ToolAction::Run { script, output, max_size }))
    } else if eq_lit(&v, "tapedeck_inspect_environment") {
        Ok(ToolOutcome::Perform(ToolAction::InspectEnvironment))
    } else if eq_lit(&v, "tapedeck_extract_frames") {
        let media = match text_arg(args, "media") {
            Some(t) => t,
            None => return missing("media"),
        };
        let count = match integer_arg(args, "count") {
            Some(c) => c,
            None => 8,
        };
        Ok(ToolOutcome::Perform(ToolAction::ExtractFrames { media, count }))
    } else if eq_lit(&v, "tapedeck_link") {
        let file = match text_arg(args, "media_file") {
            Some(t) => t,
            None => return missing("media_file"),
        };
        let format = match text_arg(args, "format") {
            Some(f) => f,
            None => lit("md"),
        };
        match media_link(file.as_str(), format.as_str()) {
            Ok(l) => Ok(ToolOutcome::Answer(l)),
            Err(e) => Err(ToolError::Execution(e.message())),
        }
    } else if eq_lit(&v, "tapedeck_optimize") {
        let input = match text_arg(args, "input") {
            Some(t) => t,
            None => return missing("input"),
        };
        let format = text_arg(args, "format");
        let quality = match integer_arg(args, "quality") {
            Some(q) => q,
            None => 80,
        };
        let fps = match integer_arg(args, "fps") {
            Some(f) => f,
            None => 10,
        };
        Ok(ToolOutcome::Perform(ToolAction::Optimize { input, format, quality, fps }))
    } else {
        let dry_run = match flag_arg(args, "dry_run") {
            Some(b) => b,
            None => true,
        };
        Ok(ToolOutcome::Perform(ToolAction::Clean { dry_run }))
    }
}

// ───────────────────────── messages ─────────────────────────

/// Server state: whether `initialize` has been answered.
pub struct ServerState {
    pub initialized: bool,
}

impl Default for ServerState {
    fn default() -> (s: Self)
        ensures
            !s.initialized,
    {
        ServerState { initialized: false }
    }
}

/// What was read from one line.
pub struct RpcMessage {
    /// The request id as JSON text; `None` for a notification.
    pub id: Option<String>,
    pub method: Option<String>,
    /// `params.protocolVersion` when it is a string.
    pub protocol_version: Option<String>,
    /// `params.name` when it is a string.
    pub tool_name: Option<String>,
    /// `params.arguments` of a tool call.
    pub arguments: ToolArgs,
}

pub enum Incoming {
    /// A line that is not a JSON-RPC message, with the parser's complaint.
    Malformed(String),
    Message(RpcMessage),
}

/// The body of a successful response.
#[derive(Debug, Clone, PartialEq, Eq)]
pub enum ReplyBody {
    /// The initialize result, with the negotiated protocol version.
    Initialize(String),
    /// `{}`.
    Empty,
    /// The tool list.
    Tools,
    /// A failed tool call (`isError: true`) with its text.
    ToolFailure(String),
    /// A tool call's result text (`isError: false`).
    ToolText(String),
}

/// A response line: a result or an error, for a request id (JSON text).
#[derive(Debug, Clone, PartialEq, Eq)]
pub enum Reply {
    Result(String, ReplyBody),
    Error(String, i64, String),
}

/// What the caller does with one message.
pub enum Step {
    /// Write this reply.
    Send(Reply),
    /// Perform the action, then answer the request with this id (JSON text)
    /// by [`tool_reply`] or [`inspect_reply`].
    Perform(String, ToolAction),
}

pub enum BodyModel {
    Initialize(Seq<char>),
    Empty,
    Tools,
    ToolFailure(Seq<char>),
    ToolText(Seq<char>),
}

pub enum StepModel {
    Send(ReplyModel),
    Perform(Seq<char>, ActionModel),
}

pub enum ReplyModel {
    Result(Seq<char>, BodyModel),
    Error(Seq<char>, int, Seq<char>),
}

impl View for ReplyBody {
    type V = BodyModel;

    open spec fn view(&self) -> BodyModel {
        match self {
            ReplyBody::Initialize(v) => BodyModel::Initialize(v@),
            ReplyBody::Empty => BodyModel::Empty,
            ReplyBody::Tools => BodyModel::Tools,
            ReplyBody::ToolFailure(t) => BodyModel::ToolFailure(t@),
            ReplyBody::ToolText(t) => BodyModel::ToolText(t@),
        }
    }
}

impl View for Reply {
    type V = ReplyModel;

    open spec fn view(&self) -> ReplyModel {
        match self {
            Reply::Result(id, b) => ReplyModel::Result(id@, b@),
            Reply::Error(id, c, m) => ReplyModel::Error(id@, *c as int, m@),
        }
    }
}

impl View for Step {
    type V = StepModel;

    open spec fn view(&self) -> StepModel {
        match self {
            Step::Send(r) => StepModel::Send(r@),
            Step::Perform(id, a) => StepModel::Perform(id@, a@),
        }
    }
}

pub open spec fn opt_step_view(r: Option<Step>) -> Option<StepModel> {
    match r {
        Some(x) => Some(x@),
        None => None,
    }
}

pub open spec fn send(r: ReplyModel) -> Option<StepModel> {
    Some(StepModel::Send(r))
}

/// The step for a `tools/call` request with id text `idt`.
pub open spec fn call_step(idt: Seq<char>, name: Seq<char>, a: ArgsModel) -> StepModel {
    match call_spec(name, a) {
        CallModel::Unknown => StepModel::Send(ReplyModel::Error(idt, -32602, "Unknown tool: "@ + name)),
        CallModel::Refused(m) => StepModel::Send(ReplyModel::Result(idt, BodyModel::ToolFailure(m))),
        CallModel::Answer(t) => StepModel::Send(ReplyModel::Result(idt, BodyModel::ToolText(t))),
        CallModel::Perform(act) => StepModel::Perform(idt, act),
    }
}

/// The methods served before `initialize`.
pub open spec fn allowed_before_init(m: Seq<char>) -> bool {
    m == "initialize"@ || m == "ping"@ || m == "notifications/initialized"@
}

pub open spec fn id_text(id: Option<Seq<char>>) -> Seq<char> {
    match id {
        Some(t) => t,
        None => "null"@,
    }
}

pub open spec fn opt_str(o: Option<String>) -> Option<Seq<char>> {
    match o {
        Some(s) => Some(s@),
        None => None,
    }
}

/// The step for a method and the state after it, for a message with the
/// given id, parameters and state.
pub open spec fn reply_spec(
    initialized: bool,
    id: Option<Seq<char>>,
    method: Seq<char>,
    tool: Option<Seq<char>>,
    args: ArgsModel,
) -> (Option<StepModel>, bool) {
    let idt = id_text(id);
    let is_request = id is Some;
    if !initialized && !allowed_before_init(method) {
        (
            send(ReplyModel::Error(idt, -32000, "Server not initialized: call initialize first"@)),
            initialized,
        )
    } else if method == "initialize"@ {
        if !is_request {
            (None, initialized)
        } else {
            (send(ReplyModel::Result(idt, BodyModel::Initialize(protocol_version_spec()))), true)
        }
    } else if method == "notifications/initialized"@ {
        (None, initialized)
    } else if method == "ping"@ {
        if !is_request {
            (None, initialized)
        } else {
            (send(ReplyModel::Result(idt, BodyModel::Empty)), initialized)
        }
    } else if method == "tools/list"@ {
        if !is_request {
            (None, initialized)
        } else {
            (send(ReplyModel::Result(idt, BodyModel::Tools)), initialized)
        }
    } else if method == "tools/call"@ {
        if !is_request {
            (None, initialized)
        } else {
            (Some(call_step(idt, text_or(tool, Seq::empty()), args)), initialized)
        }
    } else {
        (send(ReplyModel::Error(idt, -32601, "Method not found: "@ + method)), initialized)
    }
}

/// The step for a line and the state after it.
pub open spec fn handle_spec(msg: Incoming, initialized: bool) -> (Option<StepModel>, bool) {
    match msg {
        Incoming::Malformed(e) => (
            send(ReplyModel::Error("null"@, -32700, "Parse error: "@ + e@)),
            initialized,
        ),
        Incoming::Message(m) => match m.method {
            None => (None, initialized),
            Some(method) => reply_spec(
                initialized,
                opt_str(m.id),
                method@,
                opt_str(m.tool_name),
                m.arguments@,
            ),
        },
    }
}

fn id_of(id: &Option<String>) -> (r: String)
    ensures
        r@ == id_text(opt_str(*id)),
{
    match id {
        Some(t) => lit(t.as_str()),
        None => lit("null"),
    }
}

/// Decide what to do with one message and update the state; `None` when
/// nothing is to be written (a notification).
pub fn handle_message(msg: &Incoming, state: &mut ServerState) -> (r: Option<Step>)
    ensures
        (opt_step_view(r), final(state).initialized) == handle_spec(*msg, old(state).initialized),
{
    let m = match msg {
        Incoming::Malformed(e) => {
            let mut t = lit("Parse error: ");
            push_str(&mut t, e.as_str());
            return Some(Step::Send(Reply::Error(lit("null"), -32700, t)));
        },
        Incoming::Message(m) => m,
    };
    let method = match &m.method {
        Some(x) => x,
        None => return None,
    };
    let idt = id_of(&m.id);
    let is_request = m.id.is_some();
    let mv = chars(method);
    proof {
        reveal_strlit("initialize");
        reveal_strlit("ping");
        reveal_strlit("notifications/initialized");
        reveal_strlit("tools/list");
        reveal_strlit("tools/call");
    }
    let allowed = eq_lit(&mv, "initialize") || eq_lit(&mv, "ping") || eq_lit(
        &mv,
        "notifications/initialized",
    );
    if !state.initialized && !allowed {
        return Some(
            Step::Send(
                Reply::Error(idt, -32000, lit("Server not initialized: call initialize first")),
            ),
        );
    }
    if eq_lit(&mv, "initialize") {
        if !is_request {
            return None;
        }
        // Whatever version the client asks for, the answer is the one
        // this server speaks.
        let negotiated = protocol_version();
        state.initialized = true;
        Some(Step::Send(Reply::Result(idt, ReplyBody::Initialize(negotiated))))
    } else if eq_lit(&mv, "notifications/initialized") {
        None
    } else if eq_lit(&mv, "ping") {
        if !is_request {
            return None;
        }
        Some(Step::Send(Reply::Result(idt, ReplyBody::Empty)))
    } else if eq_lit(&mv, "tools/list") {
        if !is_request {
            return None;
        }
        Some(Step::Send(Reply::Result(idt, ReplyBody::Tools)))
    } else if eq_lit(&mv, "tools/call") {
        if !is_request {
            return None;
        }
        let name = match &m.tool_name {
            Some(n) => lit(n.as_str()),
            None => String::new(),
        };
        let step = match execute(name.as_str(), &m.arguments) {
            Err(ToolError::Unknown(n)) => {
                let mut t = lit("Unknown tool: ");
                push_str(&mut t, n.as_str());
                Step::Send(Reply::Error(idt, -32602, t))
            },
            Err(ToolError::Execution(text)) => Step::Send(
                Reply::Result(idt, ReplyBody::ToolFailure(text)),
            ),
            Ok(ToolOutcome::Answer(text)) => Step::Send(
                Reply::Result(idt, ReplyBody::ToolText(text)),
            ),
            Ok(ToolOutcome::Perform(action)) => Step::Perform(idt, action),
        };
        Some(step)
    } else {
        let mut t = lit("Method not found: ");
        push_str(&mut t, method.as_str());
        Some(Step::Send(Reply::Error(idt, -32601, t)))
    }
}

/// The answer to a performed tool call with id text `id`: its result text,
/// or why it failed (`isError: true`).
pub fn tool_reply(id: &str, outcome: Result<String, String>) -> (r: Reply)
    ensures
        r@ == match outcome {
            Ok(t) => ReplyModel::Result(id@, BodyModel::ToolText(t@)),
            Err(e) => ReplyModel::Result(id@, BodyModel::ToolFailure(e@)),
        },
{
    match outcome {
        Ok(t) => Reply::Result(lit(id), ReplyBody::ToolText(t)),
        Err(e) => Reply::Result(lit(id), ReplyBody::ToolFailure(e)),
    }
}

/// The answer to `tapedeck_inspect_environment`: the doctor's report on
/// the checks the caller gathered.
pub fn inspect_reply(id: &str, checks: &DoctorChecks) -> (r: Reply)
    requires
        checks.deps_available@.len() == deps_spec().len(),
    ensures
        r@ == ReplyModel::Result(id@, BodyModel::ToolText(report_spec(*checks))),
{
    Reply::Result(lit(id), ReplyBody::ToolText(doctor_report(checks)))
}

// ───────────────────────── laws ─────────────────────────

/// Before `initialize` every method but `initialize`, `ping` and
/// `notifications/initialized` is refused with -32000 and leaves the
/// server uninitialized.
pub proof fn law_uninitialized_refuses(
    id: Option<Seq<char>>,
    method: Seq<char>,
    tool: Option<Seq<char>>,
    args: ArgsModel,
)
    requires
        !allowed_before_init(method),
    ensures
        reply_spec(false, id, method, tool, args) == (
            send(
                ReplyModel::Error(
                    id_text(id),
                    -32000,
                    "Server not initialized: call initialize first"@,
                ),
            ),
            false,
        ),
{
}

/// An initialized server stays initialized, whatever it is sent.
pub proof fn law_initialized_stays(msg: Incoming)
    ensures
        handle_spec(msg, true).1,
{
}

/// An `initialize` request always answers with this server's protocol
/// version and leaves the server initialized, whatever version was asked.
pub proof fn law_initialize_negotiates(
    initialized: bool,
    id: Seq<char>,
    tool: Option<Seq<char>>,
    args: ArgsModel,
)
    ensures
        reply_spec(initialized, Some(id), "initialize"@, tool, args) == (
            send(ReplyModel::Result(id, BodyModel::Initialize(protocol_version_spec()))),
            true,
        ),
{
    reveal_strlit("initialize");
    reveal_strlit("ping");
    reveal_strlit("notifications/initialized");
}

/// A call of a listed tool that lacks the tool's required argument is
/// answered, not refused as a protocol error: a failed result naming the
/// missing argument, and the session goes on.
pub proof fn law_missing_argument_fails(idt: Seq<char>, name: Seq<char>, a: ArgsModel)
    requires
        tool_names().contains(name),
        required_arg(name) is Some,
        lookup(a.text, required_arg(name).unwrap()) is None,
    ensures
        call_step(idt, name, a) == StepModel::Send(
            ReplyModel::Result(
                idt,
                BodyModel::ToolFailure("缺少參數："@ + required_arg(name).unwrap()),
            ),
        ),
{
}

/// A call is an unknown-tool error exactly when the name is not listed,
/// and refused exactly when the tool's required argument is absent or a
/// link asks for a format that has no markup.
pub proof fn law_call_refusals(name: Seq<char>, a: ArgsModel)
    ensures
        (call_spec(name, a) is Unknown) <==> !tool_names().contains(name),
        (call_spec(name, a) is Refused) <==> tool_names().contains(name) && ((required_arg(name) is Some
            && lookup(a.text, required_arg(name).unwrap()) is None) || (name == "tapedeck_link"@
            && lookup(a.text, "media_file"@) is Some && link_spec(
            lookup(a.text, "media_file"@).unwrap(),
            link_name(lookup(a.text, "media_file"@).unwrap()),
            text_or(lookup(a.text, "format"@), "md"@),
        ) is None)),
{
    lemma_names_distinct();
    if tool_names().contains(name) {
        lemma_listed(name);
    }
}

} // verus!
