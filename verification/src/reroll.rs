//! Re-rolling: which scripts to record again, where their recordings go,
//! and the bookkeeping of a batch (one line per script, counts, verdict).
//!
//! The caller walks the directory, reads modification times and the asset
//! graph, runs the recordings and moves files; each decision is made here.

use vstd::prelude::*;

use crate::dispatcher::{engine_label, engine_name, resolve_engine, resolved_engine};
use crate::fspath::{extension, path_extension, with_suffix};
use crate::paths::{cache_dir_spec, resolve_output_path, resolve_output_spec, XdgEnv};
use crate::script::{Engine, Script, ScriptModel};
use crate::text::{chars, copy_string, dec, eq_lit, lit, push_str, push_u64};

verus! {

// ───────────────────────── finding scripts ─────────────────────────

/// A directory entry is a script when its extension is `roll`.
pub fn is_roll_path(p: &str) -> (r: bool)
    ensures
        r == (extension(p@) == Some("roll"@)),
{
    match path_extension(p) {
        Some(e) => {
            let v = chars(&e);
            eq_lit(&v, "roll")
        },
        None => false,
    }
}

/// Directories searched for scripts: all but `.git`.
pub fn descend_into(dir_name: &str) -> (r: bool)
    ensures
        r == (dir_name@ != ".git"@),
{
    let v = crate::text::chars_of(dir_name);
    !eq_lit(&v, ".git")
}

/// Text order of paths: character by character, a proper prefix first
/// (the order of `str`, since UTF-8 keeps code point order).
pub open spec fn text_lt(a: Seq<char>, b: Seq<char>) -> bool
    decreases a.len(),
{
    if a.len() == 0 {
        b.len() > 0
    } else if b.len() == 0 {
        false
    } else if a[0] != b[0] {
        (a[0] as int) < (b[0] as int)
    } else {
        text_lt(a.drop_first(), b.drop_first())
    }
}

pub open spec fn text_sorted(s: Seq<Seq<char>>) -> bool {
    forall|i: int, j: int| 0 <= i <= j < s.len() ==> !text_lt(#[trigger] s[j], #[trigger] s[i])
}

proof fn lemma_text_lt_trans(a: Seq<char>, b: Seq<char>, c: Seq<char>)
    requires
        text_lt(a, b),
        text_lt(b, c),
    ensures
        text_lt(a, c),
    decreases a.len(),
{
    if a.len() > 0 && b.len() > 0 && c.len() > 0 && a[0] == b[0] && b[0] == c[0] {
        lemma_text_lt_trans(a.drop_first(), b.drop_first(), c.drop_first());
    }
}

proof fn lemma_text_lt_total(a: Seq<char>, b: Seq<char>)
    ensures
        a != b ==> text_lt(a, b) || text_lt(b, a),
        !(text_lt(a, b) && text_lt(b, a)),
    decreases a.len(),
{
    if a.len() > 0 && b.len() > 0 && a[0] == b[0] {
        lemma_text_lt_total(a.drop_first(), b.drop_first());
        if a.drop_first() == b.drop_first() {
            assert(a =~= seq![a[0]] + a.drop_first());
            assert(b =~= seq![b[0]] + b.drop_first());
        }
    } else if a.len() == 0 && b.len() == 0 {
        assert(a =~= b);
    }
}

fn text_less(a: &String, b: &String) -> (r: bool)
    ensures
        r == text_lt(a@, b@),
{
    let x = chars(a);
    let y = chars(b);
    let mut i: usize = 0;
    assert(a@.skip(0) =~= a@);
    assert(b@.skip(0) =~= b@);
    while i < x.len() && i < y.len() && x[i] == y[i]
        invariant
            i <= x.len(),
            i <= y.len(),
            x@ == a@,
            y@ == b@,
            text_lt(a@, b@) == text_lt(a@.skip(i as int), b@.skip(i as int)),
        decreases x.len() - i,
    {
        assert(a@.skip(i as int).drop_first() =~= a@.skip(i + 1));
        assert(b@.skip(i as int).drop_first() =~= b@.skip(i + 1));
        i += 1;
    }
    if i == x.len() {
        assert(a@.skip(i as int).len() == 0);
        i < y.len()
    } else if i == y.len() {
        false
    } else {
        assert(a@.skip(i as int)[0] == x@[i as int]);
        assert(b@.skip(i as int)[0] == y@[i as int]);
        x[i] < y[i]
    }
}

pub open spec fn texts(v: Seq<String>) -> Seq<Seq<char>> {
    v.map_values(|s: String| s@)
}

/// The paths in text order (the order scripts are batched in).
pub fn sort_paths(v: &Vec<String>) -> (r: Vec<String>)
    ensures
        text_sorted(texts(r@)),
        texts(r@).to_multiset() == texts(v@).to_multiset(),
{
    broadcast use vstd::seq_lib::to_multiset_build, vstd::seq_lib::to_multiset_insert;

    let mut r: Vec<String> = Vec::new();
    let mut i: usize = 0;
    assert(texts(r@) =~= Seq::<Seq<char>>::empty());
    assert(texts(v@).take(0) =~= Seq::<Seq<char>>::empty());
    while i < v.len()
        invariant
            i <= v.len(),
            text_sorted(texts(r@)),
            texts(r@).to_multiset() == texts(v@).take(i as int).to_multiset(),
        decreases v.len() - i,
    {
        let x = copy_string(&v[i]);
        let ghost rt = texts(r@);
        let mut k: usize = 0;
        while k < r.len() && !text_less(&x, &r[k])
            invariant
                k <= r.len(),
                rt == texts(r@),
                forall|j: int| 0 <= j < k ==> !text_lt(x@, #[trigger] rt[j]),
            decreases r.len() - k,
        {
            k += 1;
        }
        let ghost xv = x@;
        r.insert(k, x);
        proof {
            let nt = texts(r@);
            assert(nt =~= rt.insert(k as int, xv));
            rt.insert_ensures(k as int, xv);
            assert forall|a: int, b: int| 0 <= a <= b < nt.len() implies !text_lt(
                #[trigger] nt[b],
                #[trigger] nt[a],
            ) by {
                if a == b {
                    lemma_text_lt_total(nt[a], nt[a]);
                } else if b < k {
                    assert(nt[a] == rt[a] && nt[b] == rt[b]);
                } else if a > k {
                    assert(nt[a] == rt[a - 1] && nt[b] == rt[b - 1]);
                } else if a == k {
                    // x before the later ones: x < rt[k] <= rt[b - 1]
                    assert(nt[b] == rt[b - 1]);
                    if text_lt(nt[b], xv) {
                        if b - 1 == k as int {
                            lemma_text_lt_total(xv, rt[b - 1]);
                        } else {
                            lemma_text_lt_trans(rt[b - 1], xv, rt[k as int]);
                        }
                    }
                } else if b == k {
                    assert(nt[a] == rt[a]);
                    lemma_text_lt_total(xv, rt[a]);
                } else {
                    // a < k < b
                    assert(nt[a] == rt[a] && nt[b] == rt[b - 1]);
                }
            }
            assert(xv == texts(v@)[i as int]);
            assert(texts(v@).take(i + 1) =~= texts(v@).take(i as int).push(xv));
            vstd::seq_lib::to_multiset_insert(rt, k as int, xv);
            vstd::seq_lib::to_multiset_build(texts(v@).take(i as int), xv);
        }
        i += 1;
    }
    assert(texts(v@).take(v.len() as int) =~= texts(v@));
    r
}

// ───────────────────────── planning ─────────────────────────

/// One script of a batch: where it is, the engine it runs on, where its
/// recording goes, and whether it is recorded again.
pub struct RerollItem {
    pub roll: String,
    pub engine: Engine,
    pub output: String,
    pub stale: bool,
}

/// The script's output, `output.webm` when it names none or an empty one.
pub open spec fn raw_output(s: ScriptModel) -> Seq<char> {
    match s.output {
        Some(o) => if o.len() == 0 {
            "output.webm"@
        } else {
            o
        },
        None => "output.webm"@,
    }
}

/// Without `--stale-only` every script is recorded; with it, a script
/// that has no registered recording or that changed after its recording.
pub open spec fn stale_spec(stale_only: bool, registered_mtime: Option<i64>, roll_mtime: i64) -> bool {
    !stale_only || match registered_mtime {
        None => true,
        Some(m) => roll_mtime > m,
    }
}

pub fn is_stale(stale_only: bool, registered_mtime: Option<i64>, roll_mtime: i64) -> (r: bool)
    ensures
        r == stale_spec(stale_only, registered_mtime, roll_mtime),
{
    if !stale_only {
        true
    } else {
        match registered_mtime {
            None => true,
            Some(m) => roll_mtime > m,
        }
    }
}

/// The plan for one parsed script, given the modification time of the
/// newest recording registered for it (if any) and its own.
pub fn plan_item(
    env: &XdgEnv,
    roll: &str,
    script: &Script,
    stale_only: bool,
    registered_mtime: Option<i64>,
    roll_mtime: i64,
) -> (r: RerollItem)
    ensures
        r.roll@ == roll@,
        r.engine == resolved_engine(script@),
        r.output@ == resolve_output_spec(cache_dir_spec(*env), raw_output(script@), None),
        r.stale == stale_spec(stale_only, registered_mtime, roll_mtime),
{
    let engine = resolve_engine(script);
    let raw = match &script.output {
        Some(o) => if chars(o).len() == 0 {
            lit("output.webm")
        } else {
            lit(o.as_str())
        },
        None => lit("output.webm"),
    };
    proof {
        reveal_strlit("output.webm");
    }
    let output = resolve_output_path(env, raw.as_str(), None);
    RerollItem {
        roll: lit(roll),
        engine,
        output,
        stale: is_stale(stale_only, registered_mtime, roll_mtime),
    }
}

pub open spec fn plan_line_spec(roll: Seq<char>, e: Engine, output: Seq<char>, stale: bool) -> Seq<
    char,
> {
    roll + " | "@ + engine_name(e) + " | "@ + output + " | "@ + (if stale {
        "stale"@
    } else {
        "keep"@
    })
}

/// `roll | engine | output | stale|keep`, the dry-run line of an item.
pub fn plan_line(item: &RerollItem) -> (r: String)
    ensures
        r@ == plan_line_spec(item.roll@, item.engine, item.output@, item.stale),
{
    let mut s = lit(item.roll.as_str());
    push_str(&mut s, " | ");
    push_str(&mut s, engine_label(item.engine).as_str());
    push_str(&mut s, " | ");
    push_str(&mut s, item.output.as_str());
    push_str(&mut s, " | ");
    push_str(&mut s, if item.stale { "stale" } else { "keep" });
    s
}

pub open spec fn count_stale(items: Seq<RerollItem>) -> nat
    decreases items.len(),
{
    if items.len() == 0 {
        0
    } else {
        count_stale(items.drop_last()) + if items.last().stale {
            1nat
        } else {
            0nat
        }
    }
}

pub proof fn lemma_count_stale_le(items: Seq<RerollItem>)
    ensures
        count_stale(items) <= items.len(),
    decreases items.len(),
{
    if items.len() > 0 {
        lemma_count_stale_le(items.drop_last());
    }
}

/// The dry run's last line: `N 支：R 重錄、S skip`.
pub open spec fn plan_summary_spec(items: Seq<RerollItem>) -> Seq<char> {
    dec(items.len()) + " 支："@ + dec(count_stale(items)) + " 重錄、"@ + dec(
        (items.len() - count_stale(items)) as nat,
    ) + " skip"@
}

pub fn plan_summary(items: &Vec<RerollItem>) -> (r: String)
    ensures
        r@ == plan_summary_spec(items@),
{
    let mut n: usize = 0;
    let mut i: usize = 0;
    while i < items.len()
        invariant
            i <= items.len(),
            n == count_stale(items@.take(i as int)),
            n <= i,
        decreases items.len() - i,
    {
        assert(items@.take(i + 1).drop_last() =~= items@.take(i as int));
        if items[i].stale {
            n += 1;
        }
        i += 1;
    }
    assert(items@.take(items.len() as int) =~= items@);
    let mut s = String::new();
    push_u64(&mut s, items.len() as u64);
    push_str(&mut s, " 支：");
    push_u64(&mut s, n as u64);
    push_str(&mut s, " 重錄、");
    push_u64(&mut s, (items.len() - n) as u64);
    push_str(&mut s, " skip");
    assert(s@ =~= plan_summary_spec(items@));
    s
}

/// Whether any of the parsed scripts records the real desktop.
pub fn batch_needs_desktop(scripts: &Vec<Script>) -> (r: bool)
    ensures
        r == exists|i: int| 0 <= i < scripts@.len() && resolved_engine(#[trigger] scripts@[i]@)
            == Engine::Native,
{
    let mut i: usize = 0;
    while i < scripts.len()
        invariant
            i <= scripts.len(),
            forall|k: int| 0 <= k < i ==> resolved_engine(#[trigger] scripts@[k]@) != Engine::Native,
        decreases scripts.len() - i,
    {
        if resolve_engine(&scripts[i]) == Engine::Native {
            return true;
        }
        i += 1;
    }
    false
}

// ───────────────────────── batch ─────────────────────────

/// A recording is written next to its target and moved over it only once
/// it succeeded.
pub open spec fn temp_path_spec(output: Seq<char>) -> Seq<char> {
    output + ".reroll-tmp"@
}

pub fn temp_path(output: &str) -> (r: String)
    ensures
        r@ == temp_path_spec(output@),
{
    with_suffix(output, ".reroll-tmp")
}

/// Counts of a batch.
#[derive(Debug, Clone, Copy, PartialEq, Eq, Structural)]
pub struct Stats {
    pub success: usize,
    pub failed: usize,
    pub skipped: usize,
}

/// A batch in progress: the lines written so far and the counts.
pub struct Batch {
    pub lines: Vec<String>,
    pub stats: Stats,
}

pub open spec fn lines_view(v: Seq<String>) -> Seq<Seq<char>> {
    v.map_values(|s: String| s@)
}

pub open spec fn success_line(roll: Seq<char>, output: Seq<char>) -> Seq<char> {
    "✅ "@ + roll + " → "@ + output
}

pub open spec fn failure_line(roll: Seq<char>, err: Seq<char>) -> Seq<char> {
    "❌ "@ + roll + " — "@ + err
}

pub open spec fn skip_line(roll: Seq<char>) -> Seq<char> {
    "⏭️ "@ + roll
}

pub open spec fn plan_failure_line(roll: Seq<char>, err: Seq<char>) -> Seq<char> {
    "❌ "@ + roll + " — 計畫失敗："@ + err
}

pub open spec fn summary_line(s: Stats) -> Seq<char> {
    "彙總："@ + dec(s.success as nat) + " 成功、"@ + dec(s.failed as nat) + " 失敗、"@ + dec(
        s.skipped as nat,
    ) + " skip"@
}

/// `nothing to do` closes a batch that only skipped.
pub open spec fn nothing_to_do(s: Stats) -> bool {
    s.success == 0 && s.failed == 0 && s.skipped > 0
}

/// What became of one script of a batch.
pub enum ScriptOutcome {
    /// Re-recorded and moved into place.
    Recorded,
    /// Planning, recording, moving or registering it failed.
    Failed,
    /// Its recording was current and kept.
    Skipped,
}

/// The counts after one more script.
pub open spec fn count_outcome(s: Stats, o: ScriptOutcome) -> Stats {
    match o {
        ScriptOutcome::Recorded => Stats { success: (s.success + 1) as usize, ..s },
        ScriptOutcome::Failed => Stats { failed: (s.failed + 1) as usize, ..s },
        ScriptOutcome::Skipped => Stats { skipped: (s.skipped + 1) as usize, ..s },
    }
}

/// The counts of a batch whose scripts came out as `os`, in order.
pub open spec fn batch_stats(os: Seq<ScriptOutcome>) -> Stats
    decreases os.len(),
{
    if os.len() == 0 {
        Stats { success: 0, failed: 0, skipped: 0 }
    } else {
        count_outcome(batch_stats(os.drop_last()), os.last())
    }
}

proof fn lemma_batch_counts(os: Seq<ScriptOutcome>)
    requires
        os.len() <= usize::MAX,
    ensures
        batch_stats(os).success + batch_stats(os).failed + batch_stats(os).skipped == os.len(),
        batch_stats(os).success == 0 <==> forall|i: int| 0 <= i < os.len() ==> !(os[i] is Recorded),
        batch_stats(os).failed == 0 <==> forall|i: int| 0 <= i < os.len() ==> !(os[i] is Failed),
    decreases os.len(),
{
    if os.len() > 0 {
        let pre = os.drop_last();
        lemma_batch_counts(pre);
        assert forall|i: int| 0 <= i < pre.len() implies pre[i] == os[i] by {}
        if batch_stats(os).success == 0 {
            assert forall|i: int| 0 <= i < os.len() implies !(os[i] is Recorded) by {
                if i < pre.len() {
                    assert(pre[i] == os[i]);
                }
            }
        }
        if batch_stats(os).failed == 0 {
            assert forall|i: int| 0 <= i < os.len() implies !(os[i] is Failed) by {
                if i < pre.len() {
                    assert(pre[i] == os[i]);
                }
            }
        }
        if forall|i: int| 0 <= i < os.len() ==> !(os[i] is Recorded) {
            assert(!(os[os.len() - 1] is Recorded));
        }
        if forall|i: int| 0 <= i < os.len() ==> !(os[i] is Failed) {
            assert(!(os[os.len() - 1] is Failed));
        }
    }
}

/// Every script of a batch is counted exactly once, as a success, a
/// failure or a skip; the batch fails exactly when some script failed; and
/// it closes with `nothing to do` exactly when there were scripts and every
/// one of them was skipped.
pub proof fn law_batch_counts_each_script_once(os: Seq<ScriptOutcome>)
    requires
        os.len() <= usize::MAX,
    ensures
        batch_stats(os).success + batch_stats(os).failed + batch_stats(os).skipped == os.len(),
        (batch_stats(os).failed > 0) <==> exists|i: int| 0 <= i < os.len() && os[i] is Failed,
        nothing_to_do(batch_stats(os)) <==> os.len() > 0 && forall|i: int|
            0 <= i < os.len() ==> os[i] is Skipped,
{
    lemma_batch_counts(os);
    if nothing_to_do(batch_stats(os)) {
        assert forall|i: int| 0 <= i < os.len() implies os[i] is Skipped by {
            assert(!(os[i] is Recorded));
            assert(!(os[i] is Failed));
        }
    }
    if os.len() > 0 && forall|i: int| 0 <= i < os.len() ==> os[i] is Skipped {
        assert(os[0] is Skipped);
    }
}

/// One script found by a batch: its path, its plan (or why it could not be
/// planned), and, for a stale one, how recording and moving it into place
/// went (`Ok` when it was not recorded).
pub struct ScriptRun {
    pub roll: String,
    pub plan: Result<RerollItem, String>,
    pub record: Result<(), String>,
}

pub open spec fn run_outcome(r: ScriptRun) -> ScriptOutcome {
    match r.plan {
        Err(_) => ScriptOutcome::Failed,
        Ok(item) => if !item.stale {
            ScriptOutcome::Skipped
        } else {
            match r.record {
                Ok(_) => ScriptOutcome::Recorded,
                Err(_) => ScriptOutcome::Failed,
            }
        },
    }
}

/// The line a script adds to the batch.
pub open spec fn run_line(r: ScriptRun) -> Seq<char> {
    match r.plan {
        Err(e) => plan_failure_line(r.roll@, e@),
        Ok(item) => if !item.stale {
            skip_line(item.roll@)
        } else {
            match r.record {
                Ok(_) => success_line(item.roll@, item.output@),
                Err(e) => failure_line(item.roll@, e@),
            }
        },
    }
}

/// The script was planned and its recording is current.
pub open spec fn kept(r: ScriptRun) -> bool {
    r.plan matches Ok(item) && !item.stale
}

pub open spec fn run_outcomes(rs: Seq<ScriptRun>) -> Seq<ScriptOutcome> {
    rs.map_values(|r: ScriptRun| run_outcome(r))
}

pub open spec fn run_lines(rs: Seq<ScriptRun>) -> Seq<Seq<char>> {
    rs.map_values(|r: ScriptRun| run_line(r))
}

/// Every script a batch found is counted exactly once, as a success, a
/// failure or a skip, and adds exactly one line; the batch fails exactly
/// when some script could not be planned, recorded or moved; and it closes
/// with `nothing to do` exactly when it found scripts and kept every
/// recording.
pub proof fn law_each_found_script_counted_once(rs: Seq<ScriptRun>)
    requires
        rs.len() <= usize::MAX,
    ensures
        run_lines(rs).len() == rs.len(),
        batch_stats(run_outcomes(rs)).success + batch_stats(run_outcomes(rs)).failed
            + batch_stats(run_outcomes(rs)).skipped == rs.len(),
        (batch_stats(run_outcomes(rs)).failed > 0) <==> exists|i: int|
            0 <= i < rs.len() && run_outcome(rs[i]) is Failed,
        nothing_to_do(batch_stats(run_outcomes(rs))) <==> rs.len() > 0 && forall|i: int|
            0 <= i < rs.len() ==> kept(#[trigger] rs[i]),
{
    let os = run_outcomes(rs);
    law_batch_counts_each_script_once(os);
    assert forall|i: int| 0 <= i < rs.len() implies os[i] == run_outcome(rs[i]) by {}
    if exists|i: int| 0 <= i < rs.len() && run_outcome(rs[i]) is Failed {
        let i = choose|i: int| 0 <= i < rs.len() && run_outcome(rs[i]) is Failed;
        assert(os[i] is Failed);
    }
    if exists|i: int| 0 <= i < os.len() && os[i] is Failed {
        let i = choose|i: int| 0 <= i < os.len() && os[i] is Failed;
        assert(run_outcome(rs[i]) is Failed);
    }
    if nothing_to_do(batch_stats(os)) {
        assert forall|i: int| 0 <= i < rs.len() implies kept(#[trigger] rs[i]) by {
            assert(os[i] is Skipped);
        }
    }
    if rs.len() > 0 && forall|i: int| 0 <= i < rs.len() ==> kept(#[trigger] rs[i]) {
        assert forall|i: int| 0 <= i < os.len() implies os[i] is Skipped by {
            assert(kept(rs[i]));
        }
    }
}

/// The closing lines of a batch.
pub open spec fn closing_lines(s: Stats) -> Seq<Seq<char>> {
    if nothing_to_do(s) {
        seq!["nothing to do"@, summary_line(s)]
    } else {
        seq![summary_line(s)]
    }
}

impl Batch {
    pub fn new() -> (b: Batch)
        ensures
            b.lines@.len() == 0,
            b.stats == (Stats { success: 0, failed: 0, skipped: 0 }),
    {
        Batch { lines: Vec::new(), stats: Stats { success: 0, failed: 0, skipped: 0 } }
    }

    fn push_line(&mut self, line: String)
        ensures
            lines_view(final(self).lines@) == lines_view(old(self).lines@).push(line@),
            final(self).stats == old(self).stats,
    {
        let ghost before = lines_view(self.lines@);
        self.lines.push(line);
        assert(lines_view(self.lines@) =~= before.push(line@));
    }

    /// A script was recorded and moved into place.
    pub fn recorded(&mut self, roll: &str, output: &str)
        requires
            old(self).stats.success < usize::MAX,
        ensures
            lines_view(final(self).lines@) == lines_view(old(self).lines@).push(
                success_line(roll@, output@),
            ),
            final(self).stats == count_outcome(old(self).stats, ScriptOutcome::Recorded),
    {
        let mut l = lit("✅ ");
        push_str(&mut l, roll);
        push_str(&mut l, " → ");
        push_str(&mut l, output);
        self.push_line(l);
        self.stats.success = self.stats.success + 1;
    }

    /// Recording, moving or registering a script failed.
    pub fn failed(&mut self, roll: &str, err: &str)
        requires
            old(self).stats.failed < usize::MAX,
        ensures
            lines_view(final(self).lines@) == lines_view(old(self).lines@).push(
                failure_line(roll@, err@),
            ),
            final(self).stats == count_outcome(old(self).stats, ScriptOutcome::Failed),
    {
        let mut l = lit("❌ ");
        push_str(&mut l, roll);
        push_str(&mut l, " — ");
        push_str(&mut l, err);
        self.push_line(l);
        self.stats.failed = self.stats.failed + 1;
    }

    /// A script could not be planned (it did not parse).
    pub fn plan_failed(&mut self, roll: &str, err: &str)
        requires
            old(self).stats.failed < usize::MAX,
        ensures
            lines_view(final(self).lines@) == lines_view(old(self).lines@).push(
                plan_failure_line(roll@, err@),
            ),
            final(self).stats == count_outcome(old(self).stats, ScriptOutcome::Failed),
    {
        let mut l = lit("❌ ");
        push_str(&mut l, roll);
        push_str(&mut l, " — 計畫失敗：");
        push_str(&mut l, err);
        self.push_line(l);
        self.stats.failed = self.stats.failed + 1;
    }

    /// A script's recording is current and was kept.
    pub fn skipped(&mut self, roll: &str)
        requires
            old(self).stats.skipped < usize::MAX,
        ensures
            lines_view(final(self).lines@) == lines_view(old(self).lines@).push(skip_line(roll@)),
            final(self).stats == count_outcome(old(self).stats, ScriptOutcome::Skipped),
    {
        let mut l = lit("⏭️ ");
        push_str(&mut l, roll);
        self.push_line(l);
        self.stats.skipped = self.stats.skipped + 1;
    }

    /// Counts one script found by the batch: the line and count its plan
    /// and, for a stale one, its recording call for.
    pub fn count_script(&mut self, run: &ScriptRun)
        requires
            old(self).stats.success < usize::MAX,
            old(self).stats.failed < usize::MAX,
            old(self).stats.skipped < usize::MAX,
        ensures
            lines_view(final(self).lines@) == lines_view(old(self).lines@).push(run_line(*run)),
            final(self).stats == count_outcome(old(self).stats, run_outcome(*run)),
    {
        match &run.plan {
            Err(e) => self.plan_failed(run.roll.as_str(), e.as_str()),
            Ok(item) => if !item.stale {
                self.skipped(item.roll.as_str());
            } else {
                match &run.record {
                    Ok(()) => self.recorded(item.roll.as_str(), item.output.as_str()),
                    Err(e) => self.failed(item.roll.as_str(), e.as_str()),
                }
            },
        }
    }

    /// A batch that has counted the scripts it found, one line and one
    /// count each, in order.
    pub fn from_scripts(runs: &Vec<ScriptRun>) -> (b: Batch)
        ensures
            lines_view(b.lines@) == run_lines(runs@),
            b.stats == batch_stats(run_outcomes(runs@)),
    {
        let mut b = Batch::new();
        let mut i: usize = 0;
        while i < runs.len()
            invariant
                i <= runs@.len(),
                lines_view(b.lines@) == run_lines(runs@.take(i as int)),
                b.stats == batch_stats(run_outcomes(runs@.take(i as int))),
            decreases runs.len() - i,
        {
            proof {
                lemma_batch_counts(run_outcomes(runs@.take(i as int)));
            }
            b.count_script(&runs[i]);
            proof {
                let pre = runs@.take(i as int);
                let next = runs@.take(i + 1);
                assert(next.drop_last() =~= pre);
                assert(run_outcomes(next).drop_last() =~= run_outcomes(pre));
                assert(run_outcomes(next).last() == run_outcome(runs@[i as int]));
                assert(run_lines(next) =~= run_lines(pre).push(run_line(runs@[i as int])));
            }
            i += 1;
        }
        assert(runs@.take(runs@.len() as int) =~= runs@);
        b
    }

    /// `--clean` found no orphan.
    pub fn no_orphans(&mut self)
        ensures
            lines_view(final(self).lines@) == lines_view(old(self).lines@).push("🧹 無孤兒資產"@),
            final(self).stats == old(self).stats,
    {
        self.push_line(lit("🧹 無孤兒資產"));
    }

    /// `--clean` handled an orphan (the removal's report).
    pub fn orphan_removed(&mut self, report: &str)
        ensures
            lines_view(final(self).lines@) == lines_view(old(self).lines@).push("🧹 "@ + report@),
            final(self).stats == old(self).stats,
    {
        let mut l = lit("🧹 ");
        push_str(&mut l, report);
        self.push_line(l);
    }

    /// `--clean` could not remove an orphan.
    pub fn orphan_failed(&mut self, err: &str)
        requires
            old(self).stats.failed < usize::MAX,
        ensures
            lines_view(final(self).lines@) == lines_view(old(self).lines@).push(
                "❌ 孤兒清理失敗 — "@ + err@,
            ),
            final(self).stats == (Stats { failed: (old(self).stats.failed + 1) as usize, ..old(self).stats }),
    {
        let mut l = lit("❌ 孤兒清理失敗 — ");
        push_str(&mut l, err);
        self.push_line(l);
        self.stats.failed = self.stats.failed + 1;
    }

    /// `--clean` could not scan for orphans.
    pub fn scan_failed(&mut self, err: &str)
        requires
            old(self).stats.failed < usize::MAX,
        ensures
            lines_view(final(self).lines@) == lines_view(old(self).lines@).push(
                "❌ 孤兒掃描失敗 — "@ + err@,
            ),
            final(self).stats == (Stats { failed: (old(self).stats.failed + 1) as usize, ..old(self).stats }),
    {
        let mut l = lit("❌ 孤兒掃描失敗 — ");
        push_str(&mut l, err);
        self.push_line(l);
        self.stats.failed = self.stats.failed + 1;
    }

    /// Close the batch: its lines, ending with `nothing to do` when it only
    /// skipped and the summary, and whether the command fails (some
    /// script failed).
    pub fn finish(self) -> (r: (Vec<String>, bool))
        ensures
            lines_view(r.0@) == lines_view(self.lines@) + closing_lines(self.stats),
            r.1 == (self.stats.failed > 0),
    {
        let stats = self.stats;
        let mut b = self;
        if stats.success == 0 && stats.failed == 0 && stats.skipped > 0 {
            b.push_line(lit("nothing to do"));
        }
        let mut l = lit("彙總：");
        push_u64(&mut l, stats.success as u64);
        push_str(&mut l, " 成功、");
        push_u64(&mut l, stats.failed as u64);
        push_str(&mut l, " 失敗、");
        push_u64(&mut l, stats.skipped as u64);
        push_str(&mut l, " skip");
        b.push_line(l);
        proof {
            reveal_strlit("nothing to do");
        }
        assert(lines_view(b.lines@) =~= lines_view(self.lines@) + closing_lines(stats));
        (b.lines, stats.failed > 0)
    }
}

/// The recording landed somewhere else than its target and must be moved.
pub fn needs_move(actual: &str, target: &str) -> (r: bool)
    ensures
        r == (actual@ != target@),
{
    let a = crate::text::chars_of(actual);
    let t = crate::text::chars_of(target);
    !crate::text::eq_chars(&a, &t)
}

} // verus!
