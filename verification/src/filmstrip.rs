//! Filmstrip: pick moments of a recording, grab one frame at each, and lay
//! the frames side by side with white gaps.

use vstd::prelude::*;

use crate::dispatcher::pad3;
use crate::ffmpeg::push_arg;
use crate::fspath::{file_stem, join, join_path, path_file_stem};
use crate::scan::strings_view;
use crate::text::{dec, lit, push_str, push_u64};

verus! {

/// Moments closer than this to the previous kept one are merged (ms).
pub const MERGE_MS: u64 = 500;

/// Gap between frames (px).
pub const PAD_PX: u32 = 12;

/// Options of `filmstrip`.
#[derive(Debug, Clone)]
pub struct FilmstripOptions {
    /// The recording.
    pub input: String,
    /// `.roll` script the moments are taken from.
    pub roll: Option<String>,
    /// At most this many moments.
    pub count: usize,
    /// PNG to write.
    pub output: String,
    pub dry_run: bool,
}

pub open spec fn sorted(s: Seq<u64>) -> bool {
    forall|i: int, j: int| 0 <= i <= j < s.len() ==> s[i] <= s[j]
}

/// The values of `v` in ascending order (insertion sort).
fn sort_u64(v: &Vec<u64>) -> (r: Vec<u64>)
    ensures
        r@.to_multiset() == v@.to_multiset(),
        sorted(r@),
{
    broadcast use vstd::seq_lib::to_multiset_build, vstd::seq_lib::to_multiset_insert;

    let mut r: Vec<u64> = Vec::new();
    let mut i: usize = 0;
    assert(v@.take(0) =~= Seq::<u64>::empty());
    while i < v.len()
        invariant
            i <= v.len(),
            sorted(r@),
            r@.to_multiset() == v@.take(i as int).to_multiset(),
        decreases v.len() - i,
    {
        let x = v[i];
        let mut k: usize = 0;
        while k < r.len() && r[k] <= x
            invariant
                k <= r.len(),
                forall|j: int| 0 <= j < k ==> r@[j] <= x,
            decreases r.len() - k,
        {
            k += 1;
        }
        let ghost before = r@;
        r.insert(k, x);
        proof {
            before.insert_ensures(k as int, x);
            assert(r@ =~= before.insert(k as int, x));
            assert forall|a: int, b: int| 0 <= a <= b < r@.len() implies r@[a] <= r@[b] by {
                if b < k {
                } else if a > k {
                    assert(r@[a] == before[a - 1] && r@[b] == before[b - 1]);
                } else if a == k && b > k {
                    assert(r@[b] == before[b - 1]);
                    assert(k < before.len() && !(before[k as int] <= x));
                    assert(before[k as int] <= before[b - 1]);
                } else if a < k && b == k {
                } else if a < k && b > k {
                    assert(r@[b] == before[b - 1]);
                    assert(before[a] <= before[b - 1]);
                }
            }
            assert(v@.take(i + 1) =~= v@.take(i as int).push(x));
            vstd::seq_lib::to_multiset_insert(before, k as int, x);
            vstd::seq_lib::to_multiset_build(v@.take(i as int), x);
        }
        i += 1;
    }
    assert(v@.take(v.len() as int) =~= v@);
    r
}

/// Keeps the first of every run of moments that lie less than
/// [`MERGE_MS`] after the previously kept one (input in ascending order).
pub open spec fn merge_from(ps: Seq<u64>, i: int, last: Option<u64>) -> Seq<u64>
    decreases ps.len() - i,
{
    if i < 0 || i >= ps.len() {
        Seq::empty()
    } else {
        match last {
            Some(l) => if ps[i] - l < MERGE_MS {
                merge_from(ps, i + 1, last)
            } else {
                seq![ps[i]] + merge_from(ps, i + 1, Some(ps[i]))
            },
            None => seq![ps[i]] + merge_from(ps, i + 1, Some(ps[i])),
        }
    }
}

pub open spec fn at_least_one(count: usize) -> nat {
    if count == 0 {
        1
    } else {
        count as nat
    }
}

/// The moments kept from sorted input: merged, then at most `max(count, 1)`.
pub open spec fn kept_moments(sorted_points: Seq<u64>, count: usize) -> Seq<u64> {
    let m = merge_from(sorted_points, 0, None);
    if m.len() <= at_least_one(count) {
        m
    } else {
        m.take(at_least_one(count) as int)
    }
}

/// Sorts the moments, merges those closer than [`MERGE_MS`] to the kept one
/// before them, and keeps at most `max(count, 1)`.
pub fn merge_points(points: Vec<u64>, count: usize) -> (r: Vec<u64>)
    ensures
        exists|s: Seq<u64>|
            #![trigger sorted(s)]
            sorted(s) && s.to_multiset() == points@.to_multiset() && r@ == kept_moments(s, count),
{
    let ps = sort_u64(&points);
    let ghost s = ps@;
    let mut merged: Vec<u64> = Vec::new();
    let mut last: Option<u64> = None;
    let mut i: usize = 0;
    while i < ps.len()
        invariant
            i <= ps.len(),
            s == ps@,
            sorted(s),
            merged@ + merge_from(s, i as int, last) == merge_from(s, 0, None),
            last is Some ==> last->0 <= (if i > 0 { s[i - 1] } else { 0 }),
            last is None ==> i == 0,
        decreases ps.len() - i,
    {
        let p = ps[i];
        let ghost before = merged@;
        let ghost old_last = last;
        let skip = match last {
            Some(l) => p - l < MERGE_MS,
            None => false,
        };
        if !skip {
            merged.push(p);
            last = Some(p);
        }
        assert(merged@ + merge_from(s, i + 1, last) =~= before + merge_from(s, i as int, old_last));
        i += 1;
    }
    assert(merged@ =~= merge_from(s, 0, None));
    let keep: usize = if count == 0 {
        1
    } else {
        count
    };
    if merged.len() > keep {
        merged.truncate(keep);
    }
    assert(merged@ =~= kept_moments(s, count));
    merged
}

/// Law: kept moments are at least [`MERGE_MS`] apart, each one after the
/// one before it, and all of them at least [`MERGE_MS`] after `last`.
pub proof fn law_merged_moments_spread(ps: Seq<u64>, i: int, last: Option<u64>)
    requires
        0 <= i <= ps.len(),
    ensures
        ({
            let m = merge_from(ps, i, last);
            &&& forall|k: int| 0 <= k < m.len() - 1 ==> m[k] + MERGE_MS <= #[trigger] m[k + 1]
            &&& last matches Some(l) ==> forall|k: int|
                0 <= k < m.len() ==> l + MERGE_MS <= #[trigger] m[k]
        }),
    decreases ps.len() - i,
{
    if i < ps.len() {
        let kept = match last {
            Some(l) => !(ps[i] - l < MERGE_MS),
            None => true,
        };
        let m = merge_from(ps, i, last);
        if kept {
            law_merged_moments_spread(ps, i + 1, Some(ps[i]));
            let rest = merge_from(ps, i + 1, Some(ps[i]));
            assert(m == seq![ps[i]] + rest);
            assert forall|k: int| 0 <= k < m.len() - 1 implies m[k] + MERGE_MS <= #[trigger] m[k
                + 1] by {
                assert(m[k + 1] == rest[k]);
                if k > 0 {
                    assert(m[k] == rest[k - 1]);
                    assert(rest[k - 1] + MERGE_MS <= rest[(k - 1) + 1]);
                } else {
                    assert(ps[i] + MERGE_MS <= rest[0]);
                }
            }
            if let Some(l) = last {
                assert forall|k: int| 0 <= k < m.len() implies l + MERGE_MS <= #[trigger] m[k] by {
                    if k > 0 {
                        assert(m[k] == rest[k - 1]);
                    }
                }
            }
        } else {
            law_merged_moments_spread(ps, i + 1, last);
            assert(m == merge_from(ps, i + 1, last));
        }
    }
}

/// Evenly spaced moments when nothing better is known:
/// `dur * i / n` for `i` in `0..n`, `n = max(count, 1)`.
pub open spec fn even_spec(dur_ms: u64, count: usize) -> Seq<u64> {
    let n = at_least_one(count);
    Seq::new(n, |i: int| ((dur_ms as int * i) / n as int) as u64)
}

pub fn even_points(dur_ms: u64, count: usize) -> (r: Vec<u64>)
    ensures
        r@ == even_spec(dur_ms, count),
{
    let n: usize = if count == 0 {
        1
    } else {
        count
    };
    let mut r: Vec<u64> = Vec::new();
    let mut i: usize = 0;
    while i < n
        invariant
            i <= n,
            n == at_least_one(count),
            r@ =~= even_spec(dur_ms, count).take(i as int),
        decreases n - i,
    {
        proof {
            lemma_scaled_fits(dur_ms as int, i as int, n as int);
            assert(u64::MAX as int * u64::MAX as int <= u128::MAX);
        }
        let v = (dur_ms as u128 * i as u128) / n as u128;
        r.push(v as u64);
        i += 1;
    }
    r
}

proof fn lemma_scaled_fits(d: int, i: int, n: int)
    requires
        0 <= d <= u64::MAX,
        0 <= i < n,
        n <= usize::MAX,
    ensures
        0 <= d * i <= d * n,
        (d * i) / n <= d,
        d * i <= u64::MAX as int * u64::MAX as int,
{
    assert(d * i <= d * n) by (nonlinear_arith)
        requires
            0 <= d,
            0 <= i < n,
    ;
    assert(0 <= d * i) by (nonlinear_arith)
        requires
            0 <= d,
            0 <= i,
    ;
    assert((d * i) / n <= d) by (nonlinear_arith)
        requires
            0 <= d * i <= d * n,
            n > 0,
            0 <= d,
    ;
    assert(d * i <= u64::MAX as int * u64::MAX as int) by (nonlinear_arith)
        requires
            0 <= d <= u64::MAX,
            0 <= i <= u64::MAX,
    ;
}

/// `[k:v]pad=...` chain and `hstack` over `n` frames: all but the last
/// frame get a gap on the right and below, the last only below.
pub open spec fn pad_part(i: nat, n: nat) -> Seq<char> {
    if i + 1 < n {
        "["@ + dec(i) + ":v]pad=iw+"@ + dec(PAD_PX as nat) + ":ih+"@ + dec(PAD_PX as nat)
            + ":0:0:white[pad"@ + dec(i) + "];"@
    } else {
        "["@ + dec(i) + ":v]pad=iw:ih+"@ + dec(PAD_PX as nat) + ":0:0:white[pad"@ + dec(i)
            + "];"@
    }
}

pub open spec fn pads(n: nat, k: nat) -> Seq<char>
    decreases k,
{
    if k == 0 {
        Seq::empty()
    } else {
        pads(n, (k - 1) as nat) + pad_part((k - 1) as nat, n)
    }
}

pub open spec fn labels(k: nat) -> Seq<char>
    decreases k,
{
    if k == 0 {
        Seq::empty()
    } else {
        labels((k - 1) as nat) + "[pad"@ + dec((k - 1) as nat) + "]"@
    }
}

pub open spec fn hstack_spec(n: nat) -> Seq<char> {
    pads(n, n) + labels(n) + "hstack=inputs="@ + dec(n) + "[out]"@
}

pub fn build_hstack_filter(n: usize) -> (r: String)
    ensures
        r@ == hstack_spec(n as nat),
{
    let mut fc = String::new();
    let mut i: usize = 0;
    while i < n
        invariant
            i <= n,
            fc@ == pads(n as nat, i as nat),
        decreases n - i,
    {
        let ghost before = fc@;
        push_str(&mut fc, "[");
        push_u64(&mut fc, i as u64);
        if i + 1 < n {
            push_str(&mut fc, ":v]pad=iw+");
            push_u64(&mut fc, PAD_PX as u64);
            push_str(&mut fc, ":ih+");
            push_u64(&mut fc, PAD_PX as u64);
            push_str(&mut fc, ":0:0:white[pad");
        } else {
            push_str(&mut fc, ":v]pad=iw:ih+");
            push_u64(&mut fc, PAD_PX as u64);
            push_str(&mut fc, ":0:0:white[pad");
        }
        push_u64(&mut fc, i as u64);
        push_str(&mut fc, "];");
        assert(fc@ =~= before + pad_part(i as nat, n as nat));
        i += 1;
    }
    let ghost p = fc@;
    let mut j: usize = 0;
    while j < n
        invariant
            j <= n,
            p == pads(n as nat, n as nat),
            fc@ == p + labels(j as nat),
        decreases n - j,
    {
        push_str(&mut fc, "[pad");
        push_u64(&mut fc, j as u64);
        push_str(&mut fc, "]");
        j += 1;
        assert(fc@ =~= p + labels(j as nat));
    }
    push_str(&mut fc, "hstack=inputs=");
    push_u64(&mut fc, n as u64);
    push_str(&mut fc, "[out]");
    assert(fc@ =~= hstack_spec(n as nat));
    fc
}

/// Timeline log of a recording: `<state>/<input stem>.timeline.jsonl`.
pub open spec fn state_jsonl_spec(state: Seq<char>, input: Seq<char>) -> Seq<char> {
    let stem = match file_stem(input) {
        Some(s) => s,
        None => "recording"@,
    };
    join(state, stem + ".timeline.jsonl"@)
}

pub fn state_jsonl_path(state_dir: &str, input: &str) -> (r: String)
    ensures
        r@ == state_jsonl_spec(state_dir@, input@),
{
    let mut name = match path_file_stem(input) {
        Some(s) => s,
        None => lit("recording"),
    };
    push_str(&mut name, ".timeline.jsonl");
    join_path(state_dir, name.as_str())
}

/// Scratch directory of grabbed frames: `<cache>/frames/filmstrip`.
pub fn frames_dir(cache_dir: &str) -> (r: String)
    ensures
        r@ == join(join(cache_dir@, "frames"@), "filmstrip"@),
{
    let f = join_path(cache_dir, "frames");
    join_path(f.as_str(), "filmstrip")
}

/// Seconds with three decimals, as `{:.3}` prints `ms / 1000`.
pub open spec fn seconds3(ms: u64) -> Seq<char> {
    dec((ms / 1000) as nat) + "."@ + pad3((ms % 1000) as nat)
}

/// The i-th grabbed frame: `<dir>/f<iii>.png`.
pub open spec fn frame_path_spec(dir: Seq<char>, i: nat) -> Seq<char> {
    join(dir, "f"@ + pad3(i) + ".png"@)
}

pub fn frame_path(dir: &str, i: usize) -> (r: String)
    ensures
        r@ == frame_path_spec(dir@, i as nat),
{
    let mut name = lit("f");
    if i < 10 {
        push_str(&mut name, "00");
    } else if i < 100 {
        push_str(&mut name, "0");
    }
    push_u64(&mut name, i as u64);
    push_str(&mut name, ".png");
    assert(name@ =~= "f"@ + pad3(i as nat) + ".png"@);
    join_path(dir, name.as_str())
}

/// `ffmpeg` arguments grabbing the frame at `ms` into `out`.
pub open spec fn extract_frame_spec(input: Seq<char>, ms: u64, out: Seq<char>) -> Seq<Seq<char>> {
    seq!["-y"@, "-ss"@, seconds3(ms), "-i"@, input, "-frames:v"@, "1"@, out]
}

pub fn extract_frame_args(input: &str, ms: u64, out: &str) -> (r: Vec<String>)
    ensures
        strings_view(r@) == extract_frame_spec(input@, ms, out@),
{
    let mut secs = String::new();
    push_u64(&mut secs, ms / 1000);
    push_str(&mut secs, ".");
    let frac = ms % 1000;
    if frac < 10 {
        push_str(&mut secs, "00");
    } else if frac < 100 {
        push_str(&mut secs, "0");
    }
    push_u64(&mut secs, frac);
    assert(secs@ =~= seconds3(ms));
    let mut v: Vec<String> = Vec::new();
    push_arg(&mut v, "-y");
    push_arg(&mut v, "-ss");
    crate::ffmpeg::push_arg_string(&mut v, secs);
    push_arg(&mut v, "-i");
    push_arg(&mut v, input);
    push_arg(&mut v, "-frames:v");
    push_arg(&mut v, "1");
    push_arg(&mut v, out);
    assert(strings_view(v@) =~= extract_frame_spec(input@, ms, out@));
    v
}

/// `ffmpeg` arguments joining the frames into one strip.
pub open spec fn inputs_spec(frames: Seq<Seq<char>>, k: nat) -> Seq<Seq<char>>
    decreases k,
{
    if k == 0 || k > frames.len() {
        Seq::empty()
    } else {
        inputs_spec(frames, (k - 1) as nat) + seq!["-i"@, frames[k - 1]]
    }
}

pub open spec fn hstack_args_spec(frames: Seq<Seq<char>>, output: Seq<char>) -> Seq<Seq<char>> {
    seq!["-y"@] + inputs_spec(frames, frames.len()) + seq![
        "-filter_complex"@,
        hstack_spec(frames.len()),
        "-map"@,
        "[out]"@,
        output,
    ]
}

pub fn hstack_args(frames: &Vec<String>, output: &str) -> (r: Vec<String>)
    ensures
        strings_view(r@) == hstack_args_spec(strings_view(frames@), output@),
{
    let ghost fv = strings_view(frames@);
    let mut v: Vec<String> = Vec::new();
    push_arg(&mut v, "-y");
    let mut i: usize = 0;
    while i < frames.len()
        invariant
            i <= frames.len(),
            fv == strings_view(frames@),
            strings_view(v@) == seq!["-y"@] + inputs_spec(fv, i as nat),
        decreases frames.len() - i,
    {
        push_arg(&mut v, "-i");
        push_arg(&mut v, frames[i].as_str());
        assert(fv[i as int] == frames@[i as int]@);
        i += 1;
        assert(strings_view(v@) =~= seq!["-y"@] + inputs_spec(fv, i as nat));
    }
    push_arg(&mut v, "-filter_complex");
    let fc = build_hstack_filter(frames.len());
    crate::ffmpeg::push_arg_string(&mut v, fc);
    push_arg(&mut v, "-map");
    push_arg(&mut v, "[out]");
    push_arg(&mut v, output);
    assert(strings_view(v@) =~= hstack_args_spec(fv, output@));
    v
}

} // verus!
