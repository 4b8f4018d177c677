//! Timeline of a recording: when each click and each typed text happens,
//! counted from the start of the recording by adding up the `Sleep`s
//! before it. Every `Sleep n` adds `n` seconds (saturating at `u64::MAX`
//! milliseconds for one sleep).

use vstd::prelude::*;

use crate::script::{commands_view, ClickType, CommandModel, Script, ScriptCommand};
use crate::text::{lit, push_str};

verus! {

/// One action and its time, in milliseconds from the start.
#[derive(Debug, Clone, PartialEq, Eq)]
pub struct TimelinePoint {
    pub ms: u64,
    pub command: String,
}

pub open spec fn point_view(p: TimelinePoint) -> (int, Seq<char>) {
    (p.ms as int, p.command@)
}

pub open spec fn points_view(ps: Seq<TimelinePoint>) -> Seq<(int, Seq<char>)> {
    ps.map_values(|p: TimelinePoint| point_view(p))
}

/// Milliseconds a command adds to the clock.
pub open spec fn clock_step(c: CommandModel) -> int {
    match c {
        CommandModel::Sleep(s) => if s * 1000 <= u64::MAX {
            s * 1000
        } else {
            u64::MAX as int
        },
        _ => 0,
    }
}

/// Total time the sleeps of `cs[i..]` add.
pub open spec fn clock_total(cs: Seq<CommandModel>, i: int) -> int
    decreases cs.len() - i,
{
    if i < 0 || i >= cs.len() {
        0
    } else {
        clock_step(cs[i]) + clock_total(cs, i + 1)
    }
}

pub open spec fn click_name(b: ClickType) -> Seq<char> {
    match b {
        ClickType::Left => "Left"@,
        ClickType::Right => "Right"@,
        ClickType::Middle => "Middle"@,
    }
}

/// The point a command produces at clock `ms`, if any.
pub open spec fn point_of(c: CommandModel, ms: int) -> Option<(int, Seq<char>)> {
    match c {
        CommandModel::Click(b) => Some((ms, "Click "@ + click_name(b))),
        CommandModel::Type(t) => Some((ms, "Type \""@ + t + "\""@)),
        _ => None,
    }
}

/// Points of `cs[i..]` with the clock at `ms` before `cs[i]`.
pub open spec fn timeline_from(cs: Seq<CommandModel>, i: int, ms: int) -> Seq<(int, Seq<char>)>
    decreases cs.len() - i,
{
    if i < 0 || i >= cs.len() {
        Seq::empty()
    } else {
        let ms2 = ms + clock_step(cs[i]);
        match point_of(cs[i], ms2) {
            Some(p) => seq![p] + timeline_from(cs, i + 1, ms2),
            None => timeline_from(cs, i + 1, ms2),
        }
    }
}

pub proof fn lemma_clock_step_nonneg(c: CommandModel)
    ensures
        0 <= clock_step(c) <= u64::MAX,
{
}

pub proof fn lemma_clock_total_nonneg(cs: Seq<CommandModel>, i: int)
    ensures
        clock_total(cs, i) >= 0,
    decreases cs.len() - i,
{
    if 0 <= i < cs.len() {
        lemma_clock_total_nonneg(cs, i + 1);
    }
}

fn step_ms(c: &ScriptCommand) -> (r: u64)
    ensures
        r as int == clock_step(c@),
{
    match c {
        ScriptCommand::Sleep(s) => if *s <= u64::MAX / 1000 {
            *s * 1000
        } else {
            u64::MAX
        },
        _ => 0,
    }
}

/// Whether the script's sleeps add up to at most `u64::MAX` milliseconds
/// (the condition of [`compute_timeline`]).
pub fn timeline_fits(script: &Script) -> (r: bool)
    ensures
        r == (clock_total(commands_view(script.commands@), 0) <= u64::MAX),
{
    let ghost cs = commands_view(script.commands@);
    let mut total: u64 = 0;
    let mut i: usize = 0;
    proof {
        lemma_clock_total_nonneg(cs, 0);
    }
    while i < script.commands.len()
        invariant
            i <= script.commands.len(),
            cs == commands_view(script.commands@),
            total as int + clock_total(cs, i as int) == clock_total(cs, 0),
        decreases script.commands.len() - i,
    {
        let c = &script.commands[i];
        assert(cs[i as int] == c@);
        proof {
            lemma_clock_total_nonneg(cs, i + 1);
        }
        let step = step_ms(c);
        if step > u64::MAX - total {
            return false;
        }
        total = total + step;
        i += 1;
    }
    true
}

/// Walks the commands, adding up the sleeps, and records each click and
/// each typed text at its time. The sleeps must fit in `u64` milliseconds.
pub fn compute_timeline(script: &Script) -> (points: Vec<TimelinePoint>)
    requires
        clock_total(commands_view(script.commands@), 0) <= u64::MAX,
    ensures
        points_view(points@) == timeline_from(commands_view(script.commands@), 0, 0),
{
    let ghost cs = commands_view(script.commands@);
    let mut ms: u64 = 0;
    let mut points: Vec<TimelinePoint> = Vec::new();
    let mut i: usize = 0;
    proof {
        lemma_clock_total_nonneg(cs, 0);
    }
    while i < script.commands.len()
        invariant
            i <= script.commands.len(),
            cs == commands_view(script.commands@),
            ms as int + clock_total(cs, i as int) == clock_total(cs, 0),
            clock_total(cs, 0) <= u64::MAX,
            points_view(points@) + timeline_from(cs, i as int, ms as int) == timeline_from(
                cs,
                0,
                0,
            ),
        decreases script.commands.len() - i,
    {
        let c = &script.commands[i];
        assert(cs[i as int] == c@);
        proof {
            lemma_clock_total_nonneg(cs, i + 1);
        }
        let step = step_ms(c);
        let ghost before = points_view(points@);
        ms = ms + step;
        match c {
            ScriptCommand::Click(b) => {
                let mut text = lit("Click ");
                match b {
                    ClickType::Left => push_str(&mut text, "Left"),
                    ClickType::Right => push_str(&mut text, "Right"),
                    ClickType::Middle => push_str(&mut text, "Middle"),
                }
                points.push(TimelinePoint { ms, command: text });
            },
            ScriptCommand::Type(t) => {
                let mut text = lit("Type \"");
                push_str(&mut text, t.as_str());
                push_str(&mut text, "\"");
                points.push(TimelinePoint { ms, command: text });
            },
            _ => {},
        }
        assert(points_view(points@) + timeline_from(cs, i + 1, ms as int) =~= before
            + timeline_from(cs, i as int, (ms - step) as int));
        i += 1;
    }
    assert(points_view(points@) =~= timeline_from(cs, 0, 0));
    points
}

/// Every point of `cs[i..]` is at or after the clock `ms`, and the points
/// come in time order.
proof fn lemma_timeline_ordered(cs: Seq<CommandModel>, i: int, ms: int)
    ensures
        forall|k: int|
            0 <= k < timeline_from(cs, i, ms).len() ==> #[trigger] timeline_from(cs, i, ms)[k].0 >= ms,
        forall|a: int, b: int|
            0 <= a <= b < timeline_from(cs, i, ms).len() ==> #[trigger] timeline_from(cs, i, ms)[a].0
                <= #[trigger] timeline_from(cs, i, ms)[b].0,
    decreases cs.len() - i,
{
    if 0 <= i < cs.len() {
        let ms2 = ms + clock_step(cs[i]);
        lemma_clock_step_nonneg(cs[i]);
        lemma_timeline_ordered(cs, i + 1, ms2);
        let rest = timeline_from(cs, i + 1, ms2);
        match point_of(cs[i], ms2) {
            Some(p) => {
                let t = seq![p] + rest;
                assert(t == timeline_from(cs, i, ms));
                assert forall|k: int| 0 <= k < t.len() implies #[trigger] t[k].0 >= ms by {
                    if k > 0 {
                        assert(t[k] == rest[k - 1]);
                    }
                }
                assert forall|a: int, b: int| 0 <= a <= b < t.len() implies #[trigger] t[a].0
                    <= #[trigger] t[b].0 by {
                    if b > 0 {
                        assert(t[b] == rest[b - 1]);
                        assert(rest[b - 1].0 >= ms2);
                        if a > 0 {
                            assert(t[a] == rest[a - 1]);
                        }
                    }
                }
            },
            None => {},
        }
    }
}

/// The operation timeline is in time order and starts no earlier than
/// the recording.
pub proof fn law_timeline_in_time_order(cs: Seq<CommandModel>)
    ensures
        forall|a: int, b: int|
            0 <= a <= b < timeline_from(cs, 0, 0).len() ==> #[trigger] timeline_from(cs, 0, 0)[a].0
                <= #[trigger] timeline_from(cs, 0, 0)[b].0,
        forall|k: int| 0 <= k < timeline_from(cs, 0, 0).len() ==> #[trigger] timeline_from(cs, 0, 0)[k].0 >= 0,
{
    lemma_timeline_ordered(cs, 0, 0);
}

/// A command that is put on the timeline: a click or typing.
pub open spec fn timed(c: CommandModel) -> bool {
    c is Click || c is Type
}

/// Number of timed commands in `cs[i..]`.
pub open spec fn timed_count(cs: Seq<CommandModel>, i: int) -> nat
    decreases cs.len() - i,
{
    if i < 0 || i >= cs.len() {
        0
    } else {
        (if timed(cs[i]) {
            1nat
        } else {
            0nat
        }) + timed_count(cs, i + 1)
    }
}

proof fn lemma_timeline_len(cs: Seq<CommandModel>, i: int, ms: int)
    requires
        0 <= i,
    ensures
        timeline_from(cs, i, ms).len() == timed_count(cs, i),
    decreases cs.len() - i,
{
    if i < cs.len() {
        lemma_timeline_len(cs, i + 1, ms + clock_step(cs[i]));
    }
}

/// The timeline has exactly one point per click and typing command; every
/// other command adds none.
pub proof fn law_one_point_per_timed_command(cs: Seq<CommandModel>)
    ensures
        timeline_from(cs, 0, 0).len() == timed_count(cs, 0),
{
    lemma_timeline_len(cs, 0, 0);
}

} // verus!
