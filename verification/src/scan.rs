//! Reading the tables that `ffmpeg -encoders` and `ffmpeg -filters` print:
//! every line is a flags column, a name column, then a description.

use vstd::prelude::*;

use crate::text::{chars_of, split_lines, split_words, string_of, words};

verus! {

pub open spec fn strings_view(v: Seq<String>) -> Seq<Seq<char>> {
    v.map_values(|s: String| s@)
}

/// Which names a table line contributes.
#[derive(Debug, Clone, Copy, PartialEq, Eq, Structural)]
pub enum Pick {
    /// The second column of every line that has one.
    AnyName,
    /// The second column of lines whose flags start with `V` (video).
    Video,
    /// As `Video`, leaving out the legend line whose name column is `=`.
    VideoNoLegend,
}

pub open spec fn picked_name(l: Seq<char>, pick: Pick) -> Option<Seq<char>> {
    let ws = words(l);
    if ws.len() < 2 {
        None
    } else {
        match pick {
            Pick::AnyName => Some(ws[1]),
            Pick::Video => if ws[0][0] == 'V' {
                Some(ws[1])
            } else {
                None
            },
            Pick::VideoNoLegend => if ws[0][0] == 'V' && ws[1] != seq!['='] {
                Some(ws[1])
            } else {
                None
            },
        }
    }
}

/// Names picked from `ls[i..]`, in order.
pub open spec fn pick_from(ls: Seq<Seq<char>>, i: int, pick: Pick) -> Seq<Seq<char>>
    decreases ls.len() - i,
{
    if i < 0 || i >= ls.len() {
        Seq::empty()
    } else {
        match picked_name(ls[i], pick) {
            Some(n) => seq![n] + pick_from(ls, i + 1, pick),
            None => pick_from(ls, i + 1, pick),
        }
    }
}

/// Names picked from a whole table text.
pub open spec fn pick_names(text: Seq<char>, pick: Pick) -> Seq<Seq<char>> {
    pick_from(crate::text::lines(text), 0, pick)
}

fn picked_exec(l: &Vec<char>, pick: Pick) -> (r: Option<Vec<char>>)
    ensures
        match r {
            Some(n) => picked_name(l@, pick) == Some(n@),
            None => picked_name(l@, pick) is None,
        },
{
    let ws = split_words(l);
    assert(ws@.len() == words(l@).len());
    if ws.len() < 2 {
        return None;
    }
    assert(ws@.map_values(|w: Vec<char>| w@)[0] == ws@[0]@);
    assert(ws@.map_values(|w: Vec<char>| w@)[1] == ws@[1]@);
    let flags = &ws[0];
    let name = &ws[1];
    proof {
        // every word is non-empty
        lemma_words_nonempty(l@, 0);
    }
    assert(words(l@)[0].len() > 0);
    let video = flags[0] == 'V';
    match pick {
        Pick::AnyName => Some(slice_all(name)),
        Pick::Video => if video {
            Some(slice_all(name))
        } else {
            None
        },
        Pick::VideoNoLegend => {
            let legend = name.len() == 1 && name[0] == '=';
            assert(legend == (name@ == seq!['='])) by {
                if name@ == seq!['='] {
                    assert(name@[0] == '=');
                }
                if legend {
                    assert(name@ =~= seq!['=']);
                }
            }
            if video && !legend {
                Some(slice_all(name))
            } else {
                None
            }
        },
    }
}

fn slice_all(v: &Vec<char>) -> (r: Vec<char>)
    ensures
        r@ == v@,
{
    let r = crate::text::slice(v, 0, v.len());
    assert(r@ =~= v@);
    r
}

/// Every word `split_whitespace` yields has at least one character.
pub proof fn lemma_words_nonempty(s: Seq<char>, i: int)
    ensures
        forall|k: int| 0 <= k < crate::text::words_from(s, i).len() ==> (
        #[trigger] crate::text::words_from(s, i)[k]).len() > 0,
    decreases s.len() - i,
{
    if 0 <= i < s.len() {
        let a = crate::text::scan_ws(s, i, false);
        if a < s.len() {
            let b = crate::text::scan_ws(s, a, true);
            crate::text::lemma_scan_ws_bounds(s, i, false);
            crate::text::lemma_scan_ws_bounds(s, a, true);
            lemma_words_nonempty(s, b);
            let w = crate::text::words_from(s, i);
            assert(w == seq![s.subrange(a, b)] + crate::text::words_from(s, b));
            assert forall|k: int| 0 <= k < w.len() implies (#[trigger] w[k]).len() > 0 by {
                if k > 0 {
                    assert(w[k] == crate::text::words_from(s, b)[k - 1]);
                }
            }
        }
    }
}

/// Names in the second column of the table lines `pick` selects.
pub fn pick_table_names(text: &str, pick: Pick) -> (r: Vec<String>)
    ensures
        strings_view(r@) == pick_names(text@, pick),
{
    let t = chars_of(text);
    let ls = split_lines(&t);
    let ghost lm = crate::text::lines(text@);
    let mut r: Vec<String> = Vec::new();
    let mut i: usize = 0;
    while i < ls.len()
        invariant
            i <= ls.len(),
            lm == ls@.map_values(|l: Vec<char>| l@),
            strings_view(r@) + pick_from(lm, i as int, pick) == pick_from(lm, 0, pick),
        decreases ls.len() - i,
    {
        assert(lm[i as int] == ls@[i as int]@);
        let ghost before = strings_view(r@);
        match picked_exec(&ls[i], pick) {
            Some(n) => {
                r.push(string_of(&n));
            },
            None => {},
        }
        assert(strings_view(r@) + pick_from(lm, i + 1, pick) =~= before + pick_from(
            lm,
            i as int,
            pick,
        ));
        i += 1;
    }
    assert(strings_view(r@) =~= pick_from(lm, 0, pick));
    r
}

/// Whether a list holds a name.
pub open spec fn has_name(v: Seq<Seq<char>>, name: Seq<char>) -> bool {
    exists|i: int| 0 <= i < v.len() && v[i] == name
}

pub fn contains_name(v: &Vec<String>, name: &str) -> (r: bool)
    ensures
        r == has_name(strings_view(v@), name@),
{
    let n = chars_of(name);
    let ghost sv = strings_view(v@);
    let mut i: usize = 0;
    while i < v.len()
        invariant
            i <= v.len(),
            sv == strings_view(v@),
            n@ == name@,
            forall|k: int| 0 <= k < i ==> sv[k] != name@,
        decreases v.len() - i,
    {
        let c = crate::text::chars(&v[i]);
        assert(sv[i as int] == v@[i as int]@);
        if crate::text::eq_chars(&c, &n) {
            assert(sv[i as int] == name@);
            assert(has_name(sv, name@));
            return true;
        }
        assert(sv[i as int] != name@);
        i += 1;
    }
    false
}

} // verus!
