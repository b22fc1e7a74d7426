//! The matcher: decides which lines of the line store satisfy the current
//! query under the current matching mode, preserving original line order.

use vstd::prelude::*;

use crate::pattern::CompiledPattern;
use crate::pattern::compile;
use crate::pattern::regex_accepted;
use crate::pattern::regex_matches;

verus! {

/// The two matching semantics: literal substring containment, or a regular
/// expression searched anywhere in the line.
#[derive(Clone, Copy, Debug, PartialEq, Eq, Structural)]
pub enum Mode {
    Literal,
    Pattern,
}

/// `q` occurs in `line` as a contiguous substring (character-exact,
/// case-sensitive). The empty sequence occurs in every line.
pub open spec fn literal_contains(line: Seq<char>, q: Seq<char>) -> bool {
    exists|i: int|
        0 <= i <= line.len() - q.len() && #[trigger] line.subrange(i, i + q.len() as int) == q
}

/// Whether the characters of `line` starting at `at` are exactly `q`.
fn matches_at(line: &str, q: &str, at: usize) -> (r: bool)
    requires
        at + q@.len() <= line@.len(),
    ensures
        r == (line@.subrange(at as int, at + q@.len() as int) == q@),
{
    let n = line.unicode_len();
    let m = q.unicode_len();
    let mut j: usize = 0;
    while j < m
        invariant
            n == line@.len(),
            m == q@.len(),
            at + m <= n,
            0 <= j <= m,
            forall|k: int| 0 <= k < j ==> line@[at + k] == q@[k],
        decreases m - j,
    {
        if line.get_char(at + j) != q.get_char(j) {
            assert(line@.subrange(at as int, at + q@.len() as int)[j as int] != q@[j as int]);
            return false;
        }
        j += 1;
    }
    assert(line@.subrange(at as int, at + q@.len() as int) =~= q@);
    true
}

/// Literal-mode test for one line: does `line` contain `q` as a substring?
pub fn contains_query(line: &str, q: &str) -> (r: bool)
    ensures
        r == literal_contains(line@, q@),
{
    let n = line.unicode_len();
    let m = q.unicode_len();
    if m > n {
        return false;
    }
    if m == 0 {
        assert(literal_contains(line@, q@)) by {
            assert(line@.subrange(0, 0 + q@.len() as int) =~= q@);
        }
        return true;
    }
    let end = n - m;
    let mut i: usize = 0;
    while i <= end
        invariant
            n == line@.len(),
            m == q@.len(),
            0 < m <= n,
            end == n - m,
            0 <= i <= end + 1,
            forall|k: int|
                0 <= k < i ==> #[trigger] line@.subrange(k, k + q@.len() as int) != q@,
        decreases end + 1 - i,
    {
        if matches_at(line, q, i) {
            return true;
        }
        i += 1;
    }
    false
}

/// Whether one line satisfies the query under the given mode. In pattern
/// mode a query that does not compile matches no line at all: filtering
/// fails soft instead of ending the session.
pub open spec fn line_matches(line: Seq<char>, q: Seq<char>, mode: Mode) -> bool {
    match mode {
        Mode::Literal => literal_contains(line, q),
        Mode::Pattern => regex_accepted(q) && regex_matches(q, line),
    }
}

/// The indices, in increasing order, of the lines that satisfy the query
/// under the given mode. This is the mathematical meaning of filtering:
/// an order-preserving subset of the line indices.
pub open spec fn matching_indices(lines: Seq<Seq<char>>, q: Seq<char>, mode: Mode) -> Seq<int>
    decreases lines.len(),
{
    if lines.len() == 0 {
        Seq::empty()
    } else if line_matches(lines.last(), q, mode) {
        matching_indices(lines.drop_last(), q, mode).push(lines.len() - 1)
    } else {
        matching_indices(lines.drop_last(), q, mode)
    }
}

proof fn lemma_matching_indices_step(lines: Seq<Seq<char>>, q: Seq<char>, mode: Mode, x: Seq<char>)
    ensures
        matching_indices(lines.push(x), q, mode) == if line_matches(x, q, mode) {
            matching_indices(lines, q, mode).push(lines.len() as int)
        } else {
            matching_indices(lines, q, mode)
        },
{
    assert(lines.push(x).drop_last() =~= lines);
    assert(lines.push(x).last() == x);
}

/// The filtered set is a faithful, order-preserving selection: every index
/// it holds is an index of a matching line, the indices are strictly
/// increasing (so original relative order is preserved and no index
/// repeats), and every matching line's index is included — equivalently,
/// a line whose index is absent does not match.
pub proof fn lemma_matching_indices_correct(lines: Seq<Seq<char>>, q: Seq<char>, mode: Mode)
    ensures
        ({
            let r = matching_indices(lines, q, mode);
            &&& forall|k: int|
                0 <= k < r.len() ==> 0 <= #[trigger] r[k] < lines.len() && line_matches(
                    lines[r[k]],
                    q,
                    mode,
                )
            &&& forall|k1: int, k2: int| 0 <= k1 < k2 < r.len() ==> r[k1] < r[k2]
            &&& forall|i: int|
                0 <= i < lines.len() && line_matches(lines[i], q, mode) ==> r.contains(i)
        }),
    decreases lines.len(),
{
    if lines.len() > 0 {
        let prev = lines.drop_last();
        let r0 = matching_indices(prev, q, mode);
        let r = matching_indices(lines, q, mode);
        lemma_matching_indices_correct(prev, q, mode);
        assert(forall|k: int| 0 <= k < prev.len() ==> prev[k] == lines[k]);
        assert forall|i: int|
            0 <= i < lines.len() && line_matches(lines[i], q, mode) implies r.contains(i) by {
            if i < lines.len() - 1 {
                assert(r0.contains(i));
                let k = choose|k: int| 0 <= k < r0.len() && r0[k] == i;
                assert(r[k] == i);
            } else {
                assert(lines.last() == lines[i]);
                assert(r[r.len() - 1] == i);
            }
        }
    }
}

/// An invalid pattern selects nothing: when the query does not compile as
/// a regular expression, pattern-mode filtering yields the empty sequence
/// whatever the lines are.
pub proof fn lemma_invalid_pattern_selects_nothing(lines: Seq<Seq<char>>, q: Seq<char>)
    requires
        !regex_accepted(q),
    ensures
        matching_indices(lines, q, Mode::Pattern) == Seq::<int>::empty(),
    decreases lines.len(),
{
    if lines.len() > 0 {
        lemma_invalid_pattern_selects_nothing(lines.drop_last(), q);
    }
}

/// Filtering is a pure function of the lines, the query and the mode:
/// recomputing it with all three unchanged yields an identical result.
pub proof fn lemma_refilter_identical(
    lines: Seq<Seq<char>>,
    q: Seq<char>,
    mode: Mode,
    r1: Seq<int>,
    r2: Seq<int>,
)
    requires
        r1 == matching_indices(lines, q, mode),
        r2 == matching_indices(lines, q, mode),
    ensures
        r1 == r2,
{
}

/// Filter the line store: return the indices, in increasing order, of the
/// lines that satisfy `query` under `mode`. The empty query keeps every
/// line, in literal mode because every line contains the empty substring,
/// in pattern mode because the empty pattern matches everywhere.
pub fn search(lines: &Vec<String>, query: &str, mode: Mode) -> (r: Vec<usize>)
    ensures
        r@.map_values(|u: usize| u as int) == matching_indices(lines.deep_view(), query@, mode),
        query@.len() == 0 ==> r@.len() == lines@.len(),
{
    let mut out: Vec<usize> = Vec::new();
    let pat: Option<CompiledPattern>;
    match mode {
        Mode::Literal => {
            pat = None;
        },
        Mode::Pattern => {
            match compile(query) {
                Some(cp) => {
                    pat = Some(cp);
                },
                None => {
                    proof {
                        lemma_invalid_pattern_selects_nothing(lines.deep_view(), query@);
                        assert(out@.map_values(|u: usize| u as int) =~= Seq::<int>::empty());
                    }
                    return out;
                },
            }
        },
    }
    let ghost lv = lines.deep_view();
    let mut i: usize = 0;
    while i < lines.len()
        invariant
            lv == lines.deep_view(),
            lv.len() == lines.len(),
            0 <= i <= lines.len(),
            out@.map_values(|u: usize| u as int) == matching_indices(lv.take(i as int), query@, mode),
            query@.len() == 0 ==> out@.len() == i,
            mode == Mode::Literal ==> pat is None,
            mode == Mode::Pattern ==> (pat matches Some(cp) && cp@ == query@ && regex_accepted(
                query@,
            )),
        decreases lines.len() - i,
    {
        let line: &String = &lines[i];
        assert(lv[i as int] == line@);
        let hit: bool = match &pat {
            None => {
                let h = contains_query(line.as_str(), query);
                proof {
                    if query@.len() == 0 {
                        assert(line@.subrange(0, 0 + query@.len() as int) =~= query@);
                        assert(h);
                    }
                }
                h
            },
            Some(cp) => cp.is_match(line.as_str()),
        };
        assert(hit == line_matches(lv[i as int], query@, mode));
        assert(query@.len() == 0 ==> hit);
        proof {
            lemma_matching_indices_step(lv.take(i as int), query@, mode, lv[i as int]);
            assert(lv.take(i + 1) =~= lv.take(i as int).push(lv[i as int]));
        }
        let ghost out_pre = out@;
        if hit {
            out.push(i);
            proof {
                assert(out@.map_values(|u: usize| u as int) =~= out_pre.map_values(
                    |u: usize| u as int,
                ).push(i as int));
            }
        }
        i += 1;
    }
    proof {
        assert(lv.take(lines.len() as int) =~= lv);
    }
    out
}

} // verus!
