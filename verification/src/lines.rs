//! The line store: the input text is split once, at engine start, into an
//! immutable ordered sequence of lines. A line ends at a line feed; a
//! carriage return directly before the line feed is stripped with it. The
//! final line needs no terminator, and a terminator at the very end of the
//! text does not produce an extra empty line.

use vstd::prelude::*;

verus! {

/// Position of the first line feed in `s`, or `s.len()` if there is none.
pub open spec fn first_newline(s: Seq<char>) -> nat
    decreases s.len(),
{
    if s.len() == 0 {
        0
    } else if s[0] == '\n' {
        0
    } else {
        1 + first_newline(s.drop_first())
    }
}

/// A carriage return at the end of a terminated line is part of the
/// terminator and is removed.
pub open spec fn strip_cr(l: Seq<char>) -> Seq<char> {
    if l.len() > 0 && l.last() == '\r' {
        l.drop_last()
    } else {
        l
    }
}

/// The lines of `s`: split at each line feed, strip a carriage return
/// that directly precedes one, keep everything else.
pub open spec fn spec_lines(s: Seq<char>) -> Seq<Seq<char>>
    decreases s.len(),
{
    if s.len() == 0 {
        Seq::empty()
    } else {
        let i = first_newline(s) as int;
        if i >= s.len() {
            seq![s]
        } else {
            seq![strip_cr(s.take(i))] + spec_lines(s.skip(i + 1))
        }
    }
}

/// `first_newline` is the unique position `d` such that no line feed
/// occurs before `d` and either `d` is the end or a line feed stands at
/// `d`.
proof fn lemma_first_newline_is(s: Seq<char>, d: int)
    requires
        0 <= d <= s.len(),
        forall|j: int| 0 <= j < d ==> s[j] != '\n',
        d < s.len() ==> s[d] == '\n',
    ensures
        first_newline(s) == d,
    decreases s.len(),
{
    if s.len() == 0 {
    } else if s[0] == '\n' {
        assert(d == 0);
    } else {
        assert(d >= 1);
        lemma_first_newline_is(s.drop_first(), d - 1);
    }
}

/// Split `text` into its lines, as owned strings, in order.
pub fn split_lines(text: &str) -> (r: Vec<String>)
    ensures
        r.deep_view() == spec_lines(text@),
{
    let n = text.unicode_len();
    let mut r: Vec<String> = Vec::new();
    let mut pos: usize = 0;
    proof {
        assert(text@.skip(0) =~= text@);
        assert(r.deep_view() =~= Seq::<Seq<char>>::empty());
        assert(r.deep_view() + spec_lines(text@.skip(0)) =~= spec_lines(text@));
    }
    while pos < n
        invariant
            n == text@.len(),
            0 <= pos <= n,
            spec_lines(text@) == r.deep_view() + spec_lines(text@.skip(pos as int)),
        decreases n - pos,
    {
        let j = find_newline(text, pos, n);
        let ghost suffix = text@.skip(pos as int);
        proof {
            assert(forall|k: int| 0 <= k < suffix.len() ==> suffix[k] == text@[pos + k]);
            lemma_first_newline_is(suffix, j - pos);
        }
        let ghost r_pre = r.deep_view();
        if j == n {
            let seg = text.substring_char(pos, n);
            r.push(seg.to_owned());
            proof {
                assert(suffix =~= seg@);
                assert(spec_lines(suffix) == seq![suffix]);
                assert(r.deep_view() =~= r_pre + seq![suffix]);
                assert(text@.skip(n as int).len() == 0);
                assert(r.deep_view() + spec_lines(text@.skip(n as int)) =~= r.deep_view());
                assert((r_pre + seq![suffix]) =~= r_pre + spec_lines(suffix));
                assert(spec_lines(text@) == r.deep_view() + spec_lines(text@.skip(n as int)));
            }
            pos = n;
        } else {
            let mut line_end = j;
            if j > pos && text.get_char(j - 1) == '\r' {
                line_end = j - 1;
            }
            let seg = text.substring_char(pos, line_end);
            proof {
                let i = j - pos;
                assert(0 < suffix.len() && i < suffix.len());
                assert(suffix.take(i) =~= text@.subrange(pos as int, j as int));
                if j > pos && text@[j - 1] == '\r' {
                    assert(suffix.take(i).len() > 0 && suffix.take(i).last() == '\r');
                    assert(strip_cr(suffix.take(i)) =~= text@.subrange(
                        pos as int,
                        line_end as int,
                    ));
                } else {
                    assert(strip_cr(suffix.take(i)) =~= text@.subrange(
                        pos as int,
                        line_end as int,
                    ));
                }
                assert(strip_cr(suffix.take(i)) == seg@);
                assert(suffix.skip(i + 1) =~= text@.skip(j + 1));
                assert(spec_lines(suffix) == seq![seg@] + spec_lines(text@.skip(j + 1)));
            }
            r.push(seg.to_owned());
            proof {
                assert(r.deep_view() =~= r_pre + seq![seg@]);
                assert((r_pre + seq![seg@]) + spec_lines(text@.skip(j + 1)) =~= r_pre + (seq![seg@]
                    + spec_lines(text@.skip(j + 1))));
                assert(spec_lines(text@) == r.deep_view() + spec_lines(text@.skip(j + 1)));
            }
            pos = j + 1;
        }
    }
    proof {
        assert(text@.skip(pos as int).len() == 0);
        assert(r.deep_view() + spec_lines(text@.skip(pos as int)) =~= r.deep_view());
    }
    r
}

/// Scan forward from `from` to the first line feed, or to the end.
fn find_newline(text: &str, from: usize, n: usize) -> (j: usize)
    requires
        n == text@.len(),
        from <= n,
    ensures
        from <= j <= n,
        forall|k: int| from <= k < j ==> text@[k] != '\n',
        j < n ==> text@[j as int] == '\n',
{
    let mut j = from;
    loop
        invariant
            n == text@.len(),
            from <= j <= n,
            forall|k: int| from <= k < j ==> text@[k] != '\n',
        decreases n - j,
    {
        if j == n {
            return j;
        }
        if text.get_char(j) == '\n' {
            return j;
        }
        j += 1;
    }
}

} // verus!
