//! What the engine asks the render surface to draw: one row per filtered
//! line, in order, with the selected row padded to the surface width so
//! its highlight forms a contiguous bar.

use vstd::prelude::*;
use vstd::string::StringExecFns;

verus! {

/// One row of the frame below the prompt: its text and whether it is the
/// highlighted selection row.
pub struct RenderRow {
    pub text: String,
    pub highlighted: bool,
}

/// `n` space characters.
pub open spec fn spaces(n: nat) -> Seq<char>
    decreases n,
{
    if n == 0 {
        Seq::empty()
    } else {
        spaces((n - 1) as nat).push(' ')
    }
}

/// `s` extended with spaces to width `w`; left alone if already that
/// wide.
pub open spec fn pad_spec(s: Seq<char>, w: int) -> Seq<char> {
    if s.len() >= w {
        s
    } else {
        s + spaces((w - s.len()) as nat)
    }
}

/// Pad a line with trailing spaces to the given width in characters.
pub fn pad_to_width(line: &str, width: usize) -> (r: String)
    ensures
        r@ == pad_spec(line@, width as int),
{
    let n = line.unicode_len();
    let mut r = line.to_owned();
    if n >= width {
        return r;
    }
    proof {
        assert(line@ + spaces(0) =~= line@);
    }
    let mut i = n;
    while i < width
        invariant
            n == line@.len(),
            n <= i <= width,
            r@ == line@ + spaces((i - n) as nat),
        decreases width - i,
    {
        r.append(" ");
        proof {
            reveal_strlit(" ");
            assert(" "@ =~= seq![' ']);
            assert(spaces((i + 1 - n) as nat) == spaces((i - n) as nat).push(' '));
            assert(spaces((i - n) as nat).push(' ') =~= spaces((i - n) as nat) + seq![' ']);
            assert((line@ + spaces((i - n) as nat)) + seq![' '] =~= line@ + spaces(
                (i + 1 - n) as nat,
            ));
        }
        i += 1;
    }
    r
}

} // verus!
