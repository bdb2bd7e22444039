//! A fixed-width progress bar: brackets around eleven glyph cells, one of
//! which is a marker placed according to a 0-100 percentage.

use vstd::prelude::*;
use vstd::string::StringExecFns;

verus! {

/// The rendered bar for a percentage: `[`, p / 10 line glyphs, the marker,
/// the remaining line glyphs, `]`.
pub open spec fn progress_seq(p: nat) -> Seq<char>
    recommends
        p <= 100,
{
    seq!['['] + Seq::new(p / 10, |i| '─') + seq!['◼'] + Seq::new((10 - p / 10) as nat, |i| '─')
        + seq![']']
}

pub(crate) fn repeat_dash(n: usize) -> (r: String)
    ensures
        r@ == Seq::new(n as nat, |i| '─'),
{
    proof {
        reveal_strlit("─");
    }
    let mut out = String::new();
    let mut i: usize = 0;
    while i < n
        invariant
            i <= n,
            out@ == Seq::new(i as nat, |j| '─'),
        decreases n - i,
    {
        out.append("─");
        i = i + 1;
        proof {
            reveal_strlit("─");
            assert(out@ =~= Seq::new(i as nat, |j| '─'));
        }
    }
    proof {
        assert(out@ =~= Seq::new(n as nat, |i| '─'));
    }
    out
}

/// Generate a progress bar that represents the progress on a scale between
/// 0 and 10. An input above 100 is a precondition violation, not a value
/// to clamp: every verified caller must prove p is at most 100, and no
/// branch of the body reduces a larger input into range.
pub fn progress_bar(p: u8) -> (r: String)
    requires
        p <= 100,
    ensures
        r@ == progress_seq(p as nat),
{
    proof {
        reveal_strlit("[");
        reveal_strlit("]");
        reveal_strlit("◼");
    }
    let pos = (p / 10) as usize;
    let mut out = String::from_str("[");
    out.append(repeat_dash(pos).as_str());
    out.append("◼");
    out.append(repeat_dash(10 - pos).as_str());
    out.append("]");
    proof {
        assert(out@ =~= progress_seq(p as nat));
    }
    out
}

/// Every rendered bar is 13 characters long: two brackets around eleven
/// glyph cells, of which exactly one, cell p / 10, holds the marker.
pub proof fn lemma_progress_bar_shape(p: nat)
    requires
        p <= 100,
    ensures
        progress_seq(p).len() == 13,
        progress_seq(p)[0] == '[',
        progress_seq(p)[12] == ']',
        progress_seq(p)[(1 + p / 10) as int] == '◼',
        forall|i: int| 1 <= i < 12 && i != 1 + p / 10 ==> progress_seq(p)[i] == '─',
{
    assert(p / 10 <= 10);
}

} // verus!
