use vstd::prelude::*;
use crate::ansi::{visible_width, visible_width_of};

verus! {

/// The widest visible width among `lines`, or 0 when there are none.
pub open spec fn max_visible_width(lines: Seq<Seq<char>>) -> nat
    decreases lines.len(),
{
    if lines.len() == 0 {
        0
    } else {
        let rest = max_visible_width(lines.drop_last());
        let last = visible_width_of(lines.last()) as nat;
        if last > rest {
            last
        } else {
            rest
        }
    }
}

/// `n` copies of `c`.
pub open spec fn repeated(c: char, n: nat) -> Seq<char> {
    Seq::new(n, |_i: int| c)
}

/// The top edge of a frame whose inside is `w` columns wide.
pub open spec fn top_border(w: nat) -> Seq<char> {
    seq!['┏'] + repeated('━', w) + seq!['┓', '\n']
}

/// The bottom edge of a frame whose inside is `w` columns wide.
pub open spec fn bottom_border(w: nat) -> Seq<char> {
    seq!['┗'] + repeated('━', w) + seq!['┛']
}

/// The number of spaces that fill `line` out to `w` columns.
pub open spec fn padding_of(line: Seq<char>, w: nat) -> nat {
    if w >= visible_width_of(line) {
        (w - visible_width_of(line)) as nat
    } else {
        0
    }
}

/// One content row: the line as given, padded by its visible width.
pub open spec fn framed_row(line: Seq<char>, w: nat) -> Seq<char> {
    seq!['┃'] + line + repeated(' ', padding_of(line, w)) + seq!['┃', '\n']
}

/// The content rows of `lines`, in order.
pub open spec fn framed_rows(lines: Seq<Seq<char>>, w: nat) -> Seq<char>
    decreases lines.len(),
{
    if lines.len() == 0 {
        Seq::empty()
    } else {
        framed_rows(lines.drop_last(), w) + framed_row(lines.last(), w)
    }
}

/// The whole frame around `lines`.
pub open spec fn framed(lines: Seq<Seq<char>>) -> Seq<char> {
    let w = max_visible_width(lines);
    top_border(w) + framed_rows(lines, w) + bottom_border(w)
}

/// The views of a slice of strings.
pub open spec fn views_of(lines: Seq<String>) -> Seq<Seq<char>> {
    lines.map_values(|l: String| l@)
}

/// The frame is at least as wide as each line's visible width.
pub proof fn lemma_max_bounds_each(lines: Seq<Seq<char>>, k: int)
    requires
        0 <= k < lines.len(),
    ensures
        visible_width_of(lines[k]) <= max_visible_width(lines),
    decreases lines.len(),
{
    if k < lines.len() - 1 {
        lemma_max_bounds_each(lines.drop_last(), k);
    }
}

/// Some line is exactly as wide as the frame, when there is a line.
pub proof fn lemma_max_is_reached(lines: Seq<Seq<char>>)
    requires
        lines.len() > 0,
    ensures
        exists|k: int| 0 <= k < lines.len() && visible_width_of(lines[k]) == max_visible_width(lines),
    decreases lines.len(),
{
    let n = lines.len() - 1;
    if visible_width_of(lines[n]) as nat > max_visible_width(lines.drop_last()) {
        assert(visible_width_of(lines[n]) == max_visible_width(lines));
    } else if n == 0 {
        assert(visible_width_of(lines[0]) == max_visible_width(lines));
    } else {
        lemma_max_is_reached(lines.drop_last());
        let k = choose|k: int| 0 <= k < lines.drop_last().len() && visible_width_of(lines.drop_last()[k]) == max_visible_width(lines.drop_last());
        assert(visible_width_of(lines[k]) == max_visible_width(lines));
    }
}

/// The geometry of a frame. Its borders span the widest visible width plus
/// the two corner glyphs; every content row spans the same number of columns
/// (edge, line, padding, edge); and no lines give the degenerate frame two
/// characters wide.
pub proof fn lemma_frame_geometry(lines: Seq<Seq<char>>)
    ensures
        forall|k: int| 0 <= k < lines.len() ==> visible_width_of(#[trigger] lines[k]) <= max_visible_width(lines),
        lines.len() > 0 ==> exists|k: int| 0 <= k < lines.len() && visible_width_of(lines[k]) == max_visible_width(lines),
        top_border(max_visible_width(lines)).len() == max_visible_width(lines) + 2 + 1,
        bottom_border(max_visible_width(lines)).len() == max_visible_width(lines) + 2,
        forall|k: int| 0 <= k < lines.len() ==>
            1 + visible_width_of(#[trigger] lines[k]) + padding_of(lines[k], max_visible_width(lines)) + 1
                == max_visible_width(lines) + 2,
        lines.len() == 0 ==> framed(lines) == seq!['┏', '┓', '\n', '┗', '┛'],
{
    assert forall|k: int| 0 <= k < lines.len() implies visible_width_of(#[trigger] lines[k]) <= max_visible_width(lines) by {
        lemma_max_bounds_each(lines, k);
    }
    if lines.len() > 0 {
        lemma_max_is_reached(lines);
    } else {
        assert(framed(lines) =~= seq!['┏', '┓', '\n', '┗', '┛']);
    }
}

/// Appends `n` copies of the one character of `unit` to `out`.
fn append_repeated(out: &mut String, unit: &str, n: usize)
    requires
        unit@.len() == 1,
    ensures
        final(out)@ == old(out)@ + repeated(unit@[0], n as nat),
{
    let ghost start = out@;
    let mut i: usize = 0;
    while i < n
        invariant
            i <= n,
            unit@.len() == 1,
            out@ == start + repeated(unit@[0], i as nat),
        decreases n - i,
    {
        out.append(unit);
        proof {
            assert(unit@ =~= seq![unit@[0]]);
            assert(start + repeated(unit@[0], i as nat) + unit@ =~= start + repeated(unit@[0], (i + 1) as nat));
        }
        i = i + 1;
    }
}

/// Frames `lines` in a box. The box is as wide inside as the widest line's
/// visible width; each line is written unchanged and padded with spaces by its
/// visible width, so styled lines line up.
pub fn render(lines: &[String]) -> (r: String)
    ensures
        r@ == framed(views_of(lines@)),
{
    let ghost ls = views_of(lines@);
    let mut w: usize = 0;
    let mut i: usize = 0;
    while i < lines.len()
        invariant
            i <= lines@.len(),
            ls == views_of(lines@),
            w as nat == max_visible_width(ls.take(i as int)),
        decreases lines@.len() - i,
    {
        let vw = visible_width(lines[i].as_str());
        proof {
            assert(ls.take(i as int + 1).drop_last() =~= ls.take(i as int));
            assert(ls.take(i as int + 1).last() == lines@[i as int]@);
        }
        if vw > w {
            w = vw;
        }
        i = i + 1;
    }
    proof {
        assert(ls.take(lines@.len() as int) =~= ls);
    }
    let mut out = String::new();
    proof {
        reveal_strlit("┏");
        reveal_strlit("━");
        reveal_strlit("┓\n");
    }
    out.append("┏");
    append_repeated(&mut out, "━", w);
    out.append("┓\n");
    proof {
        assert(out@ =~= top_border(w as nat));
    }
    let mut j: usize = 0;
    while j < lines.len()
        invariant
            j <= lines@.len(),
            ls == views_of(lines@),
            w as nat == max_visible_width(ls),
            out@ == top_border(w as nat) + framed_rows(ls.take(j as int), w as nat),
        decreases lines@.len() - j,
    {
        let vw = visible_width(lines[j].as_str());
        proof {
            lemma_max_bounds_each(ls, j as int);
            assert(ls[j as int] == lines@[j as int]@);
        }
        let ghost before = out@;
        proof {
            reveal_strlit("┃");
            reveal_strlit(" ");
            reveal_strlit("┃\n");
        }
        out.append("┃");
        out.append(lines[j].as_str());
        append_repeated(&mut out, " ", w - vw);
        out.append("┃\n");
        proof {
            assert(out@ =~= before + framed_row(ls[j as int], w as nat));
            assert(ls.take(j as int + 1).drop_last() =~= ls.take(j as int));
            assert(out@ =~= top_border(w as nat) + framed_rows(ls.take(j as int + 1), w as nat));
        }
        j = j + 1;
    }
    proof {
        assert(ls.take(lines@.len() as int) =~= ls);
    }
    let ghost rows = out@;
    proof {
        reveal_strlit("┗");
        reveal_strlit("┛");
    }
    out.append("┗");
    append_repeated(&mut out, "━", w);
    out.append("┛");
    proof {
        assert(out@ =~= rows + bottom_border(w as nat));
    }
    out
}

} // verus!
