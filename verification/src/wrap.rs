//! Soft wrapping of the line being typed in a text box.
use vstd::prelude::*;
use crate::text::{chars_of, is_whitespace, is_ws, slice_to_vec, string_from_chars, trim_end, trim_start};

verus! {

/// Width at which a line is wrapped, in characters.
#[derive(Debug, Clone, Copy)]
pub struct WrapConfig {
    pub wrap_width: usize,
}

impl WrapConfig {
    /// Width used in composer modals.
    pub fn composer() -> (r: Self)
        ensures
            r.wrap_width == 100,
    {
        WrapConfig { wrap_width: 100 }
    }

    /// Width used in the DM panel.
    pub fn dm_panel() -> (r: Self)
        ensures
            r.wrap_width == 110,
    {
        WrapConfig { wrap_width: 110 }
    }
}

/// Where an over-long line is split: at the last space before `width`,
/// or at `width` when there is none.
pub open spec fn wrap_point(line: Seq<char>, width: int) -> int
    decreases width,
{
    if width <= 0 {
        0
    } else {
        last_space_before(line, width, width)
    }
}

/// The last index `< k` holding a space, or `dflt` if none.
pub open spec fn last_space_before(line: Seq<char>, k: int, dflt: int) -> int
    decreases k,
{
    if k <= 0 {
        dflt
    } else if k - 1 < line.len() && line[k - 1] == ' ' {
        k - 1
    } else {
        last_space_before(line, k - 1, dflt)
    }
}

proof fn lemma_last_space_range(line: Seq<char>, k: int, dflt: int)
    ensures
        last_space_before(line, k, dflt) == dflt || (0 <= last_space_before(line, k, dflt) < k),
    decreases k,
{
    if k > 0 {
        lemma_last_space_range(line, k - 1, dflt);
    }
}

/// A wrapped text box: its lines and the cursor's row and column.
pub struct Wrapped {
    pub lines: Vec<String>,
    pub row: usize,
    pub col: usize,
}

/// The result of wrapping line `row` of `lines` with the cursor at column
/// `col`, or `None` when the row does not exist or fits. The line is split
/// at its wrap point; the first part loses trailing whitespace, the second
/// leading whitespace and goes on a new line below; the cursor moves to the
/// new line, after the characters it had passed, or to its end.
pub open spec fn spec_wrap(lines: Seq<Seq<char>>, row: int, col: int, width: int) -> Option<
    (Seq<Seq<char>>, int, int),
> {
    if row >= lines.len() || lines[row].len() <= width {
        None
    } else {
        let line = lines[row];
        let w = wrap_point(line, width);
        let first = trim_end(line.subrange(0, w));
        let second = trim_start(line.subrange(w, line.len() as int));
        let new_lines = lines.subrange(0, row) + seq![first, second] + lines.subrange(
            row + 1,
            lines.len() as int,
        );
        let new_col = if col > w {
            col - w - 1
        } else {
            second.len() as int
        };
        Some((new_lines, row + 1, new_col))
    }
}

pub open spec fn lines_view(v: Seq<String>) -> Seq<Seq<char>> {
    Seq::new(v.len(), |i: int| v[i]@)
}

fn trim_start_vec(s: &[char]) -> (r: Vec<char>)
    ensures
        r@ == trim_start(s@),
{
    let n = s.len();
    let mut i: usize = 0;
    while i < n && is_whitespace(s[i])
        invariant
            n == s@.len(),
            0 <= i <= n,
            forall|k: int| 0 <= k < i ==> is_ws(s@[k]),
        decreases n - i,
    {
        i = i + 1;
    }
    proof {
        crate::text::lemma_trim_start_skip(s@, i as int);
        let t = s@.subrange(i as int, n as int);
        if t.len() > 0 {
            assert(t[0] == s@[i as int]);
        }
    }
    slice_to_vec(s, i, n)
}

fn trim_end_vec(s: &[char]) -> (r: Vec<char>)
    ensures
        r@ == trim_end(s@),
{
    let n = s.len();
    let mut j: usize = n;
    while j > 0 && is_whitespace(s[j - 1])
        invariant
            n == s@.len(),
            0 <= j <= n,
            forall|k: int| j <= k < n ==> is_ws(s@[k]),
        decreases j,
    {
        j = j - 1;
    }
    proof {
        crate::text::lemma_trim_end_cut(s@, j as int);
        let t = s@.subrange(0, j as int);
        if t.len() > 0 {
            assert(t.last() == s@[j - 1]);
        }
    }
    slice_to_vec(s, 0, j)
}

fn copy_string(s: &String) -> (r: String)
    ensures
        r@ == s@,
{
    crate::text::owned(s.as_str())
}

/// Wrap line `row` if it is longer than the configured width.
pub fn wrap_lines_if_needed(lines: &Vec<String>, row: usize, col: usize, config: WrapConfig) -> (r:
    Option<Wrapped>)
    ensures
        match spec_wrap(lines_view(lines@), row as int, col as int, config.wrap_width as int) {
            None => r is None,
            Some((nl, nr, nc)) => r matches Some(w) && lines_view(w.lines@) == nl && w.row == nr
                && w.col == nc,
        },
{
    if row >= lines.len() {
        return None;
    }
    let line = chars_of(lines[row].as_str());
    let width = config.wrap_width;
    if line.len() <= width {
        return None;
    }
    let mut wp: usize = width;
    let mut k: usize = width;
    proof {
        assert(wrap_point(line@, width as int) == last_space_before(line@, k as int, width as int));
    }
    while k > 0
        invariant_except_break
            wp == width,
        invariant
            line@.len() > width,
            k <= width,
            wrap_point(line@, width as int) == last_space_before(line@, k as int, width as int),
        ensures
            wp as int == wrap_point(line@, width as int),
        decreases k,
    {
        if line[k - 1] == ' ' {
            wp = k - 1;
            break;
        }
        k = k - 1;
    }
    proof {
        lemma_last_space_range(line@, width as int, width as int);
    }
    let n = line.len();
    let first_raw = slice_to_vec(line.as_slice(), 0, wp);
    let second_raw = slice_to_vec(line.as_slice(), wp, n);
    let first = trim_end_vec(first_raw.as_slice());
    let second = trim_start_vec(second_raw.as_slice());
    let mut out: Vec<String> = Vec::new();
    let mut i: usize = 0;
    while i < lines.len()
        invariant
            row < lines@.len(),
            0 <= i <= lines@.len(),
            i <= row ==> lines_view(out@) == lines_view(lines@).subrange(0, i as int),
            i > row ==> lines_view(out@) == lines_view(lines@).subrange(0, row as int) + seq![
                first@,
                second@,
            ] + lines_view(lines@).subrange(row + 1, i as int),
        decreases lines@.len() - i,
    {
        let ghost before = lines_view(out@);
        if i == row {
            out.push(string_from_chars(first.as_slice()));
            out.push(string_from_chars(second.as_slice()));
            proof {
                assert(lines_view(out@) =~= before + seq![first@, second@]);
                assert(lines_view(lines@).subrange(row + 1, i + 1) =~= Seq::<Seq<char>>::empty());
                assert(lines_view(out@) =~= lines_view(lines@).subrange(0, row as int) + seq![
                    first@,
                    second@,
                ] + lines_view(lines@).subrange(row + 1, i + 1));
            }
        } else {
            out.push(copy_string(&lines[i]));
            proof {
                assert(lines_view(out@) =~= before.push(lines@[i as int]@));
                if i < row {
                    assert(lines_view(lines@).subrange(0, i + 1) =~= lines_view(lines@).subrange(
                        0,
                        i as int,
                    ).push(lines@[i as int]@));
                } else {
                    assert(lines_view(lines@).subrange(row + 1, i + 1) =~= lines_view(
                        lines@,
                    ).subrange(row + 1, i as int).push(lines@[i as int]@));
                }
            }
        }
        i = i + 1;
    }
    proof {
        assert(lines_view(lines@)[row as int] == line@);
    }
    let new_col = if col > wp {
        col - wp - 1
    } else {
        second.len()
    };
    Some(Wrapped { lines: out, row: row + 1, col: new_col })
}

} // verus!
