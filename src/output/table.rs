//! Aligned tables: columns as wide as their widest cell, shrunk (widest
//! first) to fit a maximum line width, cells cut with `~` to their column.
use vstd::prelude::*;

use crate::text::{append_str, chars_of, push_char, string_from_range, views};

verus! {

/// Columns are separated by this many spaces.
pub const GAP: usize = 2;

/// A table of string cells under string headers.
pub struct Table {
    headers: Vec<String>,
    rows: Vec<Vec<String>>,
    max_width: Option<usize>,
}

/// The sum of some widths.
pub open spec fn total(ws: Seq<usize>) -> int
    decreases ws.len(),
{
    if ws.len() == 0 {
        0
    } else {
        total(ws.drop_last()) + ws.last()
    }
}

proof fn lemma_total_update(ws: Seq<usize>, m: int, v: usize)
    requires
        0 <= m < ws.len(),
    ensures
        total(ws.update(m, v)) == total(ws) - ws[m] + v,
    decreases ws.len(),
{
    if m == ws.len() - 1 {
        assert(ws.update(m, v).drop_last() =~= ws.drop_last());
    } else {
        assert(ws.update(m, v).drop_last() =~= ws.drop_last().update(m, v));
        lemma_total_update(ws.drop_last(), m, v);
    }
}

proof fn lemma_total_zero(ws: Seq<usize>)
    requires
        forall|i: int| 0 <= i < ws.len() ==> ws[i] == 0,
    ensures
        total(ws) == 0,
    decreases ws.len(),
{
    if ws.len() > 0 {
        lemma_total_zero(ws.drop_last());
    }
}

proof fn lemma_total_nonneg(ws: Seq<usize>)
    ensures
        total(ws) >= 0,
    decreases ws.len(),
{
    if ws.len() > 0 {
        lemma_total_nonneg(ws.drop_last());
    }
}

/// The text of lines, each followed by a newline.
pub open spec fn lines_text(lines: Seq<Seq<char>>) -> Seq<char>
    decreases lines.len(),
{
    if lines.len() == 0 {
        Seq::empty()
    } else {
        lines_text(lines.drop_last()) + lines.last().push('\n')
    }
}

/// A cell cut to width `w`: unchanged when it fits, else its first `w - 1`
/// characters and `~` (just the first character when `w` is one).
pub open spec fn cut(cell: Seq<char>, w: nat) -> Seq<char> {
    if cell.len() <= w {
        cell
    } else if w > 1 {
        cell.take(w - 1).push('~')
    } else {
        cell.take(w as int)
    }
}

/// `n` spaces.
pub open spec fn spaces(n: nat) -> Seq<char> {
    Seq::new(n, |i: int| ' ')
}

/// A cell laid out in a column of width `w`: cut to it, and padded to it with
/// spaces unless the column is the last one.
pub open spec fn cell_layout(cell: Seq<char>, w: nat, last: bool) -> Seq<char> {
    if last {
        cut(cell, w)
    } else {
        cut(cell, w) + spaces((w - cut(cell, w).len()) as nat)
    }
}

/// Some of the first `k` columns has a non-zero width.
pub open spec fn any_visible(widths: Seq<usize>, k: int) -> bool {
    exists|j: int| 0 <= j < k && widths[j] > 0
}

/// The first `k` of the `n` columns of a line: the cells of non-zero width
/// laid out, two spaces between neighbours; columns of width zero left out.
pub open spec fn line_upto(cells: Seq<Seq<char>>, widths: Seq<usize>, k: int, n: int) -> Seq<char>
    decreases k,
{
    if k <= 0 {
        Seq::empty()
    } else {
        let prev = line_upto(cells, widths, k - 1, n);
        if widths[k - 1] == 0 {
            prev
        } else {
            (if any_visible(widths, k - 1) {
                prev + seq![' ', ' ']
            } else {
                prev
            }) + cell_layout(cells[k - 1], widths[k - 1] as nat, k == n)
        }
    }
}

/// The width of column `i` that fits its header and its cells in the first `k` rows.
pub open spec fn natural_width(headers: Seq<String>, rows: Seq<Vec<String>>, k: int, i: int) -> nat
    decreases k,
{
    if k <= 0 {
        headers[i]@.len()
    } else {
        let w = natural_width(headers, rows, k - 1, i);
        let c = rows[k - 1]@[i]@.len();
        if c > w {
            c
        } else {
            w
        }
    }
}

fn cut_cell(cell: &String, w: usize) -> (r: String)
    ensures
        r@ == cut(cell@, w as nat),
        r@.len() <= w,
{
    let chars = chars_of(cell.as_str());
    if chars.len() <= w {
        return cell.clone();
    }
    if w > 1 {
        let mut s = string_from_range(&chars, 0, w - 1);
        push_char(&mut s, '~');
        s
    } else {
        string_from_range(&chars, 0, w)
    }
}

fn pad_to(s: &mut String, w: usize)
    requires
        old(s)@.len() <= w,
    ensures
        final(s)@ == old(s)@ + spaces((w - old(s)@.len()) as nat),
{
    let n = s.unicode_len();
    let ghost start = s@;
    let mut k: usize = n;
    assert(start + spaces(0) =~= start);
    while k < w
        invariant
            n == start.len(),
            n <= k <= w,
            s@ == start + spaces((k - n) as nat),
        decreases w - k,
    {
        push_char(s, ' ');
        assert(s@ =~= start + spaces((k + 1 - n) as nat));
        k = k + 1;
    }
}

/// The natural widths of a table's columns, in order.
pub open spec fn natural_widths_of(t: Table) -> Seq<usize> {
    Seq::new(
        t.headers_spec().len(),
        |i: int| natural_width(t.headers_spec(), t.rows_spec(), t.rows_spec().len() as int, i) as usize,
    )
}

/// The table has a width limit that its natural widths, with the gaps, meet.
pub open spec fn fits_naturally(t: Table) -> bool {
    t.max_width_spec() matches Some(m) && t.headers_spec().len() > 0 && total(natural_widths_of(t)) + GAP * (
    t.headers_spec().len() - 1) <= m
}

/// The last of the widest of the first `k` columns (`k` at least one).
pub open spec fn widest_upto(ws: Seq<usize>, k: int) -> int
    decreases k,
{
    if k <= 1 {
        0
    } else {
        let b = widest_upto(ws, k - 1);
        if ws[k - 1] >= ws[b] {
            k - 1
        } else {
            b
        }
    }
}

/// Widths shrunk to fit in `room`: while their sum is too large, the last of
/// the widest columns loses one character, until it fits or that column is
/// already zero (`fuel` bounds the steps; the sum is enough).
pub open spec fn shrink(ws: Seq<usize>, room: int, fuel: nat) -> Seq<usize>
    decreases fuel,
{
    if fuel == 0 || ws.len() == 0 || total(ws) <= room {
        ws
    } else {
        let m = widest_upto(ws, ws.len() as int);
        if ws[m] == 0 {
            ws
        } else {
            shrink(ws.update(m, (ws[m] - 1) as usize), room, (fuel - 1) as nat)
        }
    }
}

/// The width left for the cells of `n` columns in a line of `max`
/// characters, once the gaps between them are taken (none when the gaps
/// alone do not fit).
pub open spec fn room(max: usize, n: nat) -> int {
    let gaps: int = if n == 0 {
        0
    } else if n - 1 > (usize::MAX as int) / (GAP as int) {
        usize::MAX as int
    } else {
        GAP * (n - 1)
    };
    if max >= gaps {
        max - gaps
    } else {
        0
    }
}

/// The final widths of a table's columns: one per header, none wider than its
/// column's natural width, each exactly that width when there is no limit or
/// when the natural widths already fit in it, and under a limit the natural
/// widths shrunk, widest first, to the room the limit leaves.
pub open spec fn widths_fit(t: Table, ws: Seq<usize>) -> bool {
    &&& ws.len() == t.headers_spec().len()
    &&& forall|i: int| 0 <= i < ws.len() ==> #[trigger] ws[i] <= natural_width(
        t.headers_spec(),
        t.rows_spec(),
        t.rows_spec().len() as int,
        i,
    )
    &&& t.max_width_spec() is None ==> forall|i: int| 0 <= i < ws.len() ==> #[trigger] ws[i] == natural_width(
        t.headers_spec(),
        t.rows_spec(),
        t.rows_spec().len() as int,
        i,
    )
    &&& fits_naturally(t) ==> ws == natural_widths_of(t)
    &&& t.max_width_spec() matches Some(m) ==> ws == shrink(
        natural_widths_of(t),
        room(m, t.headers_spec().len()),
        total(natural_widths_of(t)) as nat,
    )
}

/// The lines of a table laid out with the column widths `ws`: the header
/// line, then one line per row.
pub open spec fn laid_out(t: Table, ws: Seq<usize>, lines: Seq<Seq<char>>) -> bool {
    let n = t.headers_spec().len() as int;
    &&& lines.len() == t.rows_spec().len() + 1
    &&& lines[0] == line_upto(views(t.headers_spec()), ws, n, n)
    &&& forall|k: int| 0 <= k < t.rows_spec().len() ==> #[trigger] lines[k + 1] == line_upto(views(t.rows_spec()[k]@), ws, n, n)
}

impl Table {
    pub closed spec fn headers_spec(&self) -> Seq<String> {
        self.headers@
    }

    pub closed spec fn rows_spec(&self) -> Seq<Vec<String>> {
        self.rows@
    }

    pub closed spec fn max_width_spec(&self) -> Option<usize> {
        self.max_width
    }

    /// Every row has one cell per header.
    pub closed spec fn wf(&self) -> bool {
        forall|i: int| 0 <= i < self.rows@.len() ==> (#[trigger] self.rows@[i])@.len() == self.headers@.len()
    }

    /// A table with these headers, no rows and no width limit.
    pub fn new(headers: Vec<&str>) -> (r: Self)
        ensures
            r.wf(),
            views(r.headers_spec()) == headers@.map_values(|h: &str| h@),
            r.rows_spec().len() == 0,
            r.max_width_spec() is None,
    {
        let mut hs: Vec<String> = Vec::new();
        let mut i: usize = 0;
        while i < headers.len()
            invariant
                i <= headers@.len(),
                views(hs@) == headers@.take(i as int).map_values(|h: &str| h@),
            decreases headers@.len() - i,
        {
            let ghost before = hs@;
            hs.push(String::from_str(headers[i]));
            assert(views(hs@) =~= views(before).push(headers@[i as int]@));
            assert(headers@.take(i as int + 1).map_values(|h: &str| h@) =~= headers@.take(i as int).map_values(|h: &str| h@).push(headers@[i as int]@));
            i = i + 1;
        }
        assert(headers@.take(headers@.len() as int) =~= headers@);
        Table { headers: hs, rows: Vec::new(), max_width: None }
    }

    /// The table with one more row: `cells` cut or padded with empty cells to
    /// one per header.
    pub fn row(self, cells: Vec<&str>) -> (r: Self)
        requires
            self.wf(),
        ensures
            r.wf(),
            r.headers_spec() == self.headers_spec(),
            r.max_width_spec() == self.max_width_spec(),
            r.rows_spec().len() == self.rows_spec().len() + 1,
            r.rows_spec().drop_last() == self.rows_spec(),
            r.rows_spec().last()@.len() == self.headers_spec().len(),
            forall|i: int| 0 <= i < self.headers_spec().len() ==> (#[trigger] r.rows_spec().last()@[i])@ == (if i
                < cells@.len() {
                cells@[i]@
            } else {
                Seq::<char>::empty()
            }),
    {
        let mut table = self;
        let n = table.headers.len();
        let mut row: Vec<String> = Vec::new();
        let mut i: usize = 0;
        while i < n
            invariant
                i <= n,
                row@.len() == i,
                forall|k: int| 0 <= k < i ==> (#[trigger] row@[k])@ == (if k < cells@.len() {
                    cells@[k]@
                } else {
                    Seq::<char>::empty()
                }),
            decreases n - i,
        {
            if i < cells.len() {
                row.push(String::from_str(cells[i]));
            } else {
                row.push(String::new());
            }
            i = i + 1;
        }
        let ghost old_rows = table.rows@;
        table.rows.push(row);
        assert(table.rows@.drop_last() =~= old_rows);
        table
    }

    /// The table with lines limited to `width` characters.
    pub fn max_width(self, width: usize) -> (r: Self)
        ensures
            r.max_width_spec() == Some(width),
            r.headers_spec() == self.headers_spec(),
            r.rows_spec() == self.rows_spec(),
            self.wf() ==> r.wf(),
    {
        let mut table = self;
        table.max_width = Some(width);
        table
    }

    fn natural_widths(&self) -> (r: Vec<usize>)
        requires
            self.wf(),
        ensures
            r@.len() == self.headers@.len(),
            forall|i: int| 0 <= i < r@.len() ==> #[trigger] r@[i] == natural_width(self.headers@, self.rows@, self.rows@.len() as int, i),
    {
        let n = self.headers.len();
        let mut widths: Vec<usize> = Vec::new();
        let mut i: usize = 0;
        while i < n
            invariant
                i <= n,
                n == self.headers@.len(),
                widths@.len() == i,
                self.wf(),
                forall|j: int| 0 <= j < i ==> #[trigger] widths@[j] == natural_width(self.headers@, self.rows@, self.rows@.len() as int, j),
            decreases n - i,
        {
            let mut w = self.headers[i].as_str().unicode_len();
            let mut k: usize = 0;
            while k < self.rows.len()
                invariant
                    k <= self.rows@.len(),
                    i < n,
                    n == self.headers@.len(),
                    self.wf(),
                    w == natural_width(self.headers@, self.rows@, k as int, i as int),
                decreases self.rows@.len() - k,
            {
                let len = self.rows[k][i].as_str().unicode_len();
                if len > w {
                    w = len;
                }
                k = k + 1;
            }
            widths.push(w);
            i = i + 1;
        }
        widths
    }

    fn render_line(cells: &Vec<String>, widths: &Vec<usize>) -> (r: String)
        requires
            cells@.len() == widths@.len(),
        ensures
            r@ == line_upto(views(cells@), widths@, widths@.len() as int, widths@.len() as int),
            r@.len() == 0 || (widths@.len() > 0 && r@.len() + GAP <= total(widths@) + GAP * widths@.len()),
            r@.len() > 0 ==> total(widths@) >= 1,
    {
        let n = cells.len();
        let mut out = String::new();
        let mut visible: usize = 0;
        let mut i: usize = 0;
        while i < n
            invariant
                n == cells@.len(),
                n == widths@.len(),
                i <= n,
                visible <= i,
                visible <= total(widths@.take(i as int)),
                visible == 0 ==> out@.len() == 0,
                visible > 0 ==> out@.len() + GAP <= total(widths@.take(i as int)) + GAP * visible,
                out@ == line_upto(views(cells@), widths@, i as int, n as int),
                (visible > 0) == any_visible(widths@, i as int),
            decreases n - i,
        {
            assert(widths@.take(i as int + 1).drop_last() =~= widths@.take(i as int));
            let w = widths[i];
            let ghost prev = out@;
            if w > 0 {
                if visible > 0 {
                    append_str(&mut out, "  ");
                    proof {
                        reveal_strlit("  ");
                        assert("  "@ =~= seq![' ', ' ']);
                    }
                }
                let mut cell = cut_cell(&cells[i], w);
                if i + 1 < n {
                    pad_to(&mut cell, w);
                }
                append_str(&mut out, cell.as_str());
                visible = visible + 1;
                proof {
                    assert(views(cells@)[i as int] == cells@[i as int]@);
                    assert(0 <= i < i + 1 && widths@[i as int] > 0);
                    assert(any_visible(widths@, i as int + 1));
                }
            } else {
                proof {
                    if any_visible(widths@, i as int + 1) {
                        let j = choose|j: int| 0 <= j < i + 1 && widths@[j] > 0;
                        assert(j < i);
                        assert(any_visible(widths@, i as int));
                    }
                    if any_visible(widths@, i as int) {
                        let j = choose|j: int| 0 <= j < i && widths@[j] > 0;
                        assert(0 <= j < i + 1 && widths@[j] > 0);
                    }
                }
            }
            i = i + 1;
        }
        assert(widths@.take(n as int) =~= widths@);
        out
    }

    /// The table's lines: the header line, then one per row; none when there
    /// is no row. With a width limit, no line is longer than the limit.
    pub fn render_lines(&self) -> (r: Vec<String>)
        requires
            self.wf(),
        ensures
            self.rows_spec().len() == 0 ==> r@.len() == 0,
            self.rows_spec().len() > 0 ==> r@.len() == self.rows_spec().len() + 1,
            self.max_width_spec() matches Some(m) ==> forall|i: int| 0 <= i < r@.len() ==> (#[trigger] r@[i])@.len() <= m,
            self.rows_spec().len() > 0 ==> exists|ws: Seq<usize>| widths_fit(*self, ws) && laid_out(*self, ws, views(r@)),
    {
        let mut lines: Vec<String> = Vec::new();
        if self.rows.len() == 0 {
            return lines;
        }
        let n = self.headers.len();
        let mut widths = self.natural_widths();
        let ghost natural = widths@;
        proof {
            assert(natural =~= natural_widths_of(*self));
        }
        let mut available: usize = usize::MAX;
        match self.max_width {
            Some(max) => {
                let total_gap: usize = if n == 0 {
                    0
                } else if n - 1 > usize::MAX / GAP {
                    usize::MAX
                } else {
                    GAP * (n - 1)
                };
                available = if max >= total_gap { max - total_gap } else { 0 };
                assert(available as int == room(max, n as nat));
                proof {
                    lemma_total_nonneg(natural);
                }
                loop
                    invariant
                        shrink(natural, available as int, total(natural) as nat) == shrink(widths@, available as int, total(widths@) as nat),
                        total(widths@) >= 0,
                        widths@.len() == n,
                        n == self.headers@.len(),
                        forall|i: int| 0 <= i < n ==> #[trigger] widths@[i] <= natural_width(self.headers@, self.rows@, self.rows@.len() as int, i),
                        widths@ != natural ==> total(natural) > available,
                    ensures
                        shrink(natural, available as int, total(natural) as nat) == widths@,
                        widths@ != natural ==> total(natural) > available,
                        forall|i: int| 0 <= i < n ==> #[trigger] widths@[i] <= natural_width(self.headers@, self.rows@, self.rows@.len() as int, i),
                        total(widths@) <= available,
                        widths@.len() == n,
                    decreases total(widths@),
                {
                    let s = sum_widths(&widths);
                    if s <= available as u128 {
                        break;
                    }
                    let m = widest(&widths);
                    if widths[m] == 0 {
                        proof {
                            lemma_total_zero(widths@);
                        }
                        break;
                    }
                    proof {
                        lemma_total_update(widths@, m as int, (widths@[m as int] - 1) as usize);
                        lemma_total_nonneg(widths@.update(m as int, (widths@[m as int] - 1) as usize));
                    }
                    let v = widths[m] - 1;
                    widths.set(m, v);
                }
                assert(available >= 1 && n > 0 ==> available + GAP * (n - 1) == max);
                assert(n == 0 ==> available == max);
            },
            None => {},
        }
        let ghost ws = widths@;
        let ghost limit = self.max_width;
        let header_line = Table::render_line(&self.headers, &widths);
        lines.push(header_line);
        let mut k: usize = 0;
        while k < self.rows.len()
            invariant
                k <= self.rows@.len(),
                self.wf(),
                widths@ == ws,
                widths@.len() == n,
                n == self.headers@.len(),
                lines@.len() == k + 1,
                widths_fit(*self, ws),
                lines@[0]@ == line_upto(views(self.headers@), ws, n as int, n as int),
                forall|j: int| 0 <= j < k ==> #[trigger] lines@[j + 1]@ == line_upto(views(self.rows@[j]@), ws, n as int, n as int),
                limit == self.max_width,
                limit matches Some(m) ==> total(ws) <= available && (available >= 1 && n > 0 ==> available + GAP * (n - 1) == m) && (n == 0 ==> available == m),
                limit matches Some(m) ==> forall|i: int| 0 <= i < lines@.len() ==> (#[trigger] lines@[i])@.len() <= m,
            decreases self.rows@.len() - k,
        {
            let line = Table::render_line(&self.rows[k], &widths);
            lines.push(line);
            k = k + 1;
        }
        assert(laid_out(*self, ws, views(lines@)));
        lines
    }

    /// The table as text: its lines, each followed by a newline; empty when
    /// there is no row.
    pub fn render(&self) -> (r: String)
        requires
            self.wf(),
        ensures
            self.rows_spec().len() == 0 ==> r@.len() == 0,
            exists|lines: Seq<Seq<char>>| r@ == lines_text(lines) && (self.rows_spec().len() > 0 ==> lines.len()
                == self.rows_spec().len() + 1) && (self.max_width_spec() matches Some(m) ==> forall|i: int| 0 <= i < lines.len() ==> (#[trigger] lines[i]).len() <= m)
                && (self.rows_spec().len() > 0 ==> exists|ws: Seq<usize>| widths_fit(*self, ws) && laid_out(*self, ws, lines)),
    {
        let lines = self.render_lines();
        let mut out = String::new();
        let mut i: usize = 0;
        while i < lines.len()
            invariant
                i <= lines@.len(),
                out@ == lines_text(views(lines@.take(i as int))),
            decreases lines@.len() - i,
        {
            assert(views(lines@.take(i as int + 1)).drop_last() =~= views(lines@.take(i as int)));
            append_str(&mut out, lines[i].as_str());
            push_char(&mut out, '\n');
            i = i + 1;
        }
        assert(lines@.take(lines@.len() as int) =~= lines@);
        assert(views(lines@).len() == lines@.len());
        out
    }
}

fn sum_widths(ws: &Vec<usize>) -> (r: u128)
    ensures
        r as int == total(ws@),
{
    let mut s: u128 = 0;
    let mut i: usize = 0;
    while i < ws.len()
        invariant
            i <= ws@.len(),
            s as int == total(ws@.take(i as int)),
            s <= i * 0xffff_ffff_ffff_ffffu128,
        decreases ws@.len() - i,
    {
        assert(ws@.take(i as int + 1).drop_last() =~= ws@.take(i as int));
        s = s + ws[i] as u128;
        i = i + 1;
    }
    assert(ws@.take(ws@.len() as int) =~= ws@);
    s
}

fn widest(ws: &Vec<usize>) -> (r: usize)
    requires
        ws@.len() > 0,
    ensures
        r < ws@.len(),
        r == widest_upto(ws@, ws@.len() as int),
        forall|j: int| 0 <= j < ws@.len() ==> ws@[j] <= ws@[r as int],
{
    let mut best: usize = 0;
    let mut i: usize = 1;
    while i < ws.len()
        invariant
            1 <= i <= ws@.len(),
            best < i,
            best == widest_upto(ws@, i as int),
            forall|j: int| 0 <= j < i ==> ws@[j] <= ws@[best as int],
        decreases ws@.len() - i,
    {
        if ws[i] >= ws[best] {
            best = i;
        }
        i = i + 1;
    }
    best
}

} // verus!
