//! Tables printed on the terminal: columns as wide as their widest cell, cells
//! separated by ` | `, and rules of dashes above and below the header and below the
//! last row.
use vstd::prelude::*;

use crate::text::{display_width, push_joined, push_str, spaces, str_width, join_seqs};

verus! {

/// The widest of `w0` and the cells at column `i` of `rows` (rows too short for
/// that column left out).
pub open spec fn width_over(rows: Seq<Vec<String>>, i: int, w0: int) -> int
    decreases rows.len(),
{
    if rows.len() == 0 {
        w0
    } else {
        let w = width_over(rows.drop_last(), i, w0);
        let r = rows.last();
        if i < r@.len() && display_width(r@[i]@) > w {
            display_width(r@[i]@) as int
        } else {
            w
        }
    }
}

/// The width of each column: the widest of its header and its cells.
pub open spec fn column_widths_spec(head: Seq<String>, body: Seq<Vec<String>>) -> Seq<int> {
    Seq::new(head.len(), |i: int| width_over(body, i, display_width(head[i]@) as int))
}

/// The width of column `j`; zero for a cell beyond the header's columns.
pub open spec fn width_at(widths: Seq<int>, j: int) -> int {
    if j < widths.len() {
        widths[j]
    } else {
        0
    }
}

/// A cell followed by the spaces that fill its column.
pub open spec fn padded_cell(c: Seq<char>, w: int) -> Seq<char> {
    if w > display_width(c) {
        c + spaces(w - display_width(c))
    } else {
        c
    }
}

/// A row of the table: its cells, each filling its column, separated by ` | `.
pub open spec fn row_text(cells: Seq<String>, widths: Seq<int>) -> Seq<char> {
    join_seqs(Seq::new(cells.len(), |j: int| padded_cell(cells[j]@, width_at(widths, j))), " | "@)
}

/// `n` dashes.
pub open spec fn dashes(n: int) -> Seq<char> {
    Seq::new(n as nat, |k: int| '-')
}

/// A rule as wide as the table: dashes under each column and under each separator.
pub open spec fn rule_text(widths: Seq<int>) -> Seq<char> {
    join_seqs(widths.map_values(|w: int| dashes(w)), "---"@)
}

/// The lines of a table: a rule, the header, a rule, each row, a rule.
pub open spec fn table_spec(head: Seq<String>, body: Seq<Vec<String>>) -> Seq<Seq<char>> {
    let w = column_widths_spec(head, body);
    seq![rule_text(w), row_text(head, w), rule_text(w)]
        + Seq::new(body.len(), |k: int| row_text(body[k]@, w))
        + seq![rule_text(w)]
}

/// The widths of the columns (see `column_widths_spec`).
fn column_widths(head: &Vec<String>, body: &Vec<Vec<String>>) -> (r: Vec<usize>)
    ensures
        r@.map_values(|w: usize| w as int) == column_widths_spec(head@, body@),
{
    let n = head.len();
    let mut widths: Vec<usize> = Vec::new();
    let mut i: usize = 0;
    while i < n
        invariant
            n == head@.len(),
            i <= n,
            widths@.len() == i,
            forall|j: int| 0 <= j < i ==> widths@[j] == display_width(head@[j]@),
        decreases n - i,
    {
        widths.push(str_width(head[i].as_str()));
        i = i + 1;
    }
    let mut k: usize = 0;
    while k < body.len()
        invariant
            n == head@.len(),
            widths@.len() == n,
            k <= body@.len(),
            forall|j: int| 0 <= j < n ==> widths@[j] == width_over(body@.take(k as int), j, display_width(head@[j]@) as int),
        decreases body.len() - k,
    {
        let ghost before = widths@;
        let ghost rows = body@.take(k + 1);
        assert(rows.drop_last() =~= body@.take(k as int));
        assert(rows.last() == body@[k as int]);
        let row = &body[k];
        let mut j: usize = 0;
        while j < n && j < row.len()
            invariant
                n == head@.len(),
                widths@.len() == n,
                j <= n,
                k < body@.len(),
                rows == body@.take(k + 1),
                rows.drop_last() == body@.take(k as int),
                rows.last() == *row,
                forall|t: int| 0 <= t < n ==> before[t] == width_over(body@.take(k as int), t, display_width(head@[t]@) as int),
                forall|t: int| 0 <= t < j ==> widths@[t] == width_over(rows, t, display_width(head@[t]@) as int),
                forall|t: int| j <= t < n ==> widths@[t] == before[t],
            decreases n - j,
        {
            let w = str_width(row[j].as_str());
            let ghost w0 = display_width(head@[j as int]@) as int;
            assert(width_over(rows.drop_last(), j as int, w0) == before[j as int]);
            assert(rows.last()@[j as int] == row@[j as int]);
            assert(w as int == display_width(rows.last()@[j as int]@));
            assert(width_over(rows, j as int, display_width(head@[j as int]@) as int) == (if w > before[j as int] {
                w as int
            } else {
                before[j as int] as int
            }));
            if w > widths[j] {
                widths.set(j, w);
            }
            j = j + 1;
        }
        assert forall|t: int| 0 <= t < n implies widths@[t] == width_over(
            body@.take(k + 1),
            t,
            display_width(head@[t]@) as int,
        ) by {
            assert(rows.len() > 0);
            assert(rows.last() == *row);
            if t >= j {
                assert(t >= row@.len());
                assert(widths@[t] == before[t]);
                assert(before[t] == width_over(rows.drop_last(), t, display_width(head@[t]@) as int));
                assert(width_over(rows, t, display_width(head@[t]@) as int) == width_over(
                    rows.drop_last(),
                    t,
                    display_width(head@[t]@) as int,
                ));
            }
        }
        k = k + 1;
    }
    assert(body@.take(body@.len() as int) =~= body@);
    assert(widths@.map_values(|w: usize| w as int) =~= column_widths_spec(head@, body@));
    widths
}

/// A cell followed by the spaces that fill its column of width `w`.
fn pad_cell(cell: &str, w: usize) -> (r: String)
    ensures
        r@ == padded_cell(cell@, w as int),
{
    let mut r = String::new();
    push_str(&mut r, cell);
    let cw = str_width(cell);
    if w > cw {
        let mut i: usize = 0;
        while i < w - cw
            invariant
                cw < w,
                i <= w - cw,
                r@ == cell@ + spaces(i as int),
            decreases w - cw - i,
        {
            crate::text::push_char(&mut r, ' ');
            assert(cell@ + spaces(i + 1) =~= (cell@ + spaces(i as int)).push(' '));
            i = i + 1;
        }
    }
    r
}

/// A row of the table (see `row_text`).
fn table_row(cells: &Vec<String>, widths: &Vec<usize>) -> (r: String)
    ensures
        r@ == row_text(cells@, widths@.map_values(|w: usize| w as int)),
{
    let ghost ws = widths@.map_values(|w: usize| w as int);
    let ghost all = Seq::new(cells@.len(), |j: int| padded_cell(cells@[j]@, width_at(ws, j)));
    let mut padded: Vec<String> = Vec::new();
    let mut j: usize = 0;
    while j < cells.len()
        invariant
            j <= cells@.len(),
            ws == widths@.map_values(|w: usize| w as int),
            all == Seq::new(cells@.len(), |j: int| padded_cell(cells@[j]@, width_at(ws, j))),
            padded@.map_values(|x: String| x@) == all.take(j as int),
        decreases cells.len() - j,
    {
        let w = if j < widths.len() {
            widths[j]
        } else {
            0
        };
        let p = pad_cell(cells[j].as_str(), w);
        let ghost before = padded@.map_values(|x: String| x@);
        padded.push(p);
        assert(padded@.map_values(|x: String| x@) =~= before.push(all[j as int]));
        assert(all.take(j + 1) =~= all.take(j as int).push(all[j as int]));
        j = j + 1;
    }
    assert(all.take(cells@.len() as int) =~= all);
    let mut r = String::new();
    push_joined(&mut r, &padded, " | ");
    assert(r@ =~= row_text(cells@, ws));
    r
}

/// `n` dashes.
fn dash_line(n: usize) -> (r: String)
    ensures
        r@ == dashes(n as int),
{
    let mut r = String::new();
    let mut i: usize = 0;
    while i < n
        invariant
            i <= n,
            r@ == dashes(i as int),
        decreases n - i,
    {
        crate::text::push_char(&mut r, '-');
        assert(dashes(i + 1) =~= dashes(i as int).push('-'));
        i = i + 1;
    }
    r
}

/// A rule as wide as the table (see `rule_text`).
fn table_rule(widths: &Vec<usize>) -> (r: String)
    ensures
        r@ == rule_text(widths@.map_values(|w: usize| w as int)),
{
    let ghost ws = widths@.map_values(|w: usize| w as int);
    let ghost all = ws.map_values(|w: int| dashes(w));
    let mut parts: Vec<String> = Vec::new();
    let mut j: usize = 0;
    while j < widths.len()
        invariant
            j <= widths@.len(),
            ws == widths@.map_values(|w: usize| w as int),
            all == ws.map_values(|w: int| dashes(w)),
            parts@.map_values(|x: String| x@) == all.take(j as int),
        decreases widths.len() - j,
    {
        let d = dash_line(widths[j]);
        let ghost before = parts@.map_values(|x: String| x@);
        parts.push(d);
        assert(parts@.map_values(|x: String| x@) =~= before.push(all[j as int]));
        assert(all.take(j + 1) =~= all.take(j as int).push(all[j as int]));
        j = j + 1;
    }
    assert(all.take(widths@.len() as int) =~= all);
    let mut r = String::new();
    push_joined(&mut r, &parts, "---");
    assert(r@ =~= rule_text(ws));
    r
}

/// The lines of a table with the header `head` and the rows `body` (see
/// `table_spec`).
pub fn table_lines(head: &Vec<String>, body: &Vec<Vec<String>>) -> (r: Vec<String>)
    ensures
        r@.map_values(|x: String| x@) == table_spec(head@, body@),
{
    let widths = column_widths(head, body);
    let ghost ws = widths@.map_values(|w: usize| w as int);
    let ghost all = table_spec(head@, body@);
    let mut r: Vec<String> = Vec::new();
    let rule = table_rule(&widths);
    let header = table_row(head, &widths);
    let rule2 = table_rule(&widths);
    r.push(rule);
    r.push(header);
    r.push(rule2);
    assert(r@.map_values(|x: String| x@) =~= all.take(3));
    let mut k: usize = 0;
    while k < body.len()
        invariant
            k <= body@.len(),
            ws == widths@.map_values(|w: usize| w as int),
            ws == column_widths_spec(head@, body@),
            all == table_spec(head@, body@),
            r@.map_values(|x: String| x@) == all.take(3 + k),
        decreases body.len() - k,
    {
        let line = table_row(&body[k], &widths);
        let ghost before = r@.map_values(|x: String| x@);
        r.push(line);
        assert(r@.map_values(|x: String| x@) =~= before.push(all[3 + k]));
        assert(all.take(3 + k + 1) =~= all.take(3 + k).push(all[3 + k]));
        k = k + 1;
    }
    let ghost before = r@.map_values(|x: String| x@);
    r.push(table_rule(&widths));
    assert(r@.map_values(|x: String| x@) =~= before.push(rule_text(ws)));
    assert(r@.map_values(|x: String| x@) =~= all);
    r
}

} // verus!
