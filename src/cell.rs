//! Cell values of a table snapshot and their textual rendering.
use vstd::prelude::*;
use vstd::string::StringExecFns;

verus! {

/// One cell of a table: a small closed union of loosely typed values.
///
/// A number is held as its canonical JSON text (for example `6`, `-3` or `2.5`),
/// which is what rendering and comparison need of it.
#[derive(Debug, Clone, PartialEq, Eq)]
pub enum Cell {
    Str(String),
    Number(String),
    Bool(bool),
    Null,
}

/// The mathematical value of a [`Cell`].
pub enum CellView {
    Str(Seq<char>),
    Number(Seq<char>),
    Bool(bool),
    Null,
}

impl View for Cell {
    type V = CellView;

    open spec fn view(&self) -> CellView {
        match self {
            Cell::Str(s) => CellView::Str(s@),
            Cell::Number(t) => CellView::Number(t@),
            Cell::Bool(b) => CellView::Bool(*b),
            Cell::Null => CellView::Null,
        }
    }
}

/// A row: the cells of one table line, in column order.
pub type Row = Vec<Cell>;

/// The full table contents captured by one fetch.
pub type Snapshot = Vec<Row>;

/// The cell values of a row.
pub open spec fn row_view(r: Seq<Cell>) -> Seq<CellView> {
    r.map_values(|c: Cell| c@)
}

/// The rows of a snapshot, each as its cell values.
pub open spec fn snapshot_view(s: Seq<Row>) -> Seq<Seq<CellView>> {
    s.map_values(|r: Row| row_view(r@))
}

/// JSON text of a string value, quotes and escapes included.
pub uninterp spec fn json_string_text(s: Seq<char>) -> Seq<char>;

/// Relies on serde_json's `Display` for `Value::String`: the compact JSON
/// encoding of the string, which depends on its characters alone.
#[verifier::external_body]
fn json_string(s: &String) -> (r: String)
    ensures
        r@ == json_string_text(s@),
{
    serde_json::Value::String(s.clone()).to_string()
}

/// The canonical text of a cell, as it appears in a notification.
pub open spec fn cell_text(c: CellView) -> Seq<char> {
    match c {
        CellView::Str(s) => json_string_text(s),
        CellView::Number(t) => t,
        CellView::Bool(b) => if b { seq!['t', 'r', 'u', 'e'] } else { seq!['f', 'a', 'l', 's', 'e'] },
        CellView::Null => seq!['n', 'u', 'l', 'l'],
    }
}

/// The separator placed between rendered cells.
pub open spec fn separator() -> Seq<char> {
    seq![',', ' ']
}

/// The texts of a sequence, joined by [`separator`].
pub open spec fn joined(ts: Seq<Seq<char>>) -> Seq<char>
    decreases ts.len(),
{
    if ts.len() == 0 {
        Seq::empty()
    } else if ts.len() == 1 {
        ts[0]
    } else {
        joined(ts.drop_last()) + separator() + ts.last()
    }
}

/// The rendered form of a row: its cells' texts joined by `", "`.
pub open spec fn row_text(r: Seq<CellView>) -> Seq<char> {
    joined(r.map_values(|c: CellView| cell_text(c)))
}

/// Structural equality of two cells.
pub fn cell_eq(a: &Cell, b: &Cell) -> (r: bool)
    ensures
        r == (a@ == b@),
{
    match a {
        Cell::Str(x) => match b {
            Cell::Str(y) => *x == *y,
            _ => false,
        },
        Cell::Number(x) => match b {
            Cell::Number(y) => *x == *y,
            _ => false,
        },
        Cell::Bool(x) => match b {
            Cell::Bool(y) => *x == *y,
            _ => false,
        },
        Cell::Null => match b {
            Cell::Null => true,
            _ => false,
        },
    }
}

/// Deep equality of two rows: same length and equal cells at each position.
pub fn row_eq(a: &Row, b: &Row) -> (r: bool)
    ensures
        r == (row_view(a@) == row_view(b@)),
{
    if a.len() != b.len() {
        assert(row_view(a@).len() != row_view(b@).len());
        return false;
    }
    let mut i: usize = 0;
    while i < a.len()
        invariant
            a.len() == b.len(),
            i <= a.len(),
            forall|j: int| 0 <= j < i ==> a@[j]@ == b@[j]@,
        decreases a.len() - i,
    {
        if !cell_eq(&a[i], &b[i]) {
            assert(row_view(a@)[i as int] != row_view(b@)[i as int]);
            return false;
        }
        i += 1;
    }
    assert(row_view(a@) =~= row_view(b@));
    true
}

/// Renders one cell to its canonical text.
pub fn render_cell(c: &Cell) -> (r: String)
    ensures
        r@ == cell_text(c@),
{
    match c {
        Cell::Str(s) => json_string(s),
        Cell::Number(t) => t.clone(),
        Cell::Bool(b) => {
            if *b {
                proof { reveal_strlit("true"); }
                String::from_str("true")
            } else {
                proof { reveal_strlit("false"); }
                String::from_str("false")
            }
        },
        Cell::Null => {
            proof { reveal_strlit("null"); }
            String::from_str("null")
        },
    }
}

/// Joins texts with `", "` between consecutive ones.
pub fn join_texts(texts: &Vec<String>) -> (r: String)
    ensures
        r@ == joined(texts@.map_values(|t: String| t@)),
{
    let ghost ts = texts@.map_values(|t: String| t@);
    let mut out = String::new();
    let mut i: usize = 0;
    while i < texts.len()
        invariant
            i <= texts.len(),
            ts == texts@.map_values(|t: String| t@),
            out@ == joined(ts.take(i as int)),
        decreases texts.len() - i,
    {
        let ghost before = out@;
        if i > 0 {
            out.append(", ");
            proof { reveal_strlit(", "); }
            assert(", "@ =~= separator());
        }
        out.append(texts[i].as_str());
        proof {
            let next = ts.take(i as int + 1);
            assert(next.drop_last() =~= ts.take(i as int));
            assert(next.last() == texts@[i as int]@);
            if i == 0 {
                assert(before =~= Seq::<char>::empty());
                assert(out@ =~= texts@[0]@);
            }
        }
        i += 1;
    }
    assert(ts.take(texts.len() as int) =~= ts);
    out
}

/// Renders a row: every cell's canonical text, in order, joined by `", "`.
pub fn render_row(row: &Row) -> (r: String)
    ensures
        r@ == row_text(row_view(row@)),
{
    let mut texts: Vec<String> = Vec::new();
    let mut i: usize = 0;
    while i < row.len()
        invariant
            i <= row.len(),
            texts.len() == i,
            forall|j: int| 0 <= j < i ==> #[trigger] texts@[j]@ == cell_text(row@[j]@),
        decreases row.len() - i,
    {
        texts.push(render_cell(&row[i]));
        i += 1;
    }
    assert(texts@.map_values(|t: String| t@) =~= row_view(row@).map_values(|c: CellView| cell_text(c)));
    join_texts(&texts)
}

} // verus!
