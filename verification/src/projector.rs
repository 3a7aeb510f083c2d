//! From rows of text to the cells of the grid.
//!
//! Row 0 of the grid holds the field names. The rows of a result page follow:
//! row `r` of a page that starts after `skip` rows of the dataset is grid row
//! `skip + r + 1`. A value without text yields no cell; the cells of the other
//! values of its row keep their columns.
//!
//! A text cell becomes a cell on display once a text shaper has turned its
//! text into glyph geometry. The shaper is a function that the caller hands in;
//! what it returns is carried along unread. Where it fails on a text, that cell
//! is left out and the others are kept.

use vstd::prelude::*;

verus! {

/// The text of one value at a logical grid coordinate.
#[derive(Debug)]
pub struct TextCell {
    pub column: usize,
    pub row: u64,
    pub text: String,
}

/// What a [`TextCell`] stands for.
pub struct TextCellView {
    pub column: usize,
    pub row: u64,
    pub text: Seq<char>,
}

impl DeepView for TextCell {
    type V = TextCellView;

    open spec fn deep_view(&self) -> TextCellView {
        TextCellView { column: self.column, row: self.row, text: self.text@ }
    }
}

impl View for TextCell {
    type V = TextCellView;

    open spec fn view(&self) -> TextCellView {
        self.deep_view()
    }
}

impl TextCell {
    pub fn new(column: usize, row: u64, text: String) -> (cell: TextCell)
        ensures
            cell@ == (TextCellView { column, row, text: text@ }),
    {
        TextCell { column, row, text }
    }
}

/// The values of one row, in column order; `None` for a value without text.
pub type TextRow = Seq<Option<Seq<char>>>;

/// Grid row of row `index` of a page that starts after `skip` rows. Row
/// numbers stop at the largest `u64`.
pub open spec fn logical_row(skip: int, index: int) -> int {
    if skip + index + 1 > u64::MAX {
        u64::MAX as int
    } else {
        skip + index + 1
    }
}

/// The cells of one row of values, left to right.
pub open spec fn row_cells(values: TextRow, row: u64) -> Seq<TextCellView>
    decreases values.len(),
{
    if values.len() == 0 {
        Seq::empty()
    } else {
        let before = row_cells(values.drop_last(), row);
        match values.last() {
            Some(text) => before.push(
                TextCellView { column: (values.len() - 1) as usize, row, text },
            ),
            None => before,
        }
    }
}

/// The cells of a page of rows, top to bottom and left to right within a row.
pub open spec fn table_cells(rows: Seq<TextRow>, skip: u64) -> Seq<TextCellView>
    decreases rows.len(),
{
    if rows.len() == 0 {
        Seq::empty()
    } else {
        table_cells(rows.drop_last(), skip) + row_cells(
            rows.last(),
            logical_row(skip as int, rows.len() - 1) as u64,
        )
    }
}

/// The cells of the header row: field `j` at column `j` of row 0.
pub open spec fn header_row(names: Seq<Seq<char>>) -> Seq<TextCellView> {
    Seq::new(names.len(), |j: int| TextCellView { column: j as usize, row: 0, text: names[j] })
}

/// One cell per field name, in row 0. The header does not depend on any page.
pub fn header_cells(field_names: &Vec<String>) -> (cells: Vec<TextCell>)
    ensures
        cells.deep_view() == header_row(field_names.deep_view()),
{
    let mut cells: Vec<TextCell> = Vec::new();
    let mut j: usize = 0;
    while j < field_names.len()
        invariant
            0 <= j <= field_names.len(),
            cells.len() == j,
            forall|k: int|
                0 <= k < j ==> (#[trigger] cells[k])@ == (TextCellView {
                    column: k as usize,
                    row: 0,
                    text: field_names[k]@,
                }),
        decreases field_names.len() - j,
    {
        cells.push(TextCell::new(j, 0, field_names[j].clone()));
        j = j + 1;
    }
    assert(cells.deep_view() =~= header_row(field_names.deep_view()));
    cells
}

/// Computes [`logical_row`].
pub fn logical_row_of(skip: u64, index: usize) -> (row: u64)
    ensures
        row == logical_row(skip as int, index as int),
        row >= 1,
{
    let wide: u128 = skip as u128 + index as u128 + 1;
    if wide > u64::MAX as u128 {
        u64::MAX
    } else {
        wide as u64
    }
}

/// Adding a row of values to a page adds the cells of that row.
pub proof fn lemma_table_cells_push(rows: Seq<TextRow>, values: TextRow, skip: u64)
    ensures
        table_cells(rows.push(values), skip) == table_cells(rows, skip) + row_cells(
            values,
            logical_row(skip as int, rows.len() as int) as u64,
        ),
{
    assert(rows.push(values).drop_last() =~= rows);
}

/// Adding a value to a row adds its cell, if it has text.
pub proof fn lemma_row_cells_push(values: TextRow, value: Option<Seq<char>>, row: u64)
    ensures
        row_cells(values.push(value), row) == match value {
            Some(text) => row_cells(values, row).push(
                TextCellView { column: values.len() as usize, row, text },
            ),
            None => row_cells(values, row),
        },
{
    assert(values.push(value).drop_last() =~= values);
}

/// A row whose values all have text yields one cell per value: value `c` at
/// column `c`.
pub proof fn lemma_full_row(values: TextRow, row: u64)
    requires
        values.len() <= usize::MAX,
        forall|c: int| 0 <= c < values.len() ==> (#[trigger] values[c]).is_some(),
    ensures
        row_cells(values, row).len() == values.len(),
        forall|c: int|
            0 <= c < values.len() ==> row_cells(values, row)[c] == (TextCellView {
                column: c as usize,
                row,
                text: (#[trigger] values[c]).unwrap(),
            }),
    decreases values.len(),
{
    if values.len() > 0 {
        let front = values.drop_last();
        lemma_full_row(front, row);
        assert forall|c: int| 0 <= c < values.len() implies row_cells(values, row)[c] == (TextCellView {
            column: c as usize,
            row,
            text: (#[trigger] values[c]).unwrap(),
        }) by {
            if c < values.len() - 1 {
                assert(front[c] == values[c]);
            }
        }
    }
}

/// A page of `width` values per row, all with text, is a full grid: it has
/// `rows.len() * width` cells, and the value of row `r` and column `c` is cell
/// `r * width + c`, at column `c` of grid row `skip + r + 1`.
pub proof fn lemma_full_page(rows: Seq<TextRow>, width: nat, skip: u64)
    requires
        width <= usize::MAX,
        forall|r: int| 0 <= r < rows.len() ==> (#[trigger] rows[r]).len() == width,
        forall|r: int, c: int|
            0 <= r < rows.len() && 0 <= c < width ==> (#[trigger] rows[r][c]).is_some(),
    ensures
        table_cells(rows, skip).len() == rows.len() * width,
        forall|r: int, c: int|
            0 <= r < rows.len() && 0 <= c < width ==> table_cells(rows, skip)[r * width + c] == (
            TextCellView {
                column: c as usize,
                row: logical_row(skip as int, r) as u64,
                text: (#[trigger] rows[r][c]).unwrap(),
            }),
    decreases rows.len(),
{
    let n = rows.len() as int;
    let w = width as int;
    if n == 0 {
        assert(n * w == 0) by (nonlinear_arith)
            requires
                n == 0,
        ;
    } else {
        let front = rows.drop_last();
        let last_row = logical_row(skip as int, n - 1) as u64;
        lemma_full_page(front, width, skip);
        assert forall|c: int| 0 <= c < rows.last().len() implies (#[trigger] rows.last()[c]).is_some() by {
            assert(rows[n - 1][c].is_some());
        }
        lemma_full_row(rows.last(), last_row);
        assert((n - 1) * w + w == n * w) by (nonlinear_arith);
        assert forall|r: int, c: int| 0 <= r < n && 0 <= c < w implies table_cells(rows, skip)[r * w
            + c] == (TextCellView {
            column: c as usize,
            row: logical_row(skip as int, r) as u64,
            text: (#[trigger] rows[r][c]).unwrap(),
        }) by {
            if r < n - 1 {
                assert(r * w + c < (n - 1) * w && 0 <= r * w + c) by (nonlinear_arith)
                    requires
                        0 <= r < n - 1,
                        0 <= c < w,
                ;
                assert(front[r] == rows[r]);
                assert(front[r][c].is_some());
            } else {
                assert(r * w + c == (n - 1) * w + c);
                assert(rows.last()[c].is_some());
            }
        }
    }
}

/// Every cell of a row of values lies in that row.
pub proof fn lemma_row_cells_row(values: TextRow, row: u64)
    ensures
        forall|i: int|
            0 <= i < row_cells(values, row).len() ==> (#[trigger] row_cells(values, row)[i]).row == row,
    decreases values.len(),
{
    if values.len() > 0 {
        let before = row_cells(values.drop_last(), row);
        lemma_row_cells_row(values.drop_last(), row);
        assert forall|i: int| 0 <= i < row_cells(values, row).len() implies (#[trigger] row_cells(
            values,
            row,
        )[i]).row == row by {
            if i < before.len() {
                assert(before[i].row == row);
            }
        }
    }
}

/// No cell of a page lies in row 0, which is the header's, and none lies above
/// the first row of the page.
pub proof fn lemma_page_below_header(rows: Seq<TextRow>, skip: u64)
    ensures
        forall|i: int|
            0 <= i < table_cells(rows, skip).len() ==> {
                let cell = #[trigger] table_cells(rows, skip)[i];
                cell.row >= 1 && cell.row >= logical_row(skip as int, 0)
            },
    decreases rows.len(),
{
    if rows.len() > 0 {
        let above = table_cells(rows.drop_last(), skip);
        let row = logical_row(skip as int, rows.len() - 1) as u64;
        lemma_page_below_header(rows.drop_last(), skip);
        lemma_row_cells_row(rows.last(), row);
        assert forall|i: int| 0 <= i < table_cells(rows, skip).len() implies {
            let cell = #[trigger] table_cells(rows, skip)[i];
            cell.row >= 1 && cell.row >= logical_row(skip as int, 0)
        } by {
            if i < above.len() {
                assert(above[i].row >= 1);
            } else {
                assert(row_cells(rows.last(), row)[i - above.len()].row == row);
            }
        }
    }
}

/// Appends the cells of one row of values to `cells`.
fn project_row(cells: &mut Vec<TextCell>, values: &Vec<Option<String>>, row: u64)
    ensures
        final(cells).deep_view() == old(cells).deep_view() + row_cells(values.deep_view(), row),
{
    let ghost before = cells.deep_view();
    let mut c: usize = 0;
    while c < values.len()
        invariant
            0 <= c <= values.len(),
            cells.deep_view() == before + row_cells(values.deep_view().take(c as int), row),
        decreases values.len() - c,
    {
        let ghost seen = values.deep_view().take(c as int);
        let ghost was = cells.deep_view();
        proof {
            lemma_row_cells_push(seen, values.deep_view()[c as int], row);
            assert(seen.push(values.deep_view()[c as int]) =~= values.deep_view().take(c + 1));
        }
        match &values[c] {
            Some(text) => {
                cells.push(TextCell::new(c, row, text.clone()));
                assert(cells.deep_view() =~= was.push(
                    TextCellView { column: c, row, text: text@ },
                ));
            },
            None => {},
        }
        c = c + 1;
    }
    assert(values.deep_view().take(values.len() as int) =~= values.deep_view());
}

/// The cells of a page of rows that starts after `skip` rows of the dataset.
/// Together they replace the cells of the page shown before.
pub fn project(rows: &Vec<Vec<Option<String>>>, skip: u64) -> (cells: Vec<TextCell>)
    ensures
        cells.deep_view() == table_cells(rows.deep_view(), skip),
{
    let mut cells: Vec<TextCell> = Vec::new();
    let mut r: usize = 0;
    assert(cells.deep_view() =~= Seq::<TextCellView>::empty());
    while r < rows.len()
        invariant
            0 <= r <= rows.len(),
            cells.deep_view() == table_cells(rows.deep_view().take(r as int), skip),
        decreases rows.len() - r,
    {
        proof {
            lemma_table_cells_push(rows.deep_view().take(r as int), rows.deep_view()[r as int], skip);
            assert(rows.deep_view().take(r as int).push(rows.deep_view()[r as int])
                =~= rows.deep_view().take(r + 1));
        }
        project_row(&mut cells, &rows[r], logical_row_of(skip, r));
        r = r + 1;
    }
    assert(rows.deep_view().take(rows.len() as int) =~= rows.deep_view());
    cells
}

/// One rendered text fragment at a logical grid coordinate, with the glyph
/// geometry that the shaper gave for its text.
#[derive(Debug)]
pub struct Cell<G> {
    pub column: usize,
    pub row: u64,
    pub quad_geometry: G,
}

/// What becomes of one text cell: a cell on display where the shaper gave
/// geometry, nothing where it failed.
pub open spec fn attached<G>(cell: TextCell, outcome: Option<G>) -> Option<Cell<G>> {
    match outcome {
        Some(quad_geometry) => Some(Cell { column: cell.column, row: cell.row, quad_geometry }),
        None => None,
    }
}

/// The cells on display for `cells`, where `outcomes[i]` is what the shaper
/// returned for `cells[i]`: those with geometry, in their order.
pub open spec fn kept<G>(cells: Seq<TextCell>, outcomes: Seq<Option<G>>) -> Seq<Cell<G>>
    decreases cells.len(),
{
    if cells.len() == 0 {
        Seq::empty()
    } else {
        let before = kept(cells.drop_last(), outcomes.drop_last());
        match attached(cells.last(), outcomes.last()) {
            Some(cell) => before.push(cell),
            None => before,
        }
    }
}

/// `outcomes` holds, for each cell of `cells`, a result of `shape` on its text.
pub open spec fn shaped_with<G, F: Fn(&String) -> Option<G>>(
    shape: F,
    cells: Seq<TextCell>,
    outcomes: Seq<Option<G>>,
) -> bool {
    &&& outcomes.len() == cells.len()
    &&& forall|i: int|
        0 <= i < cells.len() ==> call_ensures(shape, (&cells[i].text,), #[trigger] outcomes[i])
}

/// `shaped` is what shaping with `shape` made of text cells that stand for
/// `page`: for each in turn, `shape` was called on its text once, and the cell
/// was kept with the geometry returned or left out on `None`.
pub open spec fn shaping_of<G, F: Fn(&String) -> Option<G>>(
    shape: F,
    page: Seq<TextCellView>,
    shaped: Seq<Cell<G>>,
) -> bool {
    exists|cells: Seq<TextCell>, outcomes: Seq<Option<G>>|
        {
            &&& cells.map_values(|c: TextCell| c@) == page
            &&& shaped_with(shape, cells, outcomes)
            &&& shaped == #[trigger] kept(cells, outcomes)
        }
}

/// Where the shaper fails on no cell, every text cell is on display, in the
/// same place and order.
pub proof fn lemma_kept_all<G>(cells: Seq<TextCell>, outcomes: Seq<Option<G>>)
    requires
        outcomes.len() == cells.len(),
        forall|i: int| 0 <= i < outcomes.len() ==> (#[trigger] outcomes[i]).is_some(),
    ensures
        kept(cells, outcomes).len() == cells.len(),
        forall|i: int|
            0 <= i < cells.len() ==> #[trigger] kept(cells, outcomes)[i] == (Cell {
                column: cells[i].column,
                row: cells[i].row,
                quad_geometry: outcomes[i].unwrap(),
            }),
    decreases cells.len(),
{
    if cells.len() > 0 {
        lemma_kept_all(cells.drop_last(), outcomes.drop_last());
    }
}

/// Computes [`attached`].
pub fn attach<G>(cell: &TextCell, outcome: Option<G>) -> (shaped: Option<Cell<G>>)
    ensures
        shaped == attached(*cell, outcome),
{
    match outcome {
        Some(quad_geometry) => Some(Cell { column: cell.column, row: cell.row, quad_geometry }),
        None => None,
    }
}

/// Shapes each text cell in turn and keeps those that the shaper gave geometry
/// for. One failure costs one cell, never the page.
pub fn shape_cells<G, F: Fn(&String) -> Option<G>>(cells: &Vec<TextCell>, shape: &F) -> (shaped: Vec<
    Cell<G>,
>)
    requires
        forall|text: &String| call_requires(*shape, (text,)),
    ensures
        exists|outcomes: Seq<Option<G>>|
            shaped_with(*shape, cells@, outcomes) && shaped@ == #[trigger] kept(cells@, outcomes),
        shaping_of(*shape, cells.deep_view(), shaped@),
        shaped.len() <= cells.len(),
{
    let mut shaped: Vec<Cell<G>> = Vec::new();
    let ghost mut outcomes: Seq<Option<G>> = Seq::empty();
    let mut i: usize = 0;
    while i < cells.len()
        invariant
            0 <= i <= cells.len(),
            forall|text: &String| call_requires(*shape, (text,)),
            shaped_with(*shape, cells@.take(i as int), outcomes),
            shaped@ == kept(cells@.take(i as int), outcomes),
            shaped.len() <= i,
        decreases cells.len() - i,
    {
        let outcome: Option<G> = shape(&cells[i].text);
        proof {
            let next = outcomes.push(outcome);
            assert(cells@.take(i + 1).drop_last() =~= cells@.take(i as int));
            assert(next.drop_last() =~= outcomes);
            outcomes = next;
        }
        match attach(&cells[i], outcome) {
            Some(cell) => {
                shaped.push(cell);
            },
            None => {},
        }
        i = i + 1;
    }
    proof {
        assert(cells@.take(cells.len() as int) =~= cells@);
        assert(cells@.map_values(|c: TextCell| c@) =~= cells.deep_view());
    }
    shaped
}

} // verus!
