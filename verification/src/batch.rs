//! Row batches as the query engine returns them.
//!
//! A batch is a table of typed columns. The grid shows each value as text, in
//! the form that the display formatter of `arrow` gives it with its default
//! options. What is proved about the cells of the grid is proved over that text,
//! which this module names but does not define.

use vstd::prelude::*;
use datafusion::arrow::error::ArrowError;
use datafusion::arrow::record_batch::RecordBatch;
use datafusion::arrow::util::display::array_value_to_string;
use crate::projector::{project, table_cells, TextCell, TextRow};

verus! {

/// One batch of rows of the query engine's result: an `arrow` `RecordBatch`,
/// which the verifier does not look into. All that is known of its contents is
/// what [`batch_text`] names. The field is public so that a batch of the engine
/// can be wrapped where it arrives.
#[verifier::external_body]
pub struct Batch {
    pub inner: RecordBatch,
}

/// `arrow`'s `ArrowError`, carried through unread.
#[verifier::external_type_specification]
#[verifier::external_body]
pub struct ExArrowError(ArrowError);

/// The displayed text of every value of a batch, row by row: entry `[r][c]` is
/// the text of row `r` in column `c`, or `None` where the column's type has no
/// display form.
pub uninterp spec fn batch_text(batch: Batch) -> Seq<Seq<Option<Seq<char>>>>;

/// `RecordBatch::num_rows`: the number of rows of the batch, which is the number
/// of rows of text that [`batch_text`] names.
#[verifier::external_body]
pub(crate) fn num_rows(batch: &Batch) -> (n: usize)
    ensures
        n == batch_text(*batch).len(),
{
    batch.inner.num_rows()
}

/// `RecordBatch::num_columns`: the number of columns of the batch. Every row of
/// a batch has one value in each column.
#[verifier::external_body]
pub(crate) fn num_columns(batch: &Batch) -> (n: usize)
    ensures
        forall|r: int| 0 <= r < batch_text(*batch).len() ==> (#[trigger] batch_text(*batch)[r]).len() == n,
{
    batch.inner.num_columns()
}

/// `arrow::util::display::array_value_to_string` on column `column` of the
/// batch (`RecordBatch::column`): the text of the value at `row`, or the error
/// with which the formatter refuses the column's type. Both calls panic on an
/// index out of range, which `requires` leaves out.
#[verifier::external_body]
pub(crate) fn value_text(batch: &Batch, column: usize, row: usize) -> (text: Result<
    String,
    ArrowError,
>)
    requires
        row < batch_text(*batch).len(),
        column < batch_text(*batch)[row as int].len(),
    ensures
        match text {
            Ok(s) => batch_text(*batch)[row as int][column as int] == Some(s@),
            Err(_) => batch_text(*batch)[row as int][column as int].is_none(),
        },
{
    array_value_to_string(batch.inner.column(column).as_ref(), row)
}

/// The rows of text of several batches, one batch after the other.
pub open spec fn batches_text(batches: Seq<Batch>) -> Seq<TextRow>
    decreases batches.len(),
{
    if batches.len() == 0 {
        Seq::empty()
    } else {
        batches_text(batches.drop_last()) + batch_text(batches.last())
    }
}

/// The text of row `row` of a batch of `ncols` columns.
fn read_row(batch: &Batch, row: usize, ncols: usize) -> (values: Vec<Option<String>>)
    requires
        row < batch_text(*batch).len(),
        batch_text(*batch)[row as int].len() == ncols,
    ensures
        values.deep_view() == batch_text(*batch)[row as int],
{
    let mut values: Vec<Option<String>> = Vec::new();
    let mut c: usize = 0;
    while c < ncols
        invariant
            0 <= c <= ncols,
            row < batch_text(*batch).len(),
            batch_text(*batch)[row as int].len() == ncols,
            values.len() == c,
            forall|k: int|
                0 <= k < c ==> (#[trigger] values[k]).deep_view() == batch_text(*batch)[row as int][k],
        decreases ncols - c,
    {
        let value: Option<String> = match value_text(batch, c, row) {
            Ok(text) => Some(text),
            Err(_) => None,
        };
        values.push(value);
        c = c + 1;
    }
    assert(values.deep_view() =~= batch_text(*batch)[row as int]);
    values
}

/// Appends the rows of text of a batch to `rows`.
fn read_batch(batch: &Batch, rows: &mut Vec<Vec<Option<String>>>)
    ensures
        final(rows).deep_view() == old(rows).deep_view() + batch_text(*batch),
{
    let ghost before = rows.deep_view();
    let nrows: usize = num_rows(batch);
    let ncols: usize = num_columns(batch);
    let mut r: usize = 0;
    while r < nrows
        invariant
            0 <= r <= nrows,
            nrows == batch_text(*batch).len(),
            forall|k: int|
                0 <= k < batch_text(*batch).len() ==> (#[trigger] batch_text(*batch)[k]).len()
                    == ncols,
            rows.len() == before.len() + r,
            forall|k: int| 0 <= k < before.len() ==> (#[trigger] rows[k]).deep_view() == before[k],
            forall|k: int|
                before.len() <= k < rows.len() ==> (#[trigger] rows[k]).deep_view() == batch_text(
                    *batch,
                )[k - before.len()],
        decreases nrows - r,
    {
        let values: Vec<Option<String>> = read_row(batch, r, ncols);
        rows.push(values);
        r = r + 1;
    }
    assert(rows.deep_view() =~= before + batch_text(*batch));
}

/// The text of every value of `batches`, row by row.
pub fn read_batches(batches: &Vec<Batch>) -> (rows: Vec<Vec<Option<String>>>)
    ensures
        rows.deep_view() == batches_text(batches@),
{
    let mut rows: Vec<Vec<Option<String>>> = Vec::new();
    let mut k: usize = 0;
    assert(rows.deep_view() =~= batches_text(batches@.take(0)));
    while k < batches.len()
        invariant
            0 <= k <= batches.len(),
            rows.deep_view() == batches_text(batches@.take(k as int)),
        decreases batches.len() - k,
    {
        assert(batches@.take(k + 1).drop_last() =~= batches@.take(k as int));
        read_batch(&batches[k], &mut rows);
        k = k + 1;
    }
    assert(batches@.take(batches.len() as int) =~= batches@);
    rows
}

/// The cells of a result that starts after `skip` rows of the dataset: the
/// rows of its batches in order, numbered on from grid row `skip + 1`.
pub fn update_buffers(batches: &Vec<Batch>, skip: u64) -> (cells: Vec<TextCell>)
    ensures
        cells.deep_view() == table_cells(batches_text(batches@), skip),
{
    let rows: Vec<Vec<Option<String>>> = read_batches(batches);
    project(&rows, skip)
}

} // verus!
