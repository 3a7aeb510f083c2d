use std::sync::Arc;

use datafusion::arrow::array::{ArrayRef, Float64Array, Int64Array, StringArray, TimestampSecondArray};
use datafusion::arrow::record_batch::RecordBatch;
use raam::batch::{read_batches, update_buffers, Batch};
use raam::projector::TextCell;

fn measurements(inlet: Vec<i64>, outlet: Vec<Option<f64>>, label: Vec<&str>) -> Batch {
    let columns: Vec<(&str, ArrayRef)> = vec![
        ("inlet_temperature", Arc::new(Int64Array::from(inlet))),
        ("outlet_temperature", Arc::new(Float64Array::from(outlet))),
        ("label", Arc::new(StringArray::from(label))),
    ];
    Batch { inner: RecordBatch::try_from_iter(columns).unwrap() }
}

fn triple(cell: &TextCell) -> (usize, u64, &str) {
    (cell.column, cell.row, cell.text.as_str())
}

fn some(text: &str) -> Option<String> {
    Some(text.to_string())
}

#[test]
fn batch_values_are_read_as_text() {
    let batch = measurements(vec![21, -4], vec![Some(22.5), Some(3.0)], vec!["a", "b c"]);
    let rows = read_batches(&vec![batch]);
    assert_eq!(
        rows,
        vec![vec![some("21"), some("22.5"), some("a")], vec![some("-4"), some("3.0"), some("b c")]]
    );
}

#[test]
fn null_is_shown_as_empty_text() {
    let batch = measurements(vec![1], vec![None], vec!["x"]);
    assert_eq!(read_batches(&vec![batch]), vec![vec![some("1"), some(""), some("x")]]);
}

#[test]
fn cells_of_one_batch() {
    let batch = measurements(vec![21, 19], vec![Some(22.5), Some(20.25)], vec!["a", "b"]);
    let cells = update_buffers(&vec![batch], 0);
    let got: Vec<_> = cells.iter().map(triple).collect();
    assert_eq!(
        got,
        vec![(0, 1, "21"), (1, 1, "22.5"), (2, 1, "a"), (0, 2, "19"), (1, 2, "20.25"), (2, 2, "b")]
    );
}

#[test]
fn cells_start_after_skip() {
    let batch = measurements(vec![7], vec![Some(0.5)], vec!["z"]);
    let cells = update_buffers(&vec![batch], 60);
    let got: Vec<_> = cells.iter().map(triple).collect();
    assert_eq!(got, vec![(0, 61, "7"), (1, 61, "0.5"), (2, 61, "z")]);
}

#[test]
fn rows_of_later_batches_are_numbered_on() {
    let first = measurements(vec![1, 2], vec![Some(1.0), Some(2.0)], vec!["a", "b"]);
    let second = measurements(vec![3], vec![Some(3.0)], vec!["c"]);
    let cells = update_buffers(&vec![first, second], 10);
    let rows: Vec<u64> = cells.iter().map(|c| c.row).collect();
    assert_eq!(rows, vec![11, 11, 11, 12, 12, 12, 13, 13, 13]);
    assert_eq!(triple(&cells[6]), (0, 13, "3"));
    assert_eq!(triple(&cells[8]), (2, 13, "c"));
}

#[test]
fn no_batches_and_empty_batches_give_no_cells() {
    assert!(update_buffers(&Vec::new(), 3).is_empty());
    let empty = measurements(vec![], vec![], vec![]);
    assert!(update_buffers(&vec![empty], 3).is_empty());
    assert!(read_batches(&Vec::new()).is_empty());
}

#[test]
fn column_without_display_form_is_left_out() {
    let stamps = TimestampSecondArray::from(vec![0, 60]).with_timezone("Nowhere/Land");
    let columns: Vec<(&str, ArrayRef)> = vec![
        ("n", Arc::new(Int64Array::from(vec![5, 6]))),
        ("at", Arc::new(stamps)),
        ("s", Arc::new(StringArray::from(vec!["p", "q"]))),
    ];
    let batch = Batch { inner: RecordBatch::try_from_iter(columns).unwrap() };
    let cells = update_buffers(&vec![batch], 0);
    let got: Vec<_> = cells.iter().map(triple).collect();
    assert_eq!(got, vec![(0, 1, "5"), (2, 1, "p"), (0, 2, "6"), (2, 2, "q")]);
}
