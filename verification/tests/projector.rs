use raam::projector::{attach, header_cells, logical_row_of, project, shape_cells, TextCell};

fn some(text: &str) -> Option<String> {
    Some(text.to_string())
}

fn triple(cell: &TextCell) -> (usize, u64, &str) {
    (cell.column, cell.row, cell.text.as_str())
}

#[test]
fn header_is_row_zero() {
    let names = vec!["inlet".to_string(), "outlet".to_string(), "energy".to_string()];
    let cells = header_cells(&names);
    let got: Vec<_> = cells.iter().map(triple).collect();
    assert_eq!(got, vec![(0, 0, "inlet"), (1, 0, "outlet"), (2, 0, "energy")]);
}

#[test]
fn header_of_no_fields_is_empty() {
    assert!(header_cells(&Vec::new()).is_empty());
}

#[test]
fn page_rows_follow_the_header() {
    let rows = vec![vec![some("1"), some("a")], vec![some("2"), some("b")]];
    let cells = project(&rows, 0);
    let got: Vec<_> = cells.iter().map(triple).collect();
    assert_eq!(got, vec![(0, 1, "1"), (1, 1, "a"), (0, 2, "2"), (1, 2, "b")]);
}

#[test]
fn page_rows_start_after_skip() {
    let rows = vec![vec![some("x")], vec![some("y")], vec![some("z")]];
    let cells = project(&rows, 60);
    let got: Vec<_> = cells.iter().map(triple).collect();
    assert_eq!(got, vec![(0, 61, "x"), (0, 62, "y"), (0, 63, "z")]);
}

#[test]
fn value_without_text_leaves_a_gap() {
    let rows = vec![vec![some("1"), None, some("c")], vec![None, some("b"), None]];
    let cells = project(&rows, 9);
    let got: Vec<_> = cells.iter().map(triple).collect();
    assert_eq!(got, vec![(0, 10, "1"), (2, 10, "c"), (1, 11, "b")]);
}

#[test]
fn ragged_and_empty_rows() {
    let rows = vec![vec![], vec![some("only")], vec![some("p"), some("q")]];
    let cells = project(&rows, 0);
    let got: Vec<_> = cells.iter().map(triple).collect();
    assert_eq!(got, vec![(0, 2, "only"), (0, 3, "p"), (1, 3, "q")]);
    assert!(project(&Vec::new(), 5).is_empty());
}

#[test]
fn row_numbers_stop_at_the_largest() {
    assert_eq!(logical_row_of(0, 0), 1);
    assert_eq!(logical_row_of(10, 5), 16);
    assert_eq!(logical_row_of(u64::MAX - 1, 0), u64::MAX);
    assert_eq!(logical_row_of(u64::MAX, 0), u64::MAX);
    assert_eq!(logical_row_of(u64::MAX, 3), u64::MAX);
    let rows = vec![vec![some("a")], vec![some("b")]];
    let cells = project(&rows, u64::MAX - 1);
    let got: Vec<_> = cells.iter().map(triple).collect();
    assert_eq!(got, vec![(0, u64::MAX, "a"), (0, u64::MAX, "b")]);
}

#[test]
fn shaping_keeps_position_and_geometry() {
    let rows = vec![vec![some("ab"), some("cde")], vec![some(""), some("f")]];
    let page = project(&rows, 3);
    let shaped = shape_cells(&page, &|text: &String| Some(text.len()));
    let got: Vec<_> = shaped.iter().map(|c| (c.column, c.row, c.quad_geometry)).collect();
    assert_eq!(got, vec![(0, 4, 2), (1, 4, 3), (0, 5, 0), (1, 5, 1)]);
}

#[test]
fn shaping_failure_drops_one_cell_only() {
    let rows = vec![vec![some("ok"), some("bad"), some("fine")], vec![some("bad"), some("last")]];
    let page = project(&rows, 0);
    let shaped = shape_cells(&page, &|text: &String| {
        if text == "bad" {
            None
        } else {
            Some(text.to_uppercase())
        }
    });
    let got: Vec<_> = shaped.iter().map(|c| (c.column, c.row, c.quad_geometry.as_str())).collect();
    assert_eq!(got, vec![(0, 1, "OK"), (2, 1, "FINE"), (1, 2, "LAST")]);
}

#[test]
fn shaping_failure_of_every_cell_gives_an_empty_page() {
    let page = project(&vec![vec![some("a"), some("b")]], 0);
    let shaped = shape_cells(&page, &|_: &String| None::<u8>);
    assert!(shaped.is_empty());
}

#[test]
fn attach_one_cell() {
    let cell = TextCell::new(2, 7, "t".to_string());
    let kept = attach(&cell, Some(1.5f32)).unwrap();
    assert_eq!((kept.column, kept.row, kept.quad_geometry), (2, 7, 1.5));
    assert!(attach(&cell, None::<f32>).is_none());
}
