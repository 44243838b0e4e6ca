use mysql_viewer::cell::CellValue;
use mysql_viewer::executor::{
    assemble_outcome, assemble_rows, FetchOutcome, QuerySubmissionError, RowData,
};

fn text_row(cells: &[&str]) -> RowData {
    RowData::Cells(cells.iter().map(|s| CellValue::Text(s.to_string())).collect())
}

#[test]
fn zero_rows_give_empty_result() {
    let rows: Vec<RowData> = Vec::new();
    let r = assemble_rows(&rows);
    assert_eq!(r.row_count(), 0);
    assert!(r.rows.is_empty());
}

#[test]
fn rows_keep_driver_order_and_shape() {
    let rows = vec![text_row(&["1", "2"]), text_row(&["3", "4"])];
    let r = assemble_rows(&rows);
    assert_eq!(
        r.rows,
        vec![
            vec!["1".to_string(), "2".to_string()],
            vec!["3".to_string(), "4".to_string()],
        ]
    );
}

#[test]
fn every_cell_is_coerced_in_place() {
    let rows = vec![RowData::Cells(vec![
        CellValue::Text("a".to_string()),
        CellValue::Null,
        CellValue::Undecodable,
    ])];
    let r = assemble_rows(&rows);
    assert_eq!(
        r.rows,
        vec![vec!["a".to_string(), "NULL".to_string(), "NULL".to_string()]]
    );
}

#[test]
fn failed_row_is_skipped_not_fatal() {
    let rows = vec![text_row(&["a"]), RowData::Failed, text_row(&["b"])];
    let r = assemble_rows(&rows);
    assert_eq!(r.rows, vec![vec!["a".to_string()], vec!["b".to_string()]]);
}

#[test]
fn ragged_rows_keep_their_own_lengths() {
    let rows = vec![text_row(&["x"]), text_row(&["y", "z"])];
    let r = assemble_rows(&rows);
    assert_eq!(r.rows.len(), 2);
    assert_eq!(r.rows[0].len(), 1);
    assert_eq!(r.rows[1].len(), 2);
}

#[test]
fn rejected_query_yields_empty_result() {
    let outcome = FetchOutcome::Rejected(QuerySubmissionError {
        message: "syntax error".to_string(),
    });
    let r = assemble_outcome(&outcome);
    assert_eq!(r.row_count(), 0);
    assert!(r.rows.is_empty());
}

#[test]
fn accepted_rows_assemble_through_outcome() {
    let outcome = FetchOutcome::Rows(vec![text_row(&["1", "2"]), text_row(&["3", "4"])]);
    let r = assemble_outcome(&outcome);
    assert_eq!(
        r.rows,
        vec![
            vec!["1".to_string(), "2".to_string()],
            vec!["3".to_string(), "4".to_string()],
        ]
    );
}
