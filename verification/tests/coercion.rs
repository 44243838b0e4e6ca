use mysql_viewer::cell::{coerce, CellValue};

#[test]
fn coerce_text_passes_through() {
    let r = coerce(&CellValue::Text("hello".to_string()));
    assert_eq!(r, "hello".to_string());
}

#[test]
fn coerce_empty_text_stays_empty() {
    let r = coerce(&CellValue::Text(String::new()));
    assert_eq!(r, String::new());
}

#[test]
fn coerce_null_yields_sentinel() {
    assert_eq!(coerce(&CellValue::Null), "NULL".to_string());
}

#[test]
fn coerce_undecodable_yields_sentinel() {
    assert_eq!(coerce(&CellValue::Undecodable), "NULL".to_string());
}

#[test]
fn null_and_undecodable_collide() {
    assert_eq!(coerce(&CellValue::Null), coerce(&CellValue::Undecodable));
}
