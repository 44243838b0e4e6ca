//! Coercion of native database cell values to display strings.

use vstd::prelude::*;

verus! {

/// What the driver handed back for one cell, reduced to the three shapes
/// the viewer distinguishes: a value that decodes to text, a true SQL
/// NULL, and a value whose native encoding cannot be decoded to text
/// (binary data, or a number or date the text protocol did not deliver
/// as bytes).
pub enum CellValue {
    /// The cell decoded to this text.
    Text(String),
    /// The cell was a true SQL NULL.
    Null,
    /// The cell held a value that cannot be decoded to text.
    Undecodable,
}

/// The display text of one cell: its own text where it has one, and the
/// sentinel `"NULL"` for both a true SQL NULL and an undecodable value.
/// The two deliberately collide in the rendered output.
pub open spec fn coerced(v: CellValue) -> Seq<char> {
    match v {
        CellValue::Text(s) => s@,
        CellValue::Null => "NULL"@,
        CellValue::Undecodable => "NULL"@,
    }
}

/// Converts one cell value to its display string. Total: every value
/// yields a string, and a cell that cannot be decoded falls back to the
/// sentinel rather than failing.
pub fn coerce(v: &CellValue) -> (r: String)
    ensures
        r@ == coerced(*v),
{
    match v {
        CellValue::Text(s) => s.as_str().to_string(),
        CellValue::Null => "NULL".to_string(),
        CellValue::Undecodable => "NULL".to_string(),
    }
}

/// Law: a true SQL NULL and an undecodable value coerce to the same
/// display text, the sentinel `"NULL"`. The collision is accepted
/// information loss, not a defect: the rendered grid cannot tell the
/// two apart.
pub proof fn lemma_null_collision()
    ensures
        coerced(CellValue::Null) == coerced(CellValue::Undecodable),
        coerced(CellValue::Null) == "NULL"@,
{
}

} // verus!
