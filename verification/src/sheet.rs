use calamine::{Data, Range, RangeDeserializerBuilder};
use vstd::prelude::*;

verus! {

/// calamine's `Range`: the cells of one sheet inside its bounding box.
#[verifier::external_type_specification]
#[verifier::external_body]
#[verifier::reject_recursive_types(T)]
pub struct ExRange<T>(Range<T>);

/// calamine's `Data`: the value of one cell.
#[verifier::external_type_specification]
#[verifier::external_body]
pub struct ExData(Data);

/// What `Range::start` returns for a sheet: the absolute (row, column) of its
/// top left cell, or `None` for a sheet without cells.
pub uninterp spec fn sheet_start(sheet: Range<Data>) -> Option<(u32, u32)>;

/// What `Range::end` returns for a sheet: the absolute (row, column) of its
/// bottom right cell, or `None` for a sheet without cells.
pub uninterp spec fn sheet_end(sheet: Range<Data>) -> Option<(u32, u32)>;

/// What `Range::width` returns for a sheet: the number of columns between its
/// corners, both counted, or 0 for a sheet without cells.
pub uninterp spec fn sheet_width(sheet: Range<Data>) -> usize;

/// The number of cells that a sheet holds: the length of what `Range::cells`
/// walks.
pub uninterp spec fn sheet_cells(sheet: Range<Data>) -> usize;

/// What a sheet holds, as its header-less row reader hands it out: the rows from
/// the top of the bounding box down, each one either the texts of its cells from
/// left to right or the message of the reader that could not decode it.
pub uninterp spec fn sheet_rows(sheet: Range<Data>) -> Seq<Result<Seq<Seq<char>>, Seq<char>>>;

/// One row as it was read: the texts of its cells, or the reader's message.
pub type RowText = Result<Vec<String>, String>;

/// The mathematical value of a row that was read.
pub open spec fn row_model(row: RowText) -> Result<Seq<Seq<char>>, Seq<char>> {
    match row {
        Ok(cells) => Ok(cells.deep_view()),
        Err(message) => Err(message@),
    }
}

/// The mathematical value of the rows that were read, in order.
pub open spec fn rows_model(rows: Seq<RowText>) -> Seq<Result<Seq<Seq<char>>, Seq<char>>> {
    rows.map_values(|row: RowText| row_model(row))
}

/// The row of a corner, 0 where there is none.
pub open spec fn top_row(corner: Option<(u32, u32)>) -> u32 {
    match corner {
        Some(at) => at.0,
        None => 0,
    }
}

/// The number of rows between the corners of a sheet, both counted.
pub open spec fn sheet_height(sheet: Range<Data>) -> nat {
    match (sheet_start(sheet), sheet_end(sheet)) {
        (Some(top), Some(bottom)) => if top.0 <= bottom.0 {
            (bottom.0 - top.0 + 1) as nat
        } else {
            0
        },
        _ => 0,
    }
}

/// `Range::start` of calamine. Nothing is claimed beyond the name of the result.
#[verifier::external_body]
pub(crate) fn range_start(sheet: &Range<Data>) -> (top: Option<(u32, u32)>)
    ensures
        top == sheet_start(*sheet),
{
    sheet.start()
}

/// `Range::end` of calamine. Both corners are absent exactly when the range
/// holds no cell, and a range with cells ends at or below the row it starts at.
#[verifier::external_body]
pub(crate) fn range_end(sheet: &Range<Data>) -> (bottom: Option<(u32, u32)>)
    ensures
        bottom == sheet_end(*sheet),
        bottom is Some <==> sheet_start(*sheet) is Some,
        bottom matches Some(end) ==> top_row(sheet_start(*sheet)) <= end.0,
{
    sheet.end()
}

/// `Range::width` of calamine. Nothing is claimed beyond the name of the result.
#[verifier::external_body]
pub(crate) fn range_width(sheet: &Range<Data>) -> (width: usize)
    ensures
        width == sheet_width(*sheet),
{
    sheet.width()
}

/// `Range::cells` of calamine, asked for its length, which is the number of
/// cells that the range holds. Nothing is claimed beyond the name of the result.
#[verifier::external_body]
pub(crate) fn range_cells(sheet: &Range<Data>) -> (cells: usize)
    ensures
        cells == sheet_cells(*sheet),
{
    sheet.cells().len()
}

/// Whether the row reader can walk a sheet: a sheet with cells must start above
/// the last row that a position can name, and its cells must fill whole rows of
/// its width. On any other sheet the reader would leave its bounds.
pub open spec fn readable(sheet: Range<Data>) -> bool {
    sheet_start(sheet) matches Some(top) ==> {
        &&& top.0 < u32::MAX
        &&& sheet_width(sheet) > 0
        &&& sheet_cells(sheet) % sheet_width(sheet) == 0
    }
}

/// The number of rows that the reader hands out of a sheet that it can walk:
/// the cells over the width.
pub open spec fn rows_count(sheet: Range<Data>) -> nat {
    if sheet_start(sheet) is Some && sheet_width(sheet) > 0 {
        (sheet_cells(sheet) / sheet_width(sheet)) as nat
    } else {
        0
    }
}

/// `RangeDeserializerBuilder::from_range` of calamine with headers switched
/// off, read to its end as rows of `Data`, each cell then written out by its
/// `Display`; a refusal of the builder comes back as its message. With headers
/// off the builder refuses nothing. The reader yields the chunks of the range's
/// cells, one chunk for each width of cells: none for a range without cells, and
/// otherwise as many as the width goes into the number of cells. Nothing is
/// claimed of how their number stands to the corners, since a range that was
/// grown cell by cell may hold more rows than lie between them. The reader
/// counts one past the first row and reads each chunk at every column below the
/// width, so only a sheet that is `readable` is admitted.
#[verifier::external_body]
pub(crate) fn read_rows(sheet: &Range<Data>) -> (reading: Result<Vec<RowText>, String>)
    requires
        readable(*sheet),
    ensures
        reading is Ok,
        rows_model(reading->Ok_0@) == sheet_rows(*sheet),
        sheet_start(*sheet) is None ==> reading->Ok_0.len() == 0,
        sheet_start(*sheet) is Some ==> reading->Ok_0.len() >= 1,
        reading->Ok_0.len() == rows_count(*sheet),
{
    let reader = RangeDeserializerBuilder::new().has_headers(false).from_range::<Data, Vec<Data>>(
        sheet,
    );
    match reader {
        Ok(rows) => Ok(
            rows.map(|row| match row {
                Ok(cells) => Ok(cells.iter().map(|cell| cell.to_string()).collect()),
                Err(error) => Err(error.to_string()),
            }).collect(),
        ),
        Err(error) => Err(error.to_string()),
    }
}

/// Whether the row reader can walk `sheet`.
pub fn is_readable(sheet: &Range<Data>) -> (yes: bool)
    ensures
        yes == readable(*sheet),
{
    match range_start(sheet) {
        None => true,
        Some(top) => {
            if top.0 == u32::MAX {
                false
            } else {
                let width = range_width(sheet);
                width > 0 && range_cells(sheet) % width == 0
            }
        },
    }
}

/// The first and the last populated row of a sheet, counted from 0, or `(0, 0)`
/// for a sheet without cells.
pub open spec fn row_bounds(sheet: Range<Data>) -> (usize, usize) {
    match (sheet_start(sheet), sheet_end(sheet)) {
        (Some(top), Some(bottom)) => (top.0 as usize, bottom.0 as usize),
        _ => (0, 0),
    }
}

/// Reports the first and the last populated row of `sheet`.
pub fn rows_range(sheet: &Range<Data>) -> (bounds: (usize, usize))
    ensures
        bounds == row_bounds(*sheet),
        bounds.0 <= bounds.1,
        sheet_start(*sheet) is None ==> bounds == (0usize, 0usize),
        sheet_height(*sheet) > 0 <==> sheet_start(*sheet) is Some,
        sheet_height(*sheet) > 0 ==> sheet_height(*sheet) == bounds.1 + 1 - bounds.0,
{
    let top = range_start(sheet);
    let bottom = range_end(sheet);
    match (top, bottom) {
        (Some(t), Some(b)) => (t.0 as usize, b.0 as usize),
        _ => (0, 0),
    }
}

} // verus!
