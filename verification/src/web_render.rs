use crate::laws::{document_holds_no_script, extracted_pairs_are_filled, holds};
use crate::sheet::{
    is_readable, range_cells, range_start, range_width, read_rows, readable, row_bounds,
    rows_count, rows_model, rows_range, sheet_rows, sheet_start, RowText,
};
use crate::text::{decimal, escaped, push_decimal, push_escaped};
use calamine::{Data, Range};
use vstd::prelude::*;
use vstd::string::StringExecFns;

verus! {

/// One label with the value found under it in a data row.
#[derive(Clone, Debug, PartialEq, Eq)]
pub struct Kv {
    pub key: String,
    pub value: String,
}

/// A label and a value as texts.
pub type Pair = (Seq<char>, Seq<char>);

impl View for Kv {
    type V = Pair;

    open spec fn view(&self) -> Pair {
        (self.key@, self.value@)
    }
}

impl DeepView for Kv {
    type V = Pair;

    open spec fn deep_view(&self) -> Pair {
        (self.key@, self.value@)
    }
}

/// Why no cards could be made.
#[derive(Clone, Debug, PartialEq, Eq)]
pub enum CardError {
    /// The workbook could not be opened; the text says why.
    Open(String),
    /// The workbook has no sheet of this name.
    SheetNotFound(String),
    /// No row stands at this position, counted from 1.
    HeaderNotFound(usize),
    /// A row could not be decoded; the text is the reader's message.
    RowRead(String),
}

/// The mathematical value of a `CardError`.
pub ghost enum Failure {
    Open(Seq<char>),
    SheetNotFound(Seq<char>),
    HeaderNotFound(nat),
    RowRead(Seq<char>),
}

impl View for CardError {
    type V = Failure;

    open spec fn view(&self) -> Failure {
        match self {
            CardError::Open(why) => Failure::Open(why@),
            CardError::SheetNotFound(name) => Failure::SheetNotFound(name@),
            CardError::HeaderNotFound(position) => Failure::HeaderNotFound(*position as nat),
            CardError::RowRead(message) => Failure::RowRead(message@),
        }
    }
}

/// A row of a sheet as texts, or the message of the reader that failed on it.
pub type RowModel = Result<Seq<Seq<char>>, Seq<char>>;

/// The text of a row at a column; empty where the row has no such column.
pub open spec fn cell_text(row: Seq<Seq<char>>, column: int) -> Seq<char> {
    if 0 <= column < row.len() {
        row[column]
    } else {
        Seq::empty()
    }
}

/// What one column gives to a card: its label and value where both are
/// non-empty, and nothing otherwise.
pub open spec fn pair_at(header: Seq<Seq<char>>, row: Seq<Seq<char>>, column: int) -> Seq<Pair> {
    let key = cell_text(header, column);
    let value = cell_text(row, column);
    if key.len() > 0 && value.len() > 0 {
        seq![(key, value)]
    } else {
        Seq::empty()
    }
}

/// The card of one data row: what each chosen column gives, in the order in
/// which the columns were chosen.
pub open spec fn card_of(header: Seq<Seq<char>>, row: Seq<Seq<char>>, columns: Seq<usize>) -> Seq<
    Pair,
>
    decreases columns.len(),
{
    if columns.len() == 0 {
        Seq::empty()
    } else {
        card_of(header, row, columns.drop_last()) + pair_at(header, row, columns.last() as int)
    }
}

/// The message of the first row among the first `upto` that could not be read.
pub open spec fn first_failure(rows: Seq<RowModel>, upto: int) -> Option<Seq<char>>
    decreases upto,
{
    if upto <= 0 {
        None
    } else {
        match first_failure(rows, upto - 1) {
            Some(message) => Some(message),
            None => match rows[upto - 1] {
                Err(message) => Some(message),
                Ok(_) => None,
            },
        }
    }
}

/// The cells of a row, none for one that could not be read.
pub open spec fn cells_of(row: RowModel) -> Seq<Seq<char>> {
    match row {
        Ok(cells) => cells,
        Err(_) => Seq::empty(),
    }
}

/// The header row of a sheet: the row at `position`, counted from 1. A position
/// at which no row stands fails, and so does a row that could not be read.
pub open spec fn header_of(rows: Seq<RowModel>, position: nat) -> Result<Seq<Seq<char>>, Failure> {
    if position == 0 || position > rows.len() {
        Err(Failure::HeaderNotFound(position))
    } else {
        match rows[position - 1] {
            Ok(header) => Ok(header),
            Err(message) => Err(Failure::RowRead(message)),
        }
    }
}

/// The cards of the rows of a sheet. `position` counts the rows from 1 and names
/// the header row. Every row below it gives one card, in order. Where there is
/// no header row to read, that failure is the result; where a row below it could
/// not be read, the message of the first such row.
pub open spec fn cards_of(rows: Seq<RowModel>, position: nat, columns: Seq<usize>) -> Result<
    Seq<Seq<Pair>>,
    Failure,
> {
    match header_of(rows, position) {
        Err(failure) => Err(failure),
        Ok(header) => {
            let data = rows.skip(position as int);
            match first_failure(data, data.len() as int) {
                Some(message) => Err(Failure::RowRead(message)),
                None => Ok(
                    Seq::new(data.len(), |k: int| card_of(header, cells_of(data[k]), columns)),
                ),
            }
        },
    }
}

/// The mathematical value of a header row that was asked for.
pub open spec fn titles_model(outcome: Result<Vec<String>, CardError>) -> Result<
    Seq<Seq<char>>,
    Failure,
> {
    match outcome {
        Ok(titles) => Ok(titles.deep_view()),
        Err(error) => Err(error@),
    }
}

/// Whether no pair of any of the cards has an empty label or an empty value.
pub open spec fn all_filled(cards: Seq<Seq<Pair>>) -> bool {
    forall|i: int, j: int|
        0 <= i < cards.len() && 0 <= j < cards[i].len() ==> {
            &&& (#[trigger] cards[i][j]).0.len() > 0
            &&& cards[i][j].1.len() > 0
        }
}

/// The mathematical value of what an extraction returned.
pub open spec fn outcome_model(outcome: Result<Vec<Vec<Kv>>, CardError>) -> Result<
    Seq<Seq<Pair>>,
    Failure,
> {
    match outcome {
        Ok(cards) => Ok(cards.deep_view()),
        Err(error) => Err(error@),
    }
}

/// Makes the card of one data row.
pub fn card_from_row(header: &Vec<String>, row: &Vec<String>, columns_indexs: &Vec<usize>) -> (card:
    Vec<Kv>)
    ensures
        card.deep_view() == card_of(header.deep_view(), row.deep_view(), columns_indexs@),
{
    let mut card: Vec<Kv> = Vec::new();
    let ghost h = header.deep_view();
    let ghost r = row.deep_view();
    let mut i: usize = 0;
    assert(columns_indexs@.take(0) =~= Seq::<usize>::empty());
    assert(card.deep_view() =~= Seq::<Pair>::empty());
    while i < columns_indexs.len()
        invariant
            i <= columns_indexs.len(),
            h == header.deep_view(),
            r == row.deep_view(),
            card.deep_view() == card_of(h, r, columns_indexs@.take(i as int)),
        decreases columns_indexs.len() - i,
    {
        let column = columns_indexs[i];
        let ghost before = card.deep_view();
        proof {
            let next = columns_indexs@.take(i as int + 1);
            assert(next.drop_last() =~= columns_indexs@.take(i as int));
            assert(next.last() == column);
        }
        if column < header.len() && column < row.len() {
            let key = &header[column];
            let value = &row[column];
            if !key.as_str().is_empty() && !value.as_str().is_empty() {
                let kv = Kv { key: key.clone(), value: value.clone() };
                card.push(kv);
                assert(card.deep_view() =~= before.push((key@, value@)));
                assert(before.push((key@, value@)) =~= before + seq![(key@, value@)]);
            }
        }
        assert(card.deep_view() =~= before + pair_at(h, r, column as int));
        i += 1;
    }
    assert(columns_indexs@.take(i as int) =~= columns_indexs@);
    card
}

/// The header row among the rows that were read from a sheet.
fn header_row(rows: &Vec<RowText>, title_row_index: usize) -> (outcome: Result<
    &Vec<String>,
    CardError,
>)
    ensures
        match outcome {
            Ok(cells) => header_of(rows_model(rows@), title_row_index as nat) == Ok::<
                Seq<Seq<char>>,
                Failure,
            >(cells.deep_view()),
            Err(error) => header_of(rows_model(rows@), title_row_index as nat) == Err::<
                Seq<Seq<char>>,
                Failure,
            >(error@),
        },
{
    if title_row_index == 0 || title_row_index > rows.len() {
        return Err(CardError::HeaderNotFound(title_row_index));
    }
    match &rows[title_row_index - 1] {
        Ok(cells) => Ok(cells),
        Err(message) => Err(CardError::RowRead(message.clone())),
    }
}

/// The texts of the header row among the rows that were read from a sheet.
/// `title_row_index` counts the rows from 1.
pub fn titles_from_rows(rows: &Vec<RowText>, title_row_index: usize) -> (outcome: Result<
    Vec<String>,
    CardError,
>)
    ensures
        titles_model(outcome) == header_of(rows_model(rows@), title_row_index as nat),
{
    match header_row(rows, title_row_index) {
        Ok(cells) => {
            let titles = cells.clone();
            assert(titles.deep_view() =~= cells.deep_view());
            Ok(titles)
        },
        Err(error) => Err(error),
    }
}

/// What is said of a sheet that the row reader cannot walk.
pub const UNREADABLE: &'static str = "the cells of the sheet do not form rows";

/// The rows of a sheet as its reader hands them out, or the failure of a sheet
/// that the reader cannot walk.
pub open spec fn reading(sheet: Range<Data>) -> Result<Seq<RowModel>, Failure> {
    if readable(sheet) {
        Ok(sheet_rows(sheet))
    } else {
        Err(Failure::RowRead(UNREADABLE@))
    }
}

/// The mathematical value of the rows that were asked of a sheet.
pub open spec fn reading_model(outcome: Result<Vec<RowText>, CardError>) -> Result<
    Seq<RowModel>,
    Failure,
> {
    match outcome {
        Ok(rows) => Ok(rows_model(rows@)),
        Err(error) => Err(error@),
    }
}

/// Reads the rows of `sheet`, where the reader can walk it; reports a sheet
/// that it cannot walk as rows that could not be read.
pub fn read_sheet(sheet: &Range<Data>) -> (outcome: Result<Vec<RowText>, CardError>)
    ensures
        reading_model(outcome) == reading(*sheet),
        outcome matches Ok(rows) ==> rows.len() == rows_count(*sheet),
        sheet_start(*sheet) is None ==> (outcome matches Ok(rows) && rows.len() == 0),
{
    if !is_readable(sheet) {
        return Err(CardError::RowRead(String::from_str(UNREADABLE)));
    }
    match read_rows(sheet) {
        Ok(rows) => Ok(rows),
        Err(message) => Err(CardError::RowRead(message)),
    }
}

/// The header row of a sheet as its reader hands it out.
pub open spec fn titles(sheet: Range<Data>, position: nat) -> Result<Seq<Seq<char>>, Failure> {
    match reading(sheet) {
        Ok(rows) => header_of(rows, position),
        Err(failure) => Err(failure),
    }
}

/// Whether a sheet's reader hands out no more rows than lie between its first
/// and its last populated row. This holds of a sheet as a workbook gives it; a
/// range that was grown cell by cell may hold a row more.
pub open spec fn within_bounds(sheet: Range<Data>) -> bool {
    readable(sheet) && rows_count(sheet) <= row_bounds(sheet).1 + 1 - row_bounds(sheet).0
}

/// Whether the reader of `sheet` hands out no more rows than lie between its
/// first and its last populated row.
pub fn rows_within_bounds(sheet: &Range<Data>) -> (yes: bool)
    ensures
        yes == within_bounds(*sheet),
{
    if !is_readable(sheet) {
        return false;
    }
    let bounds = rows_range(sheet);
    match range_start(sheet) {
        None => true,
        Some(_) => {
            let rows = range_cells(sheet) / range_width(sheet);
            rows == 0 || rows - 1 <= bounds.1 - bounds.0
        },
    }
}

/// Reads `sheet` and returns the texts of its header row, which
/// `title_row_index` names, counted from 1. A sheet that the reader cannot walk
/// is reported as rows that could not be read.
pub fn get_titles(sheet: &Range<Data>, title_row_index: usize) -> (outcome: Result<
    Vec<String>,
    CardError,
>)
    ensures
        titles_model(outcome) == titles(*sheet, title_row_index as nat),
        within_bounds(*sheet) && title_row_index > row_bounds(*sheet).1 + 1 - row_bounds(*sheet).0
            ==> titles_model(outcome) == Err::<Seq<Seq<char>>, Failure>(
            Failure::HeaderNotFound(title_row_index as nat),
        ),
        sheet_start(*sheet) is None ==> titles_model(outcome) == Err::<Seq<Seq<char>>, Failure>(
            Failure::HeaderNotFound(title_row_index as nat),
        ),
{
    match read_sheet(sheet) {
        Ok(rows) => titles_from_rows(&rows, title_row_index),
        Err(error) => Err(error),
    }
}

/// Makes the cards of the rows that were read from a sheet. `title_row_index`
/// counts the rows from 1 and names the header row.
pub fn cards_from_rows(
    rows: &Vec<RowText>,
    title_row_index: usize,
    columns_indexs: &Vec<usize>,
) -> (outcome: Result<Vec<Vec<Kv>>, CardError>)
    ensures
        outcome_model(outcome) == cards_of(
            rows_model(rows@),
            title_row_index as nat,
            columns_indexs@,
        ),
        outcome matches Ok(cards) ==> all_filled(cards.deep_view()),
{
    let ghost all = rows_model(rows@);
    let header = match header_row(rows, title_row_index) {
        Ok(cells) => cells,
        Err(error) => {
            return Err(error);
        },
    };
    let ghost data = all.skip(title_row_index as int);
    let mut cards: Vec<Vec<Kv>> = Vec::new();
    let mut i: usize = title_row_index;
    assert(cards.deep_view() =~= Seq::<Seq<Pair>>::empty());
    while i < rows.len()
        invariant
            1 <= title_row_index <= i <= rows.len(),
            all == rows_model(rows@),
            all.len() == rows.len(),
            data == all.skip(title_row_index as int),
            all[title_row_index - 1] == Ok::<Seq<Seq<char>>, Seq<char>>(header.deep_view()),
            first_failure(data, i - title_row_index) is None,
            cards.deep_view() == Seq::new(
                (i - title_row_index) as nat,
                |k: int| card_of(header.deep_view(), cells_of(data[k]), columns_indexs@),
            ),
        decreases rows.len() - i,
    {
        let ghost before = cards.deep_view();
        assert(data[i - title_row_index] == all[i as int]);
        match &rows[i] {
            Ok(cells) => {
                let card = card_from_row(header, cells, columns_indexs);
                cards.push(card);
                assert(cards.deep_view() =~= before.push(card.deep_view()));
            },
            Err(message) => {
                proof {
                    let found = i - title_row_index + 1;
                    assert(data[found - 1] == Err::<Seq<Seq<char>>, Seq<char>>(message@));
                    assert(first_failure(data, found) == Some(message@));
                    lemma_failure_stays(data, found, data.len() as int);
                }
                return Err(CardError::RowRead(message.clone()));
            },
        }
        i += 1;
    }
    proof {
        let made = cards_of(all, title_row_index as nat, columns_indexs@);
        assert(data.len() == i - title_row_index);
        assert(made == Ok::<Seq<Seq<Pair>>, Failure>(cards.deep_view()));
        extracted_pairs_are_filled(all, title_row_index as nat, columns_indexs@);
    }
    Ok(cards)
}

/// A failure found among the first rows is the failure of any longer stretch.
pub proof fn lemma_failure_stays(rows: Seq<RowModel>, upto: int, later: int)
    requires
        upto <= later,
        first_failure(rows, upto) is Some,
    ensures
        first_failure(rows, later) == first_failure(rows, upto),
    decreases later - upto,
{
    if upto < later {
        lemma_failure_stays(rows, upto, later - 1);
    }
}

/// The cards of a sheet: those of its rows as its reader hands them out, or
/// the failure of a sheet that the reader cannot walk.
pub open spec fn extraction(sheet: Range<Data>, position: nat, columns: Seq<usize>) -> Result<
    Seq<Seq<Pair>>,
    Failure,
> {
    match reading(sheet) {
        Ok(rows) => cards_of(rows, position, columns),
        Err(failure) => Err(failure),
    }
}

/// Reads `sheet` and makes one card for each row below the header row, which
/// `title_row_index` names, counted from 1. A sheet that the reader cannot walk
/// is reported as rows that could not be read.
pub fn get_cards(title_row_index: usize, sheet: &Range<Data>, columns_indexs: Vec<usize>) -> (outcome:
    Result<Vec<Vec<Kv>>, CardError>)
    ensures
        outcome_model(outcome) == extraction(*sheet, title_row_index as nat, columns_indexs@),
        within_bounds(*sheet) && title_row_index > row_bounds(*sheet).1 + 1 - row_bounds(*sheet).0
            ==> outcome_model(outcome) == Err::<Seq<Seq<Pair>>, Failure>(
            Failure::HeaderNotFound(title_row_index as nat),
        ),
        sheet_start(*sheet) is None ==> outcome_model(outcome) == Err::<Seq<Seq<Pair>>, Failure>(
            Failure::HeaderNotFound(title_row_index as nat),
        ),
        outcome matches Ok(cards) ==> all_filled(cards.deep_view()),
{
    match read_sheet(sheet) {
        Ok(rows) => cards_from_rows(&rows, title_row_index, &columns_indexs),
        Err(error) => Err(error),
    }
}

/// What opens the block of one label and its value, up to the label.
pub const PAIR_OPEN: &'static str =
    "<div class=\"flex\"><dt class=\"text-sm px-2 border-l-2 border-dotted font-bold\">";

/// What stands between a label and its value.
pub const PAIR_MIDDLE: &'static str = "</dt><dd class=\"grow text-sm\">";

/// What closes the block of one label and its value.
pub const PAIR_CLOSE: &'static str = "</dd></div>";

/// The markup of one label with its value.
pub open spec fn pair_markup(pair: Pair) -> Seq<char> {
    PAIR_OPEN@ + escaped(pair.0) + PAIR_MIDDLE@ + escaped(pair.1) + PAIR_CLOSE@
}

/// Appends the markup of one label with its value.
pub fn push_pair(out: &mut String, kv: &Kv)
    ensures
        final(out)@ == old(out)@ + pair_markup(kv@),
{
    out.append(PAIR_OPEN);
    push_escaped(out, kv.key.as_str());
    out.append(PAIR_MIDDLE);
    push_escaped(out, kv.value.as_str());
    out.append(PAIR_CLOSE);
    assert(out@ =~= old(out)@ + pair_markup(kv@));
}

/// What opens the block of one card, up to its heading's text.
pub const CARD_OPEN: &'static str =
    "<div class=\"break-inside-avoid border-sky-500 border-5 rounded-xl p-2 m-2 text-xl text-center\"><h2 class=\"font-bold font-xl underline\">";

/// What stands between a card's heading and its list.
pub const CARD_MIDDLE: &'static str = "</h2><dl class=\"divide-y divide-white/10\">";

/// What closes the block of one card.
pub const CARD_CLOSE: &'static str = "</dl></div>";

/// What opens the grid of the cards, three to a line.
pub const GRID_OPEN: &'static str = "<div class=\"grid grid-cols-3 gap-1\">";

/// What closes the grid of the cards.
pub const GRID_CLOSE: &'static str = "</div>";

/// What opens the report of a failure, up to its message.
pub const FAILURE_OPEN: &'static str = "<h3>something bad happend</h3><p>";

/// What closes the report of a failure.
pub const FAILURE_CLOSE: &'static str = "</p>";

/// The document up to the style sheet.
pub const PAGE_OPEN: &'static str =
    "<!DOCTYPE html><html dir=\"rtl\" lang=\"ar\"><head><meta charset=\"utf-8\"/><meta name=\"viewport\" content=\"width=device-width, initial-scale=1\"/><title>kvg</title><style>";

/// The document between the style sheet and what the body shows.
pub const PAGE_MIDDLE: &'static str =
    "</style></head><body><p class=\"text-xs text-left p-3 print:hidden\">made by mahmoud eltahawy</p>";

/// The end of the document.
pub const PAGE_CLOSE: &'static str = "</body></html>";

/// The style sheet that every document carries.
pub const CSS: &'static str =
    "body{margin:0;font-family:sans-serif}.grid{display:grid}.grid-cols-3{grid-template-columns:repeat(3,minmax(0,1fr))}.gap-1{gap:.25rem}.flex{display:flex}.grow{flex-grow:1}.break-inside-avoid{break-inside:avoid}.border-5{border-width:5px;border-style:solid}.border-sky-500{border-color:#0ea5e9}.border-l-2{border-left:2px dotted}.border-dotted{border-style:dotted}.rounded-xl{border-radius:.75rem}.p-2{padding:.5rem}.p-3{padding:.75rem}.px-2{padding-left:.5rem;padding-right:.5rem}.m-2{margin:.5rem}.text-xs{font-size:.75rem}.text-sm{font-size:.875rem}.text-xl{font-size:1.25rem}.text-left{text-align:left}.text-center{text-align:center}.font-bold{font-weight:700}.underline{text-decoration:underline}.divide-y div+div{border-top:1px solid rgba(255,255,255,.1)}@media print{.print\\:hidden{display:none}}";

/// The markup of the labels and values of one card, in order.
pub open spec fn pairs_markup(card: Seq<Pair>) -> Seq<char>
    decreases card.len(),
{
    if card.len() == 0 {
        Seq::empty()
    } else {
        pairs_markup(card.drop_last()) + pair_markup(card.last())
    }
}

/// The markup of one card under its heading.
pub open spec fn card_markup(title: Seq<char>, card: Seq<Pair>) -> Seq<char> {
    CARD_OPEN@ + escaped(title) + CARD_MIDDLE@ + pairs_markup(card) + CARD_CLOSE@
}

/// The markup of the cards, one after the other.
pub open spec fn cards_markup(title: Seq<char>, cards: Seq<Seq<Pair>>) -> Seq<char>
    decreases cards.len(),
{
    if cards.len() == 0 {
        Seq::empty()
    } else {
        cards_markup(title, cards.drop_last()) + card_markup(title, cards.last())
    }
}

/// The markup of the grid that holds the cards.
pub open spec fn grid_markup(title: Seq<char>, cards: Seq<Seq<Pair>>) -> Seq<char> {
    GRID_OPEN@ + cards_markup(title, cards) + GRID_CLOSE@
}

/// The markup that reports a failure by its message.
pub open spec fn failure_markup(message: Seq<char>) -> Seq<char> {
    FAILURE_OPEN@ + escaped(message) + FAILURE_CLOSE@
}

/// The whole document round what its body shows.
pub open spec fn page(body: Seq<char>) -> Seq<char> {
    PAGE_OPEN@ + CSS@ + PAGE_MIDDLE@ + body + PAGE_CLOSE@
}

/// The document that shows the cards under the title.
pub open spec fn rendered(title: Seq<char>, cards: Seq<Seq<Pair>>) -> Seq<char> {
    page(grid_markup(title, cards))
}

/// Appends the markup of one card.
pub fn push_card(out: &mut String, title: &str, card: &Vec<Kv>)
    ensures
        final(out)@ == old(out)@ + card_markup(title@, card.deep_view()),
{
    out.append(CARD_OPEN);
    push_escaped(out, title);
    out.append(CARD_MIDDLE);
    let ghost start = out@;
    let ghost pairs = card.deep_view();
    let mut i: usize = 0;
    assert(pairs.take(0) =~= Seq::<Pair>::empty());
    while i < card.len()
        invariant
            i <= card.len(),
            pairs == card.deep_view(),
            out@ == start + pairs_markup(pairs.take(i as int)),
        decreases card.len() - i,
    {
        proof {
            let next = pairs.take(i as int + 1);
            assert(next.drop_last() =~= pairs.take(i as int));
            assert(next.last() == card[i as int]@);
        }
        push_pair(out, &card[i]);
        i += 1;
    }
    assert(pairs.take(i as int) =~= pairs);
    out.append(CARD_CLOSE);
    assert(out@ =~= old(out)@ + card_markup(title@, pairs));
}

/// The grid of the cards, each under the heading `title`.
#[allow(non_snake_case)]
pub fn Cards(title: String, cards: Vec<Vec<Kv>>) -> (out: String)
    ensures
        out@ == grid_markup(title@, cards.deep_view()),
{
    let mut out = String::new();
    out.append(GRID_OPEN);
    let ghost start = out@;
    let ghost all = cards.deep_view();
    let mut i: usize = 0;
    assert(all.take(0) =~= Seq::<Seq<Pair>>::empty());
    while i < cards.len()
        invariant
            i <= cards.len(),
            all == cards.deep_view(),
            out@ == start + cards_markup(title@, all.take(i as int)),
        decreases cards.len() - i,
    {
        proof {
            let next = all.take(i as int + 1);
            assert(next.drop_last() =~= all.take(i as int));
            assert(next.last() == cards[i as int].deep_view());
        }
        push_card(&mut out, title.as_str(), &cards[i]);
        i += 1;
    }
    assert(all.take(i as int) =~= all);
    out.append(GRID_CLOSE);
    assert(out@ =~= grid_markup(title@, all));
    out
}

/// The document round a body that is markup already.
pub fn wrap_page(body: &str) -> (out: String)
    ensures
        out@ == page(body@),
{
    let mut out = String::new();
    out.append(PAGE_OPEN);
    out.append(CSS);
    out.append(PAGE_MIDDLE);
    out.append(body);
    out.append(PAGE_CLOSE);
    assert(out@ =~= page(body@));
    out
}

/// The document that shows one card for each item of `cards`, in order, each
/// under the heading `title`.
pub fn render(title: String, cards: Vec<Vec<Kv>>) -> (out: String)
    ensures
        out@ == rendered(title@, cards.deep_view()),
        !holds(out@, "<script"@),
{
    proof {
        document_holds_no_script(title@, Ok(cards.deep_view()));
    }
    let grid = Cards(title, cards);
    wrap_page(grid.as_str())
}

/// What a message about a missing sheet says before the sheet's name.
pub const NO_SHEET_OPEN: &'static str = "no sheet named '";

/// What a message about a missing sheet says after the sheet's name.
pub const NO_SHEET_CLOSE: &'static str = "'";

/// What a message about a missing header row says before the row's position.
pub const NO_HEADER_OPEN: &'static str = "row number ";

/// What a message about a missing header row says after the row's position.
pub const NO_HEADER_CLOSE: &'static str = " should contain headers";

/// The words that tell a user of a failure.
pub open spec fn message_of(failure: Failure) -> Seq<char> {
    match failure {
        Failure::Open(why) => why,
        Failure::SheetNotFound(name) => NO_SHEET_OPEN@ + name + NO_SHEET_CLOSE@,
        Failure::HeaderNotFound(position) => NO_HEADER_OPEN@ + decimal(position)
            + NO_HEADER_CLOSE@,
        Failure::RowRead(message) => message,
    }
}

impl CardError {
    /// The words that tell a user of this failure.
    pub fn message(&self) -> (out: String)
        ensures
            out@ == message_of(self@),
    {
        let mut out = String::new();
        match self {
            CardError::Open(why) => {
                out.append(why.as_str());
            },
            CardError::SheetNotFound(name) => {
                out.append(NO_SHEET_OPEN);
                out.append(name.as_str());
                out.append(NO_SHEET_CLOSE);
            },
            CardError::HeaderNotFound(position) => {
                out.append(NO_HEADER_OPEN);
                push_decimal(&mut out, *position);
                out.append(NO_HEADER_CLOSE);
            },
            CardError::RowRead(message) => {
                out.append(message.as_str());
            },
        }
        assert(out@ =~= message_of(self@));
        out
    }
}

/// The document that reports a failure in place of the cards.
pub fn failure_page(error: &CardError) -> (out: String)
    ensures
        out@ == page(failure_markup(message_of(error@))),
        !holds(out@, "<script"@),
{
    proof {
        document_holds_no_script(Seq::empty(), Err(error@));
    }
    let message = error.message();
    let mut body = String::new();
    body.append(FAILURE_OPEN);
    push_escaped(&mut body, message.as_str());
    body.append(FAILURE_CLOSE);
    assert(body@ =~= failure_markup(message@));
    wrap_page(body.as_str())
}

/// The document for each outcome of an extraction: the cards under the title,
/// or the report of the failure.
pub open spec fn document_of(title: Seq<char>, outcome: Result<Seq<Seq<Pair>>, Failure>) -> Seq<
    char,
> {
    match outcome {
        Ok(cards) => rendered(title, cards),
        Err(failure) => page(failure_markup(message_of(failure))),
    }
}

/// The document for what an extraction returned.
pub fn document(title: String, outcome: Result<Vec<Vec<Kv>>, CardError>) -> (out: String)
    ensures
        out@ == document_of(title@, outcome_model(outcome)),
        !holds(out@, "<script"@),
{
    match outcome {
        Ok(cards) => render(title, cards),
        Err(error) => failure_page(&error),
    }
}

/// Reads `sheet`, makes one card for each row below the header row, which
/// `title_row_index` names counted from 1, and returns the document that shows
/// them under `title`; where no cards can be made, the document that says why.
pub fn web_cards(
    title: String,
    title_row_index: usize,
    sheet: &Range<Data>,
    columns_indexs: Vec<usize>,
) -> (out: String)
    ensures
        out@ == document_of(
            title@,
            extraction(*sheet, title_row_index as nat, columns_indexs@),
        ),
        !holds(out@, "<script"@),
{
    let outcome = get_cards(title_row_index, sheet, columns_indexs);
    document(title, outcome)
}

} // verus!
