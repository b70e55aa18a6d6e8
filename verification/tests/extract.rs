use calamine::{CellErrorType, Data, Range};
use kvg::sheet::{is_readable, rows_range};
use kvg::web_render::{
    cards_from_rows, get_cards, get_titles, read_sheet, rows_within_bounds, titles_from_rows,
    web_cards, CardError, Kv, UNREADABLE,
};

fn text(s: &str) -> Data {
    Data::String(String::from(s))
}

fn kv(key: &str, value: &str) -> Kv {
    Kv { key: String::from(key), value: String::from(value) }
}

fn people() -> Range<Data> {
    let mut sheet: Range<Data> = Range::new((0, 0), (2, 2));
    sheet.set_value((1, 0), text("Name"));
    sheet.set_value((1, 2), text("Age"));
    sheet.set_value((2, 0), text("Ada"));
    sheet.set_value((2, 1), text("X"));
    sheet.set_value((2, 2), text("37"));
    sheet
}

#[test]
fn pair_under_an_empty_header_is_dropped() {
    let cards = get_cards(2, &people(), vec![0, 1, 2]).unwrap();
    assert_eq!(cards, vec![vec![kv("Name", "Ada"), kv("Age", "37")]]);
}

#[test]
fn pairs_follow_the_order_of_the_columns() {
    let cards = get_cards(2, &people(), vec![2, 0]).unwrap();
    assert_eq!(cards, vec![vec![kv("Age", "37"), kv("Name", "Ada")]]);
}

#[test]
fn rows_above_the_header_give_no_card() {
    let cards = get_cards(1, &people(), vec![0, 2]).unwrap();
    assert_eq!(cards.len(), 2);
    assert_eq!(cards[0], Vec::<Kv>::new());
    assert_eq!(cards[1], Vec::<Kv>::new());
}

#[test]
fn header_in_the_last_row_gives_no_cards() {
    let cards = get_cards(3, &people(), vec![0, 1, 2]).unwrap();
    assert_eq!(cards, Vec::<Vec<Kv>>::new());
}

#[test]
fn header_below_the_last_row_is_not_found() {
    assert_eq!(get_cards(4, &people(), vec![0]), Err(CardError::HeaderNotFound(4)));
    assert_eq!(get_cards(usize::MAX, &people(), vec![0]), Err(CardError::HeaderNotFound(usize::MAX)));
}

#[test]
fn header_position_zero_is_not_found() {
    assert_eq!(get_cards(0, &people(), vec![0]), Err(CardError::HeaderNotFound(0)));
}

#[test]
fn empty_sheet_has_no_header_at_any_position() {
    let sheet: Range<Data> = Range::empty();
    assert_eq!(rows_range(&sheet), (0, 0));
    assert_eq!(get_cards(1, &sheet, vec![0]), Err(CardError::HeaderNotFound(1)));
    assert_eq!(get_cards(2, &sheet, vec![0, 1]), Err(CardError::HeaderNotFound(2)));
    assert_eq!(get_cards(7, &sheet, Vec::new()), Err(CardError::HeaderNotFound(7)));
}

#[test]
fn column_outside_the_row_gives_no_pair() {
    let cards = get_cards(2, &people(), vec![9, 0, 3]).unwrap();
    assert_eq!(cards, vec![vec![kv("Name", "Ada")]]);
}

#[test]
fn no_columns_give_empty_cards() {
    let cards = get_cards(2, &people(), Vec::new()).unwrap();
    assert_eq!(cards, vec![Vec::<Kv>::new()]);
}

#[test]
fn a_column_chosen_twice_gives_two_pairs() {
    let cards = get_cards(2, &people(), vec![0, 0]).unwrap();
    assert_eq!(cards, vec![vec![kv("Name", "Ada"), kv("Name", "Ada")]]);
}

#[test]
fn numbers_and_booleans_are_read_as_text() {
    let mut sheet: Range<Data> = Range::new((0, 0), (1, 3));
    sheet.set_value((0, 0), text("n"));
    sheet.set_value((0, 1), text("x"));
    sheet.set_value((0, 2), text("b"));
    sheet.set_value((0, 3), text("e"));
    sheet.set_value((1, 0), Data::Int(-12));
    sheet.set_value((1, 1), Data::Float(2.5));
    sheet.set_value((1, 2), Data::Bool(true));
    let cards = get_cards(1, &sheet, vec![0, 1, 2, 3]).unwrap();
    assert_eq!(cards, vec![vec![kv("n", "-12"), kv("x", "2.5"), kv("b", "true")]]);
}

#[test]
fn row_bounds_are_absolute_rows() {
    let mut sheet: Range<Data> = Range::new((3, 1), (7, 4));
    sheet.set_value((3, 1), text("a"));
    assert_eq!(rows_range(&sheet), (3, 7));
    assert_eq!(rows_range(&people()), (0, 2));
    let one: Range<Data> = Range::new((5, 5), (5, 5));
    assert_eq!(rows_range(&one), (5, 5));
}

#[test]
fn rows_are_counted_from_the_top_of_the_populated_range() {
    let mut sheet: Range<Data> = Range::new((3, 1), (4, 2));
    sheet.set_value((3, 1), text("k"));
    sheet.set_value((4, 1), text("v"));
    assert_eq!(get_cards(1, &sheet, vec![0]).unwrap(), vec![vec![kv("k", "v")]]);
    assert_eq!(get_cards(3, &sheet, vec![0]), Err(CardError::HeaderNotFound(3)));
}

#[test]
fn unreadable_row_below_the_header_fails_the_extraction() {
    let mut sheet = people();
    sheet.set_value((2, 1), Data::Error(CellErrorType::Div0));
    match get_cards(2, &sheet, vec![0]) {
        Err(CardError::RowRead(message)) => assert!(!message.is_empty()),
        other => panic!("{:?}", other),
    }
}

#[test]
fn unreadable_header_row_fails_the_extraction() {
    let mut sheet = people();
    sheet.set_value((1, 1), Data::Error(CellErrorType::NA));
    assert!(matches!(get_cards(2, &sheet, vec![0]), Err(CardError::RowRead(_))));
    assert!(matches!(get_titles(&sheet, 2), Err(CardError::RowRead(_))));
}

#[test]
fn unreadable_row_above_the_header_is_passed_over() {
    let mut sheet = people();
    sheet.set_value((0, 0), Data::Error(CellErrorType::Ref));
    let cards = get_cards(2, &sheet, vec![0]).unwrap();
    assert_eq!(cards, vec![vec![kv("Name", "Ada")]]);
}

#[test]
fn titles_are_the_texts_of_the_header_row() {
    let titles = get_titles(&people(), 2).unwrap();
    assert_eq!(titles, vec![String::from("Name"), String::new(), String::from("Age")]);
    assert_eq!(get_titles(&people(), 4), Err(CardError::HeaderNotFound(4)));
    assert_eq!(get_titles(&people(), 0), Err(CardError::HeaderNotFound(0)));
}

#[test]
fn cards_from_rows_reports_the_first_unreadable_row() {
    let rows = vec![
        Ok(vec![String::from("h")]),
        Ok(vec![String::from("1")]),
        Err(String::from("first")),
        Err(String::from("second")),
    ];
    assert_eq!(cards_from_rows(&rows, 1, &vec![0]), Err(CardError::RowRead(String::from("first"))));
    assert_eq!(cards_from_rows(&rows, 3, &vec![0]), Err(CardError::RowRead(String::from("first"))));
    assert_eq!(cards_from_rows(&rows, 4, &vec![0]), Err(CardError::RowRead(String::from("second"))));
    assert_eq!(cards_from_rows(&rows, 5, &vec![0]), Err(CardError::HeaderNotFound(5)));
    assert_eq!(titles_from_rows(&rows, 2), Ok(vec![String::from("1")]));
}

#[test]
fn cards_from_rows_keeps_only_filled_pairs() {
    let rows = vec![
        Ok(vec![String::from("a"), String::new(), String::from("c")]),
        Ok(vec![String::from("1"), String::from("2"), String::new()]),
        Ok(vec![String::new(), String::new(), String::from("3")]),
        Ok(Vec::new()),
    ];
    let cards = cards_from_rows(&rows, 1, &vec![0, 1, 2]).unwrap();
    assert_eq!(cards, vec![vec![kv("a", "1")], vec![kv("c", "3")], Vec::new()]);
    for card in &cards {
        for pair in card {
            assert!(!pair.key.is_empty() && !pair.value.is_empty());
        }
    }
}

#[test]
fn sheet_grown_by_one_cell_is_read_row_by_row() {
    let mut sheet: Range<Data> = Range::new((0, 0), (0, 0));
    sheet.set_value((0, 0), text("k"));
    sheet.set_value((1, 0), text("v"));
    assert_eq!(rows_range(&sheet), (0, 1));
    assert_eq!(get_cards(1, &sheet, vec![0]).unwrap()[0], vec![kv("k", "v")]);
    let rows = sheet.rows().count();
    assert!(rows >= 2);
    for position in 1..=rows {
        let cards = get_cards(position, &sheet, vec![0]).unwrap();
        assert_eq!(cards.len(), rows - position);
        assert!(get_titles(&sheet, position).is_ok());
    }
    assert_eq!(get_cards(rows + 1, &sheet, vec![0]), Err(CardError::HeaderNotFound(rows + 1)));
    assert_eq!(get_titles(&sheet, rows + 1), Err(CardError::HeaderNotFound(rows + 1)));
}

#[test]
fn sheet_grown_below_its_last_row_holds_a_row_more_than_its_bounds() {
    let mut sheet: Range<Data> = Range::new((0, 0), (0, 0));
    sheet.set_value((1, 0), Data::Int(1));
    assert_eq!(rows_range(&sheet), (0, 1));
    assert_eq!(get_cards(3, &sheet, vec![0]), Ok(Vec::new()));
    assert_eq!(get_titles(&sheet, 3), Ok(vec![String::new()]));
    assert_eq!(get_cards(4, &sheet, vec![0]), Err(CardError::HeaderNotFound(4)));
}

#[test]
fn sheet_in_the_last_row_of_all_is_not_read() {
    let mut sheet: Range<Data> = Range::new((u32::MAX, 0), (u32::MAX, 0));
    sheet.set_value((u32::MAX, 0), text("x"));
    assert!(!is_readable(&sheet));
    assert!(!rows_within_bounds(&sheet));
    let unreadable = CardError::RowRead(String::from(UNREADABLE));
    assert_eq!(read_sheet(&sheet), Err(unreadable.clone()));
    assert_eq!(get_cards(1, &sheet, vec![0]), Err(unreadable.clone()));
    assert_eq!(get_titles(&sheet, 1), Err(unreadable.clone()));
    let page = web_cards(String::from("T"), 1, &sheet, vec![0]);
    assert!(page.contains("<p>the cells of the sheet do not form rows</p>"));
    let above: Range<Data> = Range::new((u32::MAX - 1, 0), (u32::MAX - 1, 0));
    assert!(is_readable(&above));
    assert_eq!(get_cards(1, &above, vec![0]), Ok(Vec::new()));
}

#[test]
fn sheets_made_whole_are_readable_and_within_their_bounds() {
    assert!(is_readable(&people()));
    assert!(rows_within_bounds(&people()));
    let empty: Range<Data> = Range::empty();
    assert!(is_readable(&empty));
    assert!(rows_within_bounds(&empty));
    assert_eq!(read_sheet(&empty), Ok(Vec::new()));
    let shifted: Range<Data> = Range::new((3, 1), (7, 4));
    assert!(rows_within_bounds(&shifted));
    assert_eq!(read_sheet(&shifted).unwrap().len(), 5);
    assert_eq!(read_sheet(&shifted).unwrap()[0].as_ref().unwrap().len(), 4);
}

#[test]
fn sheet_grown_below_its_last_row_is_not_within_its_bounds() {
    let mut sheet: Range<Data> = Range::new((0, 0), (0, 0));
    sheet.set_value((1, 0), Data::Int(1));
    assert!(is_readable(&sheet));
    assert!(!rows_within_bounds(&sheet));
    assert_eq!(read_sheet(&sheet).unwrap().len(), 3);
}
