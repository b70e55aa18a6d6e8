use calamine::{Data, Range};
use kvg::state::{
    header_positions, render_sheet, rendering, selected_columns, sheet_extension, untick, Action,
    App, Message,
};
use kvg::web_render::{render, CardError, Kv};

fn s(text: &str) -> String {
    String::from(text)
}

fn loaded() -> App {
    let mut app = App::new();
    app.update(Message::CardTitleChanged(s("Employee")));
    app.update(Message::ExcelPathChanged { path: s("/d/book.xlsx"), exists: true, extension: Some(s("xlsx")) });
    app.update(Message::SheetsListed(vec![s("One"), s("Two")]));
    app.update(Message::SheetLoaded { name: s("Two"), top: 0, bottom: 4 });
    app.update(Message::TitlesLoaded { index: 2, titles: vec![s("Name"), s(""), s("Age")] });
    app
}

#[test]
fn new_form_is_blank() {
    let app = App::new();
    assert_eq!(app.card_title, "");
    assert_eq!(app.excel_path, "");
    assert!(!app.exel_path_exists);
    assert!(!app.exel_path_is_excel);
    assert!(app.all_sheets_names.is_empty());
    assert_eq!(app.sheet_name, None);
    assert!(app.all_rows_indexes.is_empty());
    assert_eq!(app.title_row_index, None);
    assert!(app.all_titles_names.is_empty());
    assert_eq!(app.rendered_at, None);
    assert!(!app.can_submit());
}

#[test]
fn title_change_is_stored() {
    let mut app = App::new();
    assert_eq!(app.update(Message::CardTitleChanged(s("Staff"))), Action::Nothing);
    assert_eq!(app.card_title, "Staff");
}

#[test]
fn workbook_path_asks_for_its_sheets() {
    let mut app = App::new();
    let action = app.update(Message::ExcelPathChanged { path: s("a.ods"), exists: true, extension: Some(s("ods")) });
    assert_eq!(action, Action::ListSheets { path: s("a.ods") });
    assert_eq!(app.excel_path, "a.ods");
    assert!(app.exel_path_exists && app.exel_path_is_excel);
    assert_eq!(app.update(Message::SheetsListed(vec![s("S1")])), Action::Nothing);
    assert_eq!(app.all_sheets_names, vec![s("S1")]);
}

#[test]
fn other_path_clears_the_sheets() {
    let mut app = loaded();
    let action = app.update(Message::ExcelPathChanged { path: s("a.txt"), exists: true, extension: Some(s("txt")) });
    assert_eq!(action, Action::Nothing);
    assert!(app.exel_path_exists && !app.exel_path_is_excel);
    assert!(app.all_sheets_names.is_empty());
    assert_eq!(app.sheet_name, None);
    assert_eq!(app.all_titles_names.len(), 3);
    let mut app = loaded();
    let action = app.update(Message::ExcelPathChanged { path: s("gone.xls"), exists: false, extension: Some(s("xls")) });
    assert_eq!(action, Action::Nothing);
    assert!(!app.exel_path_exists && app.exel_path_is_excel);
    assert!(app.all_sheets_names.is_empty());
    let mut app = loaded();
    app.update(Message::ExcelPathChanged { path: s("dir"), exists: true, extension: None });
    assert!(!app.exel_path_is_excel);
}

#[test]
fn known_extensions_are_the_four_workbook_kinds() {
    for known in ["xls", "xlsx", "xlsb", "ods"] {
        assert!(sheet_extension(&Some(s(known))));
    }
    for other in ["", "XLSX", "csv", "xlsm", "xl", "odss"] {
        assert!(!sheet_extension(&Some(s(other))));
    }
    assert!(!sheet_extension(&None));
}

#[test]
fn choosing_a_sheet_asks_for_its_bounds_and_changes_nothing() {
    let mut app = loaded();
    let before = app.clone();
    let action = app.update(Message::SheetNameSelected(s("One")));
    assert_eq!(action, Action::LoadSheet { path: s("/d/book.xlsx"), sheet: s("One") });
    assert_eq!(app, before);
}

#[test]
fn loaded_sheet_offers_its_header_positions() {
    let mut app = App::new();
    assert_eq!(app.update(Message::SheetLoaded { name: s("S"), top: 2, bottom: 5 }), Action::Nothing);
    assert_eq!(app.sheet_name, Some(s("S")));
    assert_eq!(app.all_rows_indexes, vec![3, 4, 5]);
    assert_eq!(header_positions(0, 0), Vec::<usize>::new());
    assert_eq!(header_positions(0, 1), vec![1]);
    assert_eq!(header_positions(4, 2), Vec::<usize>::new());
    assert_eq!(header_positions(usize::MAX - 1, usize::MAX), vec![usize::MAX]);
    assert_eq!(header_positions(usize::MAX, usize::MAX), Vec::<usize>::new());
}

#[test]
fn choosing_a_header_row_needs_a_sheet() {
    let mut app = App::new();
    assert_eq!(app.update(Message::TitlRowIndexSelected(1)), Action::Nothing);
    let mut app = loaded();
    let before = app.clone();
    let action = app.update(Message::TitlRowIndexSelected(3));
    assert_eq!(action, Action::LoadTitles { path: s("/d/book.xlsx"), sheet: s("Two"), index: 3 });
    assert_eq!(app, before);
}

#[test]
fn loaded_titles_start_switched_off() {
    let app = loaded();
    assert_eq!(app.title_row_index, Some(2));
    assert_eq!(app.all_titles_names, vec![(false, s("Name")), (false, s("")), (false, s("Age"))]);
    assert_eq!(untick(Vec::new()), Vec::<(bool, String)>::new());
}

#[test]
fn toggling_switches_one_column() {
    let mut app = loaded();
    assert_eq!(app.update(Message::ToggleTitle((2, true))), Action::Nothing);
    assert_eq!(app.all_titles_names, vec![(false, s("Name")), (false, s("")), (true, s("Age"))]);
    app.update(Message::ToggleTitle((0, true)));
    app.update(Message::ToggleTitle((2, false)));
    assert_eq!(app.all_titles_names, vec![(true, s("Name")), (false, s("")), (false, s("Age"))]);
    let before = app.clone();
    app.update(Message::ToggleTitle((3, true)));
    assert_eq!(app, before);
}

#[test]
fn selected_columns_rise() {
    let titles = vec![(true, s("a")), (false, s("b")), (true, s("c")), (true, s("d"))];
    assert_eq!(selected_columns(&titles), vec![0, 2, 3]);
    assert_eq!(selected_columns(&Vec::new()), Vec::<usize>::new());
    assert_eq!(selected_columns(&vec![(false, s("a"))]), Vec::<usize>::new());
}

#[test]
fn submit_needs_a_title_and_a_column() {
    let mut app = loaded();
    assert!(!app.can_submit());
    app.update(Message::ToggleTitle((0, true)));
    assert!(app.can_submit());
    app.update(Message::CardTitleChanged(s("")));
    assert!(!app.can_submit());
}

#[test]
fn render_asks_for_the_document_of_the_selected_columns() {
    let mut app = loaded();
    app.update(Message::ToggleTitle((2, true)));
    app.update(Message::ToggleTitle((0, true)));
    let before = app.clone();
    let action = app.update(Message::Render);
    assert_eq!(
        action,
        Action::Render {
            title: s("Employee"),
            title_row_index: 2,
            path: s("/d/book.xlsx"),
            sheet: s("Two"),
            columns: vec![0, 2],
        }
    );
    assert_eq!(app, before);
    assert_eq!(app.update(Message::Rendered(s("/home/u/kvg_index.html"))), Action::Nothing);
    assert_eq!(app.rendered_at, Some(s("/home/u/kvg_index.html")));
}

#[test]
fn render_without_a_header_row_does_nothing() {
    let mut app = App::new();
    assert_eq!(app.update(Message::Render), Action::Nothing);
    app.update(Message::SheetLoaded { name: s("S"), top: 0, bottom: 3 });
    assert_eq!(app.update(Message::Render), Action::Nothing);
    assert_eq!(app.rendered_at, None);
}

#[test]
fn file_dialog_is_asked_for_and_its_path_kept() {
    let mut app = loaded();
    assert_eq!(app.update(Message::PickExelFile), Action::PickFile);
    assert_eq!(app.update(Message::FilePicked(s("/x/y.xlsx"))), Action::Nothing);
    assert_eq!(app.excel_path, "/x/y.xlsx");
    assert_eq!(app.sheet_name, Some(s("Two")));
}

#[test]
fn failed_rendering_leaves_the_form_as_it_was() {
    let mut app = loaded();
    app.update(Message::Rendered(s("/home/u/kvg_index.html")));
    let before = app.clone();
    let action = app.update(Message::RenderFailed(CardError::HeaderNotFound(9)));
    assert_eq!(action, Action::Nothing);
    assert_eq!(app, before);
    assert_eq!(app.rendered_at, Some(s("/home/u/kvg_index.html")));
    let mut fresh = loaded();
    fresh.update(Message::RenderFailed(CardError::Open(s("gone"))));
    assert_eq!(fresh.rendered_at, None);
}

#[test]
fn rendering_gives_the_document_or_the_failure_event() {
    let card = vec![Kv { key: s("k"), value: s("v") }];
    assert_eq!(rendering(s("T"), Ok(vec![card.clone()])), Ok(render(s("T"), vec![card])));
    assert_eq!(
        rendering(s("T"), Err(CardError::RowRead(s("bad")))),
        Err(Message::RenderFailed(CardError::RowRead(s("bad"))))
    );
}

#[test]
fn render_sheet_reports_a_header_that_is_not_there() {
    let mut sheet: Range<Data> = Range::new((0, 0), (1, 0));
    sheet.set_value((0, 0), Data::String(s("Name")));
    sheet.set_value((1, 0), Data::String(s("Ada")));
    let shown = render_sheet(s("T"), 1, &sheet, vec![0]);
    assert_eq!(shown, Ok(render(s("T"), vec![vec![Kv { key: s("Name"), value: s("Ada") }]])));
    let failed = render_sheet(s("T"), 3, &sheet, vec![0]);
    assert_eq!(failed, Err(Message::RenderFailed(CardError::HeaderNotFound(3))));
    let mut app = loaded();
    let before = app.clone();
    if let Err(event) = failed {
        app.update(event);
    }
    assert_eq!(app, before);
}
