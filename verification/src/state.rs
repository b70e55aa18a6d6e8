use crate::web_render::{
    extraction, get_cards, outcome_model, render, rendered, CardError, Failure, Kv, Pair,
};
use calamine::{Data, Range};
use vstd::prelude::*;

verus! {

/// What the form holds between two events.
#[derive(Clone, Debug, PartialEq, Eq)]
pub struct App {
    pub card_title: String,
    pub excel_path: String,
    pub exel_path_exists: bool,
    pub exel_path_is_excel: bool,
    pub all_sheets_names: Vec<String>,
    pub sheet_name: Option<String>,
    pub all_rows_indexes: Vec<usize>,
    pub title_row_index: Option<usize>,
    pub all_titles_names: Vec<(bool, String)>,
    pub rendered_at: Option<String>,
}

/// The mathematical value of the form.
pub ghost struct AppView {
    pub card_title: Seq<char>,
    pub excel_path: Seq<char>,
    pub exel_path_exists: bool,
    pub exel_path_is_excel: bool,
    pub all_sheets_names: Seq<Seq<char>>,
    pub sheet_name: Option<Seq<char>>,
    pub all_rows_indexes: Seq<usize>,
    pub title_row_index: Option<usize>,
    pub all_titles_names: Seq<(bool, Seq<char>)>,
    pub rendered_at: Option<Seq<char>>,
}

impl View for App {
    type V = AppView;

    open spec fn view(&self) -> AppView {
        AppView {
            card_title: self.card_title@,
            excel_path: self.excel_path@,
            exel_path_exists: self.exel_path_exists,
            exel_path_is_excel: self.exel_path_is_excel,
            all_sheets_names: self.all_sheets_names.deep_view(),
            sheet_name: self.sheet_name.deep_view(),
            all_rows_indexes: self.all_rows_indexes@,
            title_row_index: self.title_row_index,
            all_titles_names: self.all_titles_names.deep_view(),
            rendered_at: self.rendered_at.deep_view(),
        }
    }
}

/// The form before anything was entered.
pub open spec fn blank() -> AppView {
    AppView {
        card_title: Seq::empty(),
        excel_path: Seq::empty(),
        exel_path_exists: false,
        exel_path_is_excel: false,
        all_sheets_names: Seq::empty(),
        sheet_name: None,
        all_rows_indexes: Seq::empty(),
        title_row_index: None,
        all_titles_names: Seq::empty(),
        rendered_at: None,
    }
}

impl App {
    /// The form before anything was entered.
    pub fn new() -> (app: Self)
        ensures
            app@ == blank(),
    {
        let app = Self {
            card_title: String::new(),
            excel_path: String::new(),
            exel_path_exists: false,
            exel_path_is_excel: false,
            all_sheets_names: Vec::new(),
            sheet_name: None,
            all_rows_indexes: Vec::new(),
            title_row_index: None,
            all_titles_names: Vec::new(),
            rendered_at: None,
        };
        assert(app.all_sheets_names.deep_view() =~= Seq::<Seq<char>>::empty());
        assert(app.all_titles_names.deep_view() =~= Seq::<(bool, Seq<char>)>::empty());
        app
    }
}

/// What can happen to the form: what its user does, and what comes back from
/// the work that the form asked for.
#[derive(Debug, PartialEq, Eq)]
pub enum Message {
    /// The title of the cards was typed.
    CardTitleChanged(String),
    /// The path of the workbook was typed or chosen: the path, whether a file
    /// stands there, and the extension of its file name.
    ExcelPathChanged { path: String, exists: bool, extension: Option<String> },
    /// The sheets of the workbook were listed.
    SheetsListed(Vec<String>),
    /// A sheet was chosen by its name.
    SheetNameSelected(String),
    /// The chosen sheet was read: its name, its first and its last populated row.
    SheetLoaded { name: String, top: usize, bottom: usize },
    /// The header row was chosen by its position, counted from 1.
    TitlRowIndexSelected(usize),
    /// The header row was read: its position and the texts of its cells.
    TitlesLoaded { index: usize, titles: Vec<String> },
    /// The user asked for the file dialog.
    PickExelFile,
    /// The file dialog returned a path.
    FilePicked(String),
    /// A column was switched on or off.
    ToggleTitle((usize, bool)),
    /// The user asked for the document.
    Render,
    /// The document was written to this path.
    Rendered(String),
    /// No document was made; the error says why.
    RenderFailed(CardError),
}

/// The mathematical value of a `Message`.
pub ghost enum MessageView {
    CardTitleChanged(Seq<char>),
    ExcelPathChanged { path: Seq<char>, exists: bool, extension: Option<Seq<char>> },
    SheetsListed(Seq<Seq<char>>),
    SheetNameSelected(Seq<char>),
    SheetLoaded { name: Seq<char>, top: usize, bottom: usize },
    TitlRowIndexSelected(usize),
    TitlesLoaded { index: usize, titles: Seq<Seq<char>> },
    PickExelFile,
    FilePicked(Seq<char>),
    ToggleTitle((usize, bool)),
    Render,
    Rendered(Seq<char>),
    RenderFailed(Failure),
}

impl View for Message {
    type V = MessageView;

    open spec fn view(&self) -> MessageView {
        match self {
            Message::CardTitleChanged(title) => MessageView::CardTitleChanged(title@),
            Message::ExcelPathChanged { path, exists, extension } => MessageView::ExcelPathChanged {
                path: path@,
                exists: *exists,
                extension: extension.deep_view(),
            },
            Message::SheetsListed(names) => MessageView::SheetsListed(names.deep_view()),
            Message::SheetNameSelected(name) => MessageView::SheetNameSelected(name@),
            Message::SheetLoaded { name, top, bottom } => MessageView::SheetLoaded {
                name: name@,
                top: *top,
                bottom: *bottom,
            },
            Message::TitlRowIndexSelected(index) => MessageView::TitlRowIndexSelected(*index),
            Message::TitlesLoaded { index, titles } => MessageView::TitlesLoaded {
                index: *index,
                titles: titles.deep_view(),
            },
            Message::PickExelFile => MessageView::PickExelFile,
            Message::FilePicked(path) => MessageView::FilePicked(path@),
            Message::ToggleTitle(toggle) => MessageView::ToggleTitle(*toggle),
            Message::Render => MessageView::Render,
            Message::Rendered(path) => MessageView::Rendered(path@),
            Message::RenderFailed(error) => MessageView::RenderFailed(error@),
        }
    }
}

/// What the form asks to be done after an event.
#[derive(Clone, Debug, PartialEq, Eq)]
pub enum Action {
    /// Nothing.
    Nothing,
    /// List the sheets of the workbook at this path.
    ListSheets { path: String },
    /// Read the row bounds of this sheet of the workbook at this path.
    LoadSheet { path: String, sheet: String },
    /// Read the row at this position, counted from 1, of this sheet.
    LoadTitles { path: String, sheet: String, index: usize },
    /// Show the file dialog.
    PickFile,
    /// Make the document and write it.
    Render { title: String, title_row_index: usize, path: String, sheet: String, columns: Vec<usize> },
}

/// The mathematical value of an `Action`.
pub ghost enum ActionView {
    Nothing,
    ListSheets { path: Seq<char> },
    LoadSheet { path: Seq<char>, sheet: Seq<char> },
    LoadTitles { path: Seq<char>, sheet: Seq<char>, index: usize },
    PickFile,
    Render {
        title: Seq<char>,
        title_row_index: usize,
        path: Seq<char>,
        sheet: Seq<char>,
        columns: Seq<usize>,
    },
}

impl View for Action {
    type V = ActionView;

    open spec fn view(&self) -> ActionView {
        match self {
            Action::Nothing => ActionView::Nothing,
            Action::ListSheets { path } => ActionView::ListSheets { path: path@ },
            Action::LoadSheet { path, sheet } => ActionView::LoadSheet { path: path@, sheet: sheet@ },
            Action::LoadTitles { path, sheet, index } => ActionView::LoadTitles {
                path: path@,
                sheet: sheet@,
                index: *index,
            },
            Action::PickFile => ActionView::PickFile,
            Action::Render { title, title_row_index, path, sheet, columns } => ActionView::Render {
                title: title@,
                title_row_index: *title_row_index,
                path: path@,
                sheet: sheet@,
                columns: columns@,
            },
        }
    }
}

/// Whether a file name's extension is one that a workbook has.
pub open spec fn is_sheet_extension(extension: Option<Seq<char>>) -> bool {
    match extension {
        Some(e) => e == "xls"@ || e == "xlsx"@ || e == "xlsb"@ || e == "ods"@,
        None => false,
    }
}

/// The numbers that the form offers for the header row of a sheet whose
/// populated rows run from `top` to `bottom`: those from `top + 1` to `bottom`,
/// in rising order, and none where `top` is not above `bottom`. For a sheet that
/// starts at row 0 these are the positions, counted from 1, of all its rows but
/// the last, which has nothing below it.
pub open spec fn rows_after(top: usize, bottom: usize) -> Seq<usize> {
    if top < bottom {
        Seq::new((bottom - top) as nat, |k: int| (top + 1 + k) as usize)
    } else {
        Seq::empty()
    }
}

/// The titles of a header row with no column switched on.
pub open spec fn unticked(titles: Seq<Seq<char>>) -> Seq<(bool, Seq<char>)> {
    titles.map_values(|title: Seq<char>| (false, title))
}

/// The columns that are switched on, by their index, in rising order.
pub open spec fn ticked(titles: Seq<(bool, Seq<char>)>) -> Seq<usize>
    decreases titles.len(),
{
    if titles.len() == 0 {
        Seq::empty()
    } else if titles.last().0 {
        ticked(titles.drop_last()).push((titles.len() - 1) as usize)
    } else {
        ticked(titles.drop_last())
    }
}

/// Whether the form holds what a document needs: a title and a column.
pub open spec fn ready(state: AppView) -> bool {
    state.card_title.len() > 0 && ticked(state.all_titles_names).len() > 0
}

/// The form after an event.
pub open spec fn next_state(state: AppView, message: MessageView) -> AppView {
    match message {
        MessageView::CardTitleChanged(title) => AppView { card_title: title, ..state },
        MessageView::ExcelPathChanged { path, exists, extension } => {
            let sheet_file = is_sheet_extension(extension);
            if exists && sheet_file {
                AppView {
                    excel_path: path,
                    exel_path_exists: exists,
                    exel_path_is_excel: sheet_file,
                    ..state
                }
            } else {
                AppView {
                    excel_path: path,
                    exel_path_exists: exists,
                    exel_path_is_excel: sheet_file,
                    all_sheets_names: Seq::empty(),
                    sheet_name: None,
                    ..state
                }
            }
        },
        MessageView::SheetsListed(names) => AppView { all_sheets_names: names, ..state },
        MessageView::SheetLoaded { name, top, bottom } => AppView {
            all_rows_indexes: rows_after(top, bottom),
            sheet_name: Some(name),
            ..state
        },
        MessageView::TitlesLoaded { index, titles } => AppView {
            all_titles_names: unticked(titles),
            title_row_index: Some(index),
            ..state
        },
        MessageView::FilePicked(path) => AppView { excel_path: path, ..state },
        MessageView::ToggleTitle(toggle) => if toggle.0 < state.all_titles_names.len() {
            AppView {
                all_titles_names: state.all_titles_names.update(
                    toggle.0 as int,
                    (toggle.1, state.all_titles_names[toggle.0 as int].1),
                ),
                ..state
            }
        } else {
            state
        },
        MessageView::Rendered(path) => AppView { rendered_at: Some(path), ..state },
        MessageView::SheetNameSelected(_) => state,
        MessageView::TitlRowIndexSelected(_) => state,
        MessageView::PickExelFile => state,
        MessageView::Render => state,
        MessageView::RenderFailed(_) => state,
    }
}

/// What the form asks for after an event.
pub open spec fn action_for(state: AppView, message: MessageView) -> ActionView {
    match message {
        MessageView::ExcelPathChanged { path, exists, extension } => if exists
            && is_sheet_extension(extension) {
            ActionView::ListSheets { path }
        } else {
            ActionView::Nothing
        },
        MessageView::SheetNameSelected(name) => ActionView::LoadSheet {
            path: state.excel_path,
            sheet: name,
        },
        MessageView::TitlRowIndexSelected(index) => match state.sheet_name {
            Some(sheet) => ActionView::LoadTitles { path: state.excel_path, sheet, index },
            None => ActionView::Nothing,
        },
        MessageView::PickExelFile => ActionView::PickFile,
        MessageView::Render => match (state.title_row_index, state.sheet_name) {
            (Some(title_row_index), Some(sheet)) => ActionView::Render {
                title: state.card_title,
                title_row_index,
                path: state.excel_path,
                sheet,
                columns: ticked(state.all_titles_names),
            },
            _ => ActionView::Nothing,
        },
        _ => ActionView::Nothing,
    }
}

/// Whether a text is the given one.
fn same_text(text: &String, other: &str) -> (same: bool)
    ensures
        same == (text@ == other@),
{
    let other = String::from_str(other);
    text.eq(&other)
}

/// Whether a file name's extension is one that a workbook has.
pub fn sheet_extension(extension: &Option<String>) -> (known: bool)
    ensures
        known == is_sheet_extension(extension.deep_view()),
{
    match extension {
        Some(e) => same_text(e, "xls") || same_text(e, "xlsx") || same_text(e, "xlsb")
            || same_text(e, "ods"),
        None => false,
    }
}

/// The numbers that the form offers for the header row of a sheet with these
/// row bounds: those from `top + 1` to `bottom`.
pub fn header_positions(top: usize, bottom: usize) -> (rows: Vec<usize>)
    ensures
        rows@ == rows_after(top, bottom),
{
    let mut rows: Vec<usize> = Vec::new();
    let mut r: usize = top;
    while r < bottom
        invariant
            top <= r,
            top < bottom ==> r <= bottom,
            top >= bottom ==> r == top,
            rows@ == Seq::new((r - top) as nat, |k: int| (top + 1 + k) as usize),
        decreases bottom - r,
    {
        r += 1;
        rows.push(r);
        assert(rows@ =~= Seq::new((r - top) as nat, |k: int| (top + 1 + k) as usize));
    }
    assert(rows@ =~= rows_after(top, bottom));
    rows
}

/// The columns that are switched on, by their index, in rising order.
pub fn selected_columns(titles: &Vec<(bool, String)>) -> (columns: Vec<usize>)
    ensures
        columns@ == ticked(titles.deep_view()),
{
    let mut columns: Vec<usize> = Vec::new();
    let ghost all = titles.deep_view();
    let mut i: usize = 0;
    assert(all.take(0) =~= Seq::<(bool, Seq<char>)>::empty());
    while i < titles.len()
        invariant
            i <= titles.len(),
            all == titles.deep_view(),
            columns@ == ticked(all.take(i as int)),
        decreases titles.len() - i,
    {
        proof {
            let next = all.take(i as int + 1);
            assert(next.drop_last() =~= all.take(i as int));
            assert(next.last().0 == titles[i as int].0);
        }
        if titles[i].0 {
            columns.push(i);
        }
        i += 1;
    }
    assert(all.take(i as int) =~= all);
    columns
}

/// The titles of a header row with no column switched on.
pub fn untick(titles: Vec<String>) -> (columns: Vec<(bool, String)>)
    ensures
        columns.deep_view() == unticked(titles.deep_view()),
{
    let mut columns: Vec<(bool, String)> = Vec::new();
    let mut i: usize = 0;
    while i < titles.len()
        invariant
            i <= titles.len(),
            columns.len() == i,
            forall|k: int| 0 <= k < i ==> #[trigger] columns[k] == (false, titles[k]),
        decreases titles.len() - i,
    {
        columns.push((false, titles[i].clone()));
        i += 1;
    }
    assert(columns.deep_view() =~= unticked(titles.deep_view()));
    columns
}

impl App {
    /// Whether the form holds what a document needs: a title and a column.
    pub fn can_submit(&self) -> (yes: bool)
        ensures
            yes == ready(self@),
    {
        let columns = selected_columns(&self.all_titles_names);
        columns.len() > 0 && !self.card_title.as_str().is_empty()
    }

    /// Takes one event: changes the form as the event says, and returns what has
    /// to be done next. What that work gives comes back as a later event; until
    /// then the form stays as it was, and it stays so where the work failed.
    pub fn update(&mut self, message: Message) -> (action: Action)
        ensures
            final(self)@ == next_state(old(self)@, message@),
            action@ == action_for(old(self)@, message@),
    {
        match message {
            Message::CardTitleChanged(title) => {
                self.card_title = title;
                Action::Nothing
            },
            Message::ExcelPathChanged { path, exists, extension } => {
                let sheet_file = sheet_extension(&extension);
                self.exel_path_exists = exists;
                self.exel_path_is_excel = sheet_file;
                if exists && sheet_file {
                    let asked = path.clone();
                    self.excel_path = path;
                    Action::ListSheets { path: asked }
                } else {
                    self.excel_path = path;
                    self.all_sheets_names = Vec::new();
                    self.sheet_name = None;
                    assert(self.all_sheets_names.deep_view() =~= Seq::<Seq<char>>::empty());
                    Action::Nothing
                }
            },
            Message::SheetsListed(names) => {
                self.all_sheets_names = names;
                Action::Nothing
            },
            Message::SheetNameSelected(name) => Action::LoadSheet {
                path: self.excel_path.clone(),
                sheet: name,
            },
            Message::SheetLoaded { name, top, bottom } => {
                self.all_rows_indexes = header_positions(top, bottom);
                self.sheet_name = Some(name);
                Action::Nothing
            },
            Message::TitlRowIndexSelected(index) => match &self.sheet_name {
                Some(sheet) => Action::LoadTitles {
                    path: self.excel_path.clone(),
                    sheet: sheet.clone(),
                    index,
                },
                None => Action::Nothing,
            },
            Message::TitlesLoaded { index, titles } => {
                self.all_titles_names = untick(titles);
                self.title_row_index = Some(index);
                Action::Nothing
            },
            Message::PickExelFile => Action::PickFile,
            Message::FilePicked(path) => {
                self.excel_path = path;
                Action::Nothing
            },
            Message::ToggleTitle(toggle) => {
                let (index, on) = toggle;
                if index < self.all_titles_names.len() {
                    let title = self.all_titles_names[index].1.clone();
                    self.all_titles_names.set(index, (on, title));
                    assert(self.all_titles_names.deep_view() =~= old(
                        self,
                    ).all_titles_names.deep_view().update(index as int, (on, title@)));
                }
                Action::Nothing
            },
            Message::Render => match (self.title_row_index, &self.sheet_name) {
                (Some(title_row_index), Some(sheet)) => Action::Render {
                    title: self.card_title.clone(),
                    title_row_index,
                    path: self.excel_path.clone(),
                    sheet: sheet.clone(),
                    columns: selected_columns(&self.all_titles_names),
                },
                _ => Action::Nothing,
            },
            Message::Rendered(path) => {
                self.rendered_at = Some(path);
                Action::Nothing
            },
            Message::RenderFailed(_) => Action::Nothing,
        }
    }
}

/// What a request for the document ends in, for each outcome of the
/// extraction: the document of the cards, or the event that reports the failure.
pub open spec fn rendering_of(title: Seq<char>, outcome: Result<Seq<Seq<Pair>>, Failure>) -> Result<
    Seq<char>,
    MessageView,
> {
    match outcome {
        Ok(cards) => Ok(rendered(title, cards)),
        Err(failure) => Err(MessageView::RenderFailed(failure)),
    }
}

/// The mathematical value of what a request for the document ended in.
pub open spec fn rendering_model(made: Result<String, Message>) -> Result<Seq<char>, MessageView> {
    match made {
        Ok(document) => Ok(document@),
        Err(event) => Err(event@),
    }
}

/// Turns what an extraction returned into the document to write, or into the
/// event that tells the form that there is none.
pub fn rendering(title: String, outcome: Result<Vec<Vec<Kv>>, CardError>) -> (made: Result<
    String,
    Message,
>)
    ensures
        rendering_model(made) == rendering_of(title@, outcome_model(outcome)),
{
    match outcome {
        Ok(cards) => Ok(render(title, cards)),
        Err(error) => Err(Message::RenderFailed(error)),
    }
}

/// Reads `sheet` and returns the document of its cards under `title`, or, where
/// no cards can be made, the event that tells the form so.
pub fn render_sheet(
    title: String,
    title_row_index: usize,
    sheet: &Range<Data>,
    columns: Vec<usize>,
) -> (made: Result<String, Message>)
    ensures
        rendering_model(made) == rendering_of(
            title@,
            extraction(*sheet, title_row_index as nat, columns@),
        ),
{
    let outcome = get_cards(title_row_index, sheet, columns);
    rendering(title, outcome)
}

} // verus!
