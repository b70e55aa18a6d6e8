use crate::state::{
    action_for, next_state, ready, rendering_of, ticked, ActionView, AppView, MessageView,
};
use crate::text::{escaped, escaped_char};
use crate::web_render::{
    all_filled, card_markup, card_of, cards_markup, cards_of, cell_text, cells_of, document_of,
    failure_markup, first_failure, grid_markup, header_of, message_of, page, pair_at, pair_markup,
    pairs_markup, rendered, Failure, Kv, Pair, RowModel, CARD_CLOSE, CARD_MIDDLE, CARD_OPEN, CSS,
    FAILURE_CLOSE, FAILURE_OPEN, GRID_CLOSE, GRID_OPEN, PAGE_CLOSE, PAGE_MIDDLE, PAGE_OPEN,
    PAIR_CLOSE, PAIR_MIDDLE, PAIR_OPEN,
};
use vstd::prelude::*;

verus! {

/// A card made from two stretches of columns is the card of the first stretch
/// followed by the card of the second: the pairs stand in the order in which
/// the columns were chosen.
pub proof fn card_follows_column_order(
    header: Seq<Seq<char>>,
    row: Seq<Seq<char>>,
    first: Seq<usize>,
    second: Seq<usize>,
)
    ensures
        card_of(header, row, first + second) == card_of(header, row, first) + card_of(
            header,
            row,
            second,
        ),
    decreases second.len(),
{
    if second.len() == 0 {
        assert(first + second =~= first);
        assert(card_of(header, row, first) + Seq::<Pair>::empty() =~= card_of(header, row, first));
    } else {
        let whole = first + second;
        assert(whole.drop_last() =~= first + second.drop_last());
        assert(whole.last() == second.last());
        card_follows_column_order(header, row, first, second.drop_last());
        assert(card_of(header, row, whole) =~= card_of(header, row, first) + card_of(
            header,
            row,
            second,
        ));
    }
}

/// With two columns chosen, what the first gives comes before what the second
/// gives, whichever of them has the lower index.
pub proof fn card_of_two_columns(
    header: Seq<Seq<char>>,
    row: Seq<Seq<char>>,
    first: usize,
    second: usize,
)
    ensures
        card_of(header, row, seq![first, second]) == pair_at(header, row, first as int) + pair_at(
            header,
            row,
            second as int,
        ),
{
    let both = seq![first, second];
    assert(both.drop_last() =~= seq![first]);
    assert(seq![first].drop_last() =~= Seq::<usize>::empty());
    reveal_with_fuel(card_of, 3);
    assert(card_of(header, row, both) =~= pair_at(header, row, first as int) + pair_at(
        header,
        row,
        second as int,
    ));
}

/// No pair of a card has an empty label or an empty value.
pub proof fn card_pairs_are_filled(header: Seq<Seq<char>>, row: Seq<Seq<char>>, columns: Seq<usize>)
    ensures
        forall|j: int|
            0 <= j < card_of(header, row, columns).len() ==> {
                &&& (#[trigger] card_of(header, row, columns)[j]).0.len() > 0
                &&& card_of(header, row, columns)[j].1.len() > 0
            },
    decreases columns.len(),
{
    if columns.len() > 0 {
        card_pairs_are_filled(header, row, columns.drop_last());
        let card = card_of(header, row, columns);
        let head = card_of(header, row, columns.drop_last());
        let tail = pair_at(header, row, columns.last() as int);
        assert(card == head + tail);
        assert forall|j: int| 0 <= j < card.len() implies {
            &&& (#[trigger] card[j]).0.len() > 0
            &&& card[j].1.len() > 0
        } by {
            if j < head.len() {
                assert(card[j] == head[j]);
            } else {
                assert(card[j] == tail[j - head.len()]);
            }
        }
    }
}

/// A card has at most one pair for each chosen column.
pub proof fn card_is_no_longer_than_columns(
    header: Seq<Seq<char>>,
    row: Seq<Seq<char>>,
    columns: Seq<usize>,
)
    ensures
        card_of(header, row, columns).len() <= columns.len(),
    decreases columns.len(),
{
    if columns.len() > 0 {
        card_is_no_longer_than_columns(header, row, columns.drop_last());
    }
}

/// No pair of any card that an extraction returns has an empty label or an
/// empty value.
pub proof fn extracted_pairs_are_filled(rows: Seq<RowModel>, position: nat, columns: Seq<usize>)
    ensures
        cards_of(rows, position, columns) matches Ok(cards) ==> all_filled(cards),
{
    if let Ok(cards) = cards_of(rows, position, columns) {
        let header = header_of(rows, position)->Ok_0;
        let data = rows.skip(position as int);
        assert forall|i: int, j: int| 0 <= i < cards.len() && 0 <= j < cards[i].len() implies {
            &&& (#[trigger] cards[i][j]).0.len() > 0
            &&& cards[i][j].1.len() > 0
        } by {
            card_pairs_are_filled(header, cells_of(data[i]), columns);
        }
    }
}

/// An extraction that succeeds returns one card for each row below the header
/// row, and none of those rows was unreadable.
pub proof fn extraction_gives_a_card_for_each_row(
    rows: Seq<RowModel>,
    position: nat,
    columns: Seq<usize>,
)
    ensures
        cards_of(rows, position, columns) matches Ok(cards) ==> {
            &&& 1 <= position <= rows.len()
            &&& cards.len() == rows.len() - position
            &&& rows[position - 1] is Ok
            &&& first_failure(rows.skip(position as int), rows.len() - position) is None
        },
{
}

/// A header position beyond the rows of the sheet is reported as a header that
/// was not found, whatever the columns are; so is every position on a sheet
/// without rows.
pub proof fn header_beyond_rows_is_not_found(rows: Seq<RowModel>, position: nat, columns: Seq<usize>)
    requires
        position > rows.len(),
    ensures
        cards_of(rows, position, columns) == Err::<Seq<Seq<Pair>>, Failure>(
            Failure::HeaderNotFound(position),
        ),
        header_of(rows, position) == Err::<Seq<Seq<char>>, Failure>(
            Failure::HeaderNotFound(position),
        ),
{
}

/// A column that the header row or the data row does not have gives no pair.
pub proof fn column_out_of_range_gives_nothing(
    header: Seq<Seq<char>>,
    row: Seq<Seq<char>>,
    column: int,
)
    requires
        column >= header.len() || column >= row.len(),
    ensures
        pair_at(header, row, column) == Seq::<Pair>::empty(),
{
    assert(cell_text(header, column).len() == 0 || cell_text(row, column).len() == 0);
}

/// Two renderings of the same title and cards are the same text.
pub proof fn rendering_is_repeatable(
    title: String,
    cards: Vec<Vec<Kv>>,
    again_title: String,
    again_cards: Vec<Vec<Kv>>,
    out: String,
    again: String,
)
    requires
        title@ == again_title@,
        cards.deep_view() == again_cards.deep_view(),
        out@ == rendered(title@, cards.deep_view()),
        again@ == rendered(again_title@, again_cards.deep_view()),
    ensures
        out@ == again@,
{
}

/// Escaped text holds none of the characters that start or end markup or an
/// attribute's value.
pub proof fn escaped_holds_no_markup(s: Seq<char>)
    ensures
        forall|i: int|
            0 <= i < escaped(s).len() ==> {
                &&& (#[trigger] escaped(s)[i]) != '<'
                &&& escaped(s)[i] != '>'
                &&& escaped(s)[i] != '"'
                &&& escaped(s)[i] != '\''
            },
    decreases s.len(),
{
    if s.len() > 0 {
        escaped_holds_no_markup(s.drop_last());
        let head = escaped(s.drop_last());
        let tail = escaped_char(s.last());
        assert forall|i: int| 0 <= i < escaped(s).len() implies {
            &&& (#[trigger] escaped(s)[i]) != '<'
            &&& escaped(s)[i] != '>'
            &&& escaped(s)[i] != '"'
            &&& escaped(s)[i] != '\''
        } by {
            if i < head.len() {
                assert(escaped(s)[i] == head[i]);
            } else {
                assert(escaped(s)[i] == tail[i - head.len()]);
            }
        }
    }
}

/// Text without any of the five special characters is escaped to itself.
pub proof fn plain_text_is_kept(s: Seq<char>)
    requires
        forall|i: int|
            0 <= i < s.len() ==> {
                &&& (#[trigger] s[i]) != '&'
                &&& s[i] != '<'
                &&& s[i] != '>'
                &&& s[i] != '"'
                &&& s[i] != '\''
            },
    ensures
        escaped(s) == s,
    decreases s.len(),
{
    if s.len() > 0 {
        plain_text_is_kept(s.drop_last());
        assert(s.drop_last().push(s.last()) =~= s);
        assert(escaped(s) =~= s.drop_last() + seq![s.last()]);
        assert(s.drop_last() + seq![s.last()] =~= s);
    } else {
        assert(escaped(s) =~= s);
    }
}

/// The columns that are switched on come out in rising order, each of them an
/// index of a title that is switched on.
pub proof fn ticked_columns_rise(titles: Seq<(bool, Seq<char>)>)
    requires
        titles.len() <= usize::MAX,
    ensures
        forall|k: int|
            0 <= k < ticked(titles).len() ==> {
                &&& (#[trigger] ticked(titles)[k]) < titles.len()
                &&& titles[ticked(titles)[k] as int].0
            },
        forall|k: int, l: int|
            0 <= k < l < ticked(titles).len() ==> ticked(titles)[k] < ticked(titles)[l],
    decreases titles.len(),
{
    if titles.len() > 0 {
        let rest = titles.drop_last();
        ticked_columns_rise(rest);
        let before = ticked(rest);
        let all = ticked(titles);
        assert forall|k: int| 0 <= k < all.len() implies {
            &&& (#[trigger] all[k]) < titles.len()
            &&& titles[all[k] as int].0
        } by {
            if k < before.len() {
                assert(all[k] == before[k]);
                assert(rest[before[k] as int] == titles[before[k] as int]);
            } else {
                assert(titles.last().0);
                assert(all[k] == (titles.len() - 1) as usize);
            }
        }
        assert forall|k: int, l: int| 0 <= k < l < all.len() implies all[k] < all[l] by {
            assert(all[k] == before[k]);
            if l < before.len() {
                assert(all[l] == before[l]);
            } else {
                assert(all[l] == (titles.len() - 1) as usize);
                assert(before[k] < rest.len());
            }
        }
    }
}

/// An event that only asks for work leaves the form as it was: what the work
/// gives comes back as an event of its own, and work that fails changes nothing.
pub proof fn asking_changes_nothing(state: AppView, message: MessageView)
    requires
        message is SheetNameSelected || message is TitlRowIndexSelected || message is PickExelFile
            || message is Render || message is RenderFailed,
    ensures
        next_state(state, message) == state,
{
}

/// A request for the document whose extraction fails ends in an event that
/// leaves the form as it was: what was rendered before stays on show, and
/// nothing new is reported as rendered.
pub proof fn failed_rendering_keeps_the_form(
    state: AppView,
    title: Seq<char>,
    outcome: Result<Seq<Seq<Pair>>, Failure>,
)
    requires
        outcome is Err,
    ensures
        rendering_of(title, outcome) matches Err(event) && event == MessageView::RenderFailed(
            outcome->Err_0,
        ) && next_state(state, event) == state && action_for(state, event) == ActionView::Nothing,
{
}

/// Only the report of a written document changes what the form shows as
/// rendered.
pub proof fn only_a_written_document_is_shown(state: AppView, message: MessageView)
    requires
        !(message is Rendered),
    ensures
        next_state(state, message).rendered_at == state.rendered_at,
{
}

/// Whatever was switched on or off, the form is ready for a document exactly
/// when it has a title and some column is switched on.
pub proof fn ready_needs_title_and_column(state: AppView)
    requires
        state.all_titles_names.len() <= usize::MAX,
    ensures
        ready(state) <==> state.card_title.len() > 0 && exists|k: int|
            0 <= k < state.all_titles_names.len() && (#[trigger] state.all_titles_names[k]).0,
{
    let titles = state.all_titles_names;
    ticked_holds_each_switched_on(titles);
    ticked_columns_rise(titles);
    if ticked(titles).len() > 0 {
        let k = ticked(titles)[0] as int;
        assert(titles[k].0);
    }
}

/// Every title that is switched on has its index among the ticked columns.
pub proof fn ticked_holds_each_switched_on(titles: Seq<(bool, Seq<char>)>)
    requires
        titles.len() <= usize::MAX,
    ensures
        forall|k: int|
            0 <= k < titles.len() && (#[trigger] titles[k]).0 ==> ticked(titles).contains(
                k as usize,
            ),
    decreases titles.len(),
{
    if titles.len() > 0 {
        let rest = titles.drop_last();
        ticked_holds_each_switched_on(rest);
        assert forall|k: int| 0 <= k < titles.len() && (#[trigger] titles[k]).0 implies ticked(
            titles,
        ).contains(k as usize) by {
            if k < rest.len() {
                assert(rest[k].0);
                let at = choose|j: int| 0 <= j < ticked(rest).len() && ticked(rest)[j] == k as usize;
                assert(ticked(titles)[at] == k as usize);
            } else {
                assert(ticked(titles).last() == k as usize);
            }
        }
    }
}

/// Whether `part` stands somewhere in `text`, unbroken.
pub open spec fn holds(text: Seq<char>, part: Seq<char>) -> bool {
    exists|at: int|
        0 <= at && at + part.len() <= text.len() && #[trigger] text.subrange(
            at,
            at + part.len(),
        ) == part
}

/// A text between two others stands in the whole.
pub proof fn part_stands_between(before: Seq<char>, part: Seq<char>, after: Seq<char>)
    ensures
        holds(before + part + after, part),
{
    let whole = before + part + after;
    let at = before.len() as int;
    assert(whole.subrange(at, at + part.len()) =~= part);
}

/// What stands in a part of a text stands in the text.
pub proof fn part_of_part_stands(text: Seq<char>, part: Seq<char>, inner: Seq<char>)
    requires
        holds(text, part),
        holds(part, inner),
    ensures
        holds(text, inner),
{
    let a = choose|at: int|
        0 <= at && at + part.len() <= text.len() && #[trigger] text.subrange(at, at + part.len())
            == part;
    let b = choose|at: int|
        0 <= at && at + inner.len() <= part.len() && #[trigger] part.subrange(at, at + inner.len())
            == inner;
    assert(text.subrange(a + b, a + b + inner.len()) =~= text.subrange(a, a + part.len()).subrange(
        b,
        b + inner.len(),
    ));
}

/// The markup of each pair of a card stands in the markup of the card's pairs.
pub proof fn pair_stands_in_its_card(card: Seq<Pair>, j: int)
    requires
        0 <= j < card.len(),
    ensures
        holds(pairs_markup(card), pair_markup(card[j])),
    decreases card.len(),
{
    let head = pairs_markup(card.drop_last());
    let tail = pair_markup(card.last());
    assert(pairs_markup(card) =~= head + tail + Seq::<char>::empty());
    part_stands_between(head, tail, Seq::empty());
    if j < card.len() - 1 {
        pair_stands_in_its_card(card.drop_last(), j);
        assert(pairs_markup(card) =~= Seq::<char>::empty() + head + tail);
        part_stands_between(Seq::empty(), head, tail);
        part_of_part_stands(pairs_markup(card), head, pair_markup(card[j]));
    }
}

/// The markup of each card stands in the markup of the cards.
pub proof fn card_stands_among_the_cards(title: Seq<char>, cards: Seq<Seq<Pair>>, i: int)
    requires
        0 <= i < cards.len(),
    ensures
        holds(cards_markup(title, cards), card_markup(title, cards[i])),
    decreases cards.len(),
{
    let head = cards_markup(title, cards.drop_last());
    let tail = card_markup(title, cards.last());
    assert(cards_markup(title, cards) =~= head + tail + Seq::<char>::empty());
    part_stands_between(head, tail, Seq::empty());
    if i < cards.len() - 1 {
        card_stands_among_the_cards(title, cards.drop_last(), i);
        assert(cards_markup(title, cards) =~= Seq::<char>::empty() + head + tail);
        part_stands_between(Seq::empty(), head, tail);
        part_of_part_stands(cards_markup(title, cards), head, card_markup(title, cards[i]));
    }
}

/// Every label and every value of every card stands in the rendered document
/// in its escaped form, inside the markup of its pair.
pub proof fn rendered_shows_each_pair_escaped(
    title: Seq<char>,
    cards: Seq<Seq<Pair>>,
    i: int,
    j: int,
)
    requires
        0 <= i < cards.len(),
        0 <= j < cards[i].len(),
    ensures
        holds(rendered(title, cards), pair_markup(cards[i][j])),
        holds(rendered(title, cards), escaped(cards[i][j].0)),
        holds(rendered(title, cards), escaped(cards[i][j].1)),
{
    let pair = cards[i][j];
    let shown = pair_markup(pair);
    let card = card_markup(title, cards[i]);
    let all = cards_markup(title, cards);
    let grid = grid_markup(title, cards);
    let whole = rendered(title, cards);
    pair_stands_in_its_card(cards[i], j);
    assert(card =~= (CARD_OPEN@ + escaped(title) + CARD_MIDDLE@) + pairs_markup(cards[i])
        + CARD_CLOSE@);
    part_stands_between(
        CARD_OPEN@ + escaped(title) + CARD_MIDDLE@,
        pairs_markup(cards[i]),
        CARD_CLOSE@,
    );
    part_of_part_stands(card, pairs_markup(cards[i]), shown);
    card_stands_among_the_cards(title, cards, i);
    part_of_part_stands(all, card, shown);
    part_stands_between(GRID_OPEN@, all, GRID_CLOSE@);
    part_of_part_stands(grid, all, shown);
    assert(whole =~= (PAGE_OPEN@ + CSS@ + PAGE_MIDDLE@) + grid + PAGE_CLOSE@);
    part_stands_between(PAGE_OPEN@ + CSS@ + PAGE_MIDDLE@, grid, PAGE_CLOSE@);
    part_of_part_stands(whole, grid, shown);
    assert(shown =~= PAIR_OPEN@ + escaped(pair.0) + (PAIR_MIDDLE@ + escaped(pair.1)
        + PAIR_CLOSE@));
    part_stands_between(PAIR_OPEN@, escaped(pair.0), PAIR_MIDDLE@ + escaped(pair.1) + PAIR_CLOSE@);
    part_of_part_stands(whole, shown, escaped(pair.0));
    assert(shown =~= (PAIR_OPEN@ + escaped(pair.0) + PAIR_MIDDLE@) + escaped(pair.1)
        + PAIR_CLOSE@);
    part_stands_between(PAIR_OPEN@ + escaped(pair.0) + PAIR_MIDDLE@, escaped(pair.1), PAIR_CLOSE@);
    part_of_part_stands(whole, shown, escaped(pair.1));
}

/// Whether every `<` of a text is followed, inside the text, by two characters
/// other than `sc`: no `<script` begins in it, and none can begin at its end
/// whatever is written after it.
pub open spec fn opens_no_script(s: Seq<char>) -> bool {
    forall|i: int|
        0 <= i < s.len() && #[trigger] s[i] == '<' ==> i + 2 < s.len() && !(s[i + 1] == 's' && s[i
            + 2] == 'c')
}

/// None of the fixed parts of the document opens a `<script`. The texts are
/// written out here once more, since only so can their characters be read.
pub proof fn fixed_parts_open_no_script()
    ensures
        opens_no_script(PAIR_OPEN@),
        opens_no_script(PAIR_MIDDLE@),
        opens_no_script(PAIR_CLOSE@),
        opens_no_script(CARD_OPEN@),
        opens_no_script(CARD_MIDDLE@),
        opens_no_script(CARD_CLOSE@),
        opens_no_script(GRID_OPEN@),
        opens_no_script(GRID_CLOSE@),
        opens_no_script(FAILURE_OPEN@),
        opens_no_script(FAILURE_CLOSE@),
        opens_no_script(PAGE_OPEN@),
        opens_no_script(PAGE_MIDDLE@),
        opens_no_script(PAGE_CLOSE@),
        opens_no_script(CSS@),
{
    reveal_strlit(
        "<div class=\"flex\"><dt class=\"text-sm px-2 border-l-2 border-dotted font-bold\">",
    );
    reveal_strlit(
        "</dt><dd class=\"grow text-sm\">",
    );
    reveal_strlit(
        "</dd></div>",
    );
    reveal_strlit(
        "<div class=\"break-inside-avoid border-sky-500 border-5 rounded-xl p-2 m-2 text-xl text-center\"><h2 class=\"font-bold font-xl underline\">",
    );
    reveal_strlit(
        "</h2><dl class=\"divide-y divide-white/10\">",
    );
    reveal_strlit(
        "</dl></div>",
    );
    reveal_strlit(
        "<div class=\"grid grid-cols-3 gap-1\">",
    );
    reveal_strlit(
        "</div>",
    );
    reveal_strlit(
        "<h3>something bad happend</h3><p>",
    );
    reveal_strlit(
        "</p>",
    );
    reveal_strlit(
        "<!DOCTYPE html><html dir=\"rtl\" lang=\"ar\"><head><meta charset=\"utf-8\"/><meta name=\"viewport\" content=\"width=device-width, initial-scale=1\"/><title>kvg</title><style>",
    );
    reveal_strlit(
        "</style></head><body><p class=\"text-xs text-left p-3 print:hidden\">made by mahmoud eltahawy</p>",
    );
    reveal_strlit(
        "</body></html>",
    );
    reveal_strlit(
        "body{margin:0;font-family:sans-serif}.grid{display:grid}.grid-cols-3{grid-template-columns:repeat(3,minmax(0,1fr))}.gap-1{gap:.25rem}.flex{display:flex}.grow{flex-grow:1}.break-inside-avoid{break-inside:avoid}.border-5{border-width:5px;border-style:solid}.border-sky-500{border-color:#0ea5e9}.border-l-2{border-left:2px dotted}.border-dotted{border-style:dotted}.rounded-xl{border-radius:.75rem}.p-2{padding:.5rem}.p-3{padding:.75rem}.px-2{padding-left:.5rem;padding-right:.5rem}.m-2{margin:.5rem}.text-xs{font-size:.75rem}.text-sm{font-size:.875rem}.text-xl{font-size:1.25rem}.text-left{text-align:left}.text-center{text-align:center}.font-bold{font-weight:700}.underline{text-decoration:underline}.divide-y div+div{border-top:1px solid rgba(255,255,255,.1)}@media print{.print\\:hidden{display:none}}",
    );
}

/// Two texts that open no `<script` open none when written one after the other.
pub proof fn joined_texts_open_no_script(first: Seq<char>, second: Seq<char>)
    requires
        opens_no_script(first),
        opens_no_script(second),
    ensures
        opens_no_script(first + second),
{
    let joined = first + second;
    assert forall|i: int| 0 <= i < joined.len() && #[trigger] joined[i] == '<' implies i + 2
        < joined.len() && !(joined[i + 1] == 's' && joined[i + 2] == 'c') by {
        if i < first.len() {
            assert(first[i] == '<');
            assert(joined[i + 1] == first[i + 1]);
            assert(joined[i + 2] == first[i + 2]);
        } else {
            let k = i - first.len();
            assert(second[k] == '<');
            assert(joined[i + 1] == second[k + 1]);
            assert(joined[i + 2] == second[k + 2]);
        }
    }
}

/// Escaped text opens no `<script`, whatever was escaped.
pub proof fn escaped_opens_no_script(s: Seq<char>)
    ensures
        opens_no_script(escaped(s)),
{
    escaped_holds_no_markup(s);
}

/// A text that opens no `<script` holds none.
pub proof fn text_without_opening_holds_no_script(s: Seq<char>)
    requires
        opens_no_script(s),
    ensures
        !holds(s, "<script"@),
{
    reveal_strlit("<script");
    let part = "<script"@;
    if holds(s, part) {
        let at = choose|at: int|
            0 <= at && at + part.len() <= s.len() && #[trigger] s.subrange(at, at + part.len())
                == part;
        let found = s.subrange(at, at + part.len());
        assert(found[0] == s[at]);
        assert(found[1] == s[at + 1]);
        assert(found[2] == s[at + 2]);
        assert(s[at] == '<');
    }
}

/// The markup of one pair opens no `<script`.
pub proof fn pair_opens_no_script(pair: Pair)
    ensures
        opens_no_script(pair_markup(pair)),
{
    fixed_parts_open_no_script();
    escaped_opens_no_script(pair.0);
    escaped_opens_no_script(pair.1);
    joined_texts_open_no_script(PAIR_OPEN@, escaped(pair.0));
    joined_texts_open_no_script(PAIR_OPEN@ + escaped(pair.0), PAIR_MIDDLE@);
    joined_texts_open_no_script(PAIR_OPEN@ + escaped(pair.0) + PAIR_MIDDLE@, escaped(pair.1));
    joined_texts_open_no_script(
        PAIR_OPEN@ + escaped(pair.0) + PAIR_MIDDLE@ + escaped(pair.1),
        PAIR_CLOSE@,
    );
}

/// The markup of the pairs of a card opens no `<script`.
pub proof fn pairs_open_no_script(card: Seq<Pair>)
    ensures
        opens_no_script(pairs_markup(card)),
    decreases card.len(),
{
    if card.len() > 0 {
        pairs_open_no_script(card.drop_last());
        pair_opens_no_script(card.last());
        joined_texts_open_no_script(pairs_markup(card.drop_last()), pair_markup(card.last()));
    }
}

/// The markup of one card opens no `<script`.
pub proof fn card_opens_no_script(title: Seq<char>, card: Seq<Pair>)
    ensures
        opens_no_script(card_markup(title, card)),
{
    fixed_parts_open_no_script();
    escaped_opens_no_script(title);
    pairs_open_no_script(card);
    joined_texts_open_no_script(CARD_OPEN@, escaped(title));
    joined_texts_open_no_script(CARD_OPEN@ + escaped(title), CARD_MIDDLE@);
    joined_texts_open_no_script(CARD_OPEN@ + escaped(title) + CARD_MIDDLE@, pairs_markup(card));
    joined_texts_open_no_script(
        CARD_OPEN@ + escaped(title) + CARD_MIDDLE@ + pairs_markup(card),
        CARD_CLOSE@,
    );
}

/// The markup of the cards opens no `<script`.
pub proof fn cards_open_no_script(title: Seq<char>, cards: Seq<Seq<Pair>>)
    ensures
        opens_no_script(cards_markup(title, cards)),
    decreases cards.len(),
{
    if cards.len() > 0 {
        cards_open_no_script(title, cards.drop_last());
        card_opens_no_script(title, cards.last());
        joined_texts_open_no_script(
            cards_markup(title, cards.drop_last()),
            card_markup(title, cards.last()),
        );
    }
}

/// The document round a body that opens no `<script` opens none.
pub proof fn page_opens_no_script(body: Seq<char>)
    requires
        opens_no_script(body),
    ensures
        opens_no_script(page(body)),
{
    fixed_parts_open_no_script();
    joined_texts_open_no_script(PAGE_OPEN@, CSS@);
    joined_texts_open_no_script(PAGE_OPEN@ + CSS@, PAGE_MIDDLE@);
    joined_texts_open_no_script(PAGE_OPEN@ + CSS@ + PAGE_MIDDLE@, body);
    joined_texts_open_no_script(PAGE_OPEN@ + CSS@ + PAGE_MIDDLE@ + body, PAGE_CLOSE@);
}

/// No document holds `<script`, whatever the title, the cells or the failure
/// were: text that was read never becomes an element of the document.
pub proof fn document_holds_no_script(title: Seq<char>, outcome: Result<Seq<Seq<Pair>>, Failure>)
    ensures
        opens_no_script(document_of(title, outcome)),
        !holds(document_of(title, outcome), "<script"@),
        outcome matches Ok(cards) ==> !holds(rendered(title, cards), "<script"@),
{
    fixed_parts_open_no_script();
    match outcome {
        Ok(cards) => {
            cards_open_no_script(title, cards);
            joined_texts_open_no_script(GRID_OPEN@, cards_markup(title, cards));
            joined_texts_open_no_script(GRID_OPEN@ + cards_markup(title, cards), GRID_CLOSE@);
            page_opens_no_script(grid_markup(title, cards));
        },
        Err(failure) => {
            let message = message_of(failure);
            escaped_opens_no_script(message);
            joined_texts_open_no_script(FAILURE_OPEN@, escaped(message));
            joined_texts_open_no_script(FAILURE_OPEN@ + escaped(message), FAILURE_CLOSE@);
            page_opens_no_script(failure_markup(message));
        },
    }
    text_without_opening_holds_no_script(document_of(title, outcome));
}

} // verus!
