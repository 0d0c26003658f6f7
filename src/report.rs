use vstd::prelude::*;

use comfy_table::presets::UTF8_FULL;
use comfy_table::Table;

use crate::console::{ConfigApp, ConsoleApp};
use crate::ring::{keep_last, lemma_keep_last_append, lemma_keep_last_push};
use crate::selection::{
    get_elements_to_process_now, inner, lemma_none_count_prefix, listing_error_lines,
    local_seconds, none_count, parseable, repeated, selection_at, TrashEntry, CONVERSION_ERROR,
    SECONDS_PER_DAY,
};
use crate::text::{lines_of, texts};

verus! {

/// Title written before an analysis.
pub const ANALYSIS_TITLE: &'static str = "\n\nANALYSE\n\n";

/// Header of the analysis table: the entry's name, its deletion date.
pub const ANALYSIS_NAME: &'static str = "Nom de l'élément";

pub const ANALYSIS_DATE: &'static str = "Date de suppression";

/// Written before the number of selected entries.
pub const TOTAL_PREFIX: &'static str = "\nTotal d'éléments à traiter : ";

/// Written after the number of selected entries.
pub const TOTAL_SUFFIX: &'static str = "\n";

/// Written by an analysis that selects nothing.
pub const NOTHING_SELECTED: &'static str = "Il n'y a aucun élément à supprimer";

/// Written by an analysis when a deletion date cannot be shown.
pub const DATE_ERROR: &'static str = "Erreur lors de la conversion de la date.";

/// Title written before a deletion report.
pub const DELETION_TITLE: &'static str = "\n\nSUPPRESSION DÉFINITIVE\n\n";

/// Header of the deletion table: outcome, name, deletion date.
pub const DELETION_STATUS: &'static str = "Statut";

pub const DELETION_NAME: &'static str = "Nom du fichier";

pub const DELETION_DATE: &'static str = "Date de mise à la corbeille";

/// Outcome of an entry that was purged.
pub const STATUS_OK: &'static str = "OK";

/// Outcome of an entry that could not be purged.
pub const STATUS_FAILED: &'static str = "Oups !";

/// Title written before the deletion counts.
pub const STATS_TITLE: &'static str = "\nStatistiques de suppression:\n";

/// Header and row labels of the deletion counts table.
pub const STATS_STATUS: &'static str = "Statut";

pub const STATS_COUNT: &'static str = "Nombre";

pub const STATS_SUCCESS: &'static str = "Succès";

pub const STATS_FAILURE: &'static str = "Échec";

/// The text that comfy-table draws for a table with this header and these
/// rows, with UTF-8 borders.
pub uninterp spec fn table_text(header: Seq<Seq<char>>, rows: Seq<Seq<Seq<char>>>) -> Seq<char>;

/// The text that chrono writes for a wall-clock time given in seconds, as
/// day.month.year hours:minutes.
pub uninterp spec fn date_text(local_seconds: i64) -> Seq<char>;

/// The decimal digits of `n`.
pub open spec fn decimal(n: nat) -> Seq<char>
    decreases n,
{
    let digit = seq!['0', '1', '2', '3', '4', '5', '6', '7', '8', '9'][(n % 10) as int];
    if n < 10 {
        seq![digit]
    } else {
        decimal(n / 10).push(digit)
    }
}

/// The text of each row of a table.
pub open spec fn row_texts(rows: Seq<Vec<String>>) -> Seq<Seq<Seq<char>>> {
    rows.map_values(|r: Vec<String>| texts(r@))
}

/// Relies on comfy-table's `Table::new`, `load_preset`, `set_header`,
/// `add_rows` and its `Display`: the drawn table depends on the header and
/// the rows alone (no terminal is consulted without the `tty` feature).
#[verifier::external_body]
fn render_table(header: Vec<String>, rows: Vec<Vec<String>>) -> (r: String)
    ensures
        r@ == table_text(texts(header@), row_texts(rows@)),
{
    let mut table = Table::new();
    table.load_preset(UTF8_FULL).set_header(header).add_rows(rows);
    table.to_string()
}

/// The digit `d` as text.
fn digit_text(d: usize) -> (r: &'static str)
    requires
        d < 10,
    ensures
        r@ == seq![seq!['0', '1', '2', '3', '4', '5', '6', '7', '8', '9'][d as int]],
{
    proof {
        reveal_strlit("0123456789");
    }
    let r = "0123456789".substring_char(d, d + 1);
    assert(r@ =~= seq![seq!['0', '1', '2', '3', '4', '5', '6', '7', '8', '9'][d as int]]);
    r
}

/// The decimal digits of `n`.
fn count_text(n: usize) -> (r: String)
    ensures
        r@ == decimal(n as nat),
    decreases n,
{
    if n < 10 {
        String::from_str(digit_text(n))
    } else {
        let high = count_text(n / 10);
        let r = high.concat(digit_text(n % 10));
        assert(r@ =~= decimal(n as nat));
        r
    }
}

/// Relies on chrono's `DateTime::from_timestamp` and `NaiveDateTime::format`:
/// the wall-clock time as `%d.%m.%Y %H:%M`.
#[verifier::external_body]
fn format_date(local_seconds: i64) -> (r: String)
    requires
        parseable(local_seconds),
    ensures
        r@ == date_text(local_seconds),
{
    let time = chrono::DateTime::from_timestamp(local_seconds, 0).expect("in range").naive_utc();
    time.format("%d.%m.%Y %H:%M").to_string()
}

/// The text of an optional string.
pub open spec fn opt_text(o: Option<String>) -> Option<Seq<char>> {
    match o {
        Some(s) => Some(s@),
        None => None,
    }
}

/// The texts of optional strings.
pub open spec fn opt_texts(v: Seq<Option<String>>) -> Seq<Option<Seq<char>>> {
    v.map_values(|o: Option<String>| opt_text(o))
}

/// What may be shown as the deletion date of an entry deleted at `t`:
/// nothing where chrono cannot read `t`; the text of a wall-clock time
/// within a day of `t` where `t` is far from the ends of chrono's range;
/// near those ends, either.
pub open spec fn shown_date(t: i64, date: Option<Seq<char>>) -> bool {
    &&& !parseable(t) ==> date is None
    &&& inner(t) ==> date is Some
    &&& date matches Some(d) ==> exists|l: i64|
        t - SECONDS_PER_DAY < l < t + SECONDS_PER_DAY && d == date_text(l)
}

/// `dates` holds what may be shown as the date of each of `entries`.
pub open spec fn shown_dates(entries: Seq<TrashEntry>, dates: Seq<Option<Seq<char>>>) -> bool {
    &&& dates.len() == entries.len()
    &&& forall|i: int|
        0 <= i < entries.len() ==> shown_date(entries[i].time_deleted, #[trigger] dates[i])
}

/// The local deletion date of an entry, written as day.month.year
/// hours:minutes, or `None` when chrono cannot convert the deletion time.
pub fn date_of(time_deleted: i64) -> (r: Option<String>)
    ensures
        shown_date(time_deleted, opt_text(r)),
{
    match local_seconds(time_deleted) {
        Some(t) => Some(format_date(t)),
        None => None,
    }
}

/// The names of the entries.
pub open spec fn entry_names(entries: Seq<TrashEntry>) -> Seq<Seq<char>> {
    entries.map_values(|e: TrashEntry| e.name@)
}

/// The rows of the analysis table for the first `n` entries: name and date
/// of each entry that has a date.
pub open spec fn analysis_rows(
    names: Seq<Seq<char>>,
    dates: Seq<Option<Seq<char>>>,
    n: int,
) -> Seq<Seq<Seq<char>>>
    decreases n,
{
    if n <= 0 {
        Seq::empty()
    } else {
        let before = analysis_rows(names, dates, n - 1);
        match dates[n - 1] {
            Some(d) => before.push(seq![names[n - 1], d]),
            None => before,
        }
    }
}

/// The lines that an analysis of these entries writes.
pub open spec fn analysis_lines(names: Seq<Seq<char>>, dates: Seq<Option<Seq<char>>>) -> Seq<
    Seq<char>,
> {
    let rows = analysis_rows(names, dates, names.len() as int);
    lines_of(ANALYSIS_TITLE@) + if rows.len() > 0 {
        lines_of(table_text(seq![ANALYSIS_NAME@, ANALYSIS_DATE@], rows)) + lines_of(
            TOTAL_PREFIX@ + decimal(rows.len()) + TOTAL_SUFFIX@,
        )
    } else {
        lines_of(NOTHING_SELECTED@)
    }
}

/// Writes the analysis of the selected entries, given the date shown for
/// each (`None` where it has none): a title, then a table of the names and
/// dates of the entries that have a date and their number, or a line saying
/// that there is nothing to show.
pub fn analysis_report(
    console: &mut ConsoleApp,
    entries: &Vec<TrashEntry>,
    dates: &Vec<Option<String>>,
)
    requires
        old(console).wf(),
        entries.len() == dates.len(),
    ensures
        final(console).wf(),
        final(console).max_lines() == old(console).max_lines(),
        final(console)@ == keep_last(
            old(console)@ + analysis_lines(entry_names(entries@), opt_texts(dates@)),
            old(console).max_lines(),
        ),
{
    let ghost start = console@;
    let ghost m = console.max_lines();
    let ghost names = entry_names(entries@);
    let ghost ds = opt_texts(dates@);
    let ghost expected = analysis_rows(names, ds, names.len() as int);
    console.add_to_buffer(ANALYSIS_TITLE);
    let ghost a = lines_of(ANALYSIS_TITLE@);
    let mut rows: Vec<Vec<String>> = Vec::new();
    let mut i: usize = 0;
    while i < entries.len()
        invariant
            i <= entries.len() == dates.len(),
            names == entry_names(entries@),
            ds == opt_texts(dates@),
            row_texts(rows@) == analysis_rows(names, ds, i as int),
        decreases entries.len() - i,
    {
        match &dates[i] {
            Some(d) => {
                let mut row: Vec<String> = Vec::new();
                row.push(entries[i].name.clone());
                row.push(d.clone());
                let ghost done = rows@;
                rows.push(row);
                assert(texts(row@) =~= seq![names[i as int], d@]);
                assert(row_texts(rows@) =~= row_texts(done).push(texts(row@)));
            },
            None => {},
        }
        i = i + 1;
    }
    let shown = rows.len();
    if shown > 0 {
        let mut header: Vec<String> = Vec::new();
        header.push(ANALYSIS_NAME.to_owned());
        header.push(ANALYSIS_DATE.to_owned());
        assert(texts(header@) =~= seq![ANALYSIS_NAME@, ANALYSIS_DATE@]);
        let table = render_table(header, rows);
        let ghost b = lines_of(table@);
        console.add_to_buffer(table.as_str());
        let total = String::from_str(TOTAL_PREFIX).concat(count_text(shown).as_str()).concat(
            TOTAL_SUFFIX,
        );
        let ghost c = lines_of(total@);
        console.add_to_buffer(total.as_str());
        proof {
            lemma_keep_last_append(start + a, b, m);
            lemma_keep_last_append(start + a + b, c, m);
            assert(start + analysis_lines(names, ds) =~= start + a + b + c);
        }
    } else {
        let ghost b = lines_of(NOTHING_SELECTED@);
        console.add_to_buffer(NOTHING_SELECTED);
        proof {
            lemma_keep_last_append(start + a, b, m);
            assert(start + analysis_lines(names, ds) =~= start + a + b);
        }
    }
}

/// The outcome shown for an entry.
pub open spec fn status_text(purged: bool) -> Seq<char> {
    if purged {
        STATUS_OK@
    } else {
        STATUS_FAILED@
    }
}

/// How many of the first `n` outcomes are successes.
pub open spec fn count_true(outcomes: Seq<bool>, n: int) -> nat
    decreases n,
{
    if n <= 0 {
        0
    } else {
        count_true(outcomes, n - 1) + if outcomes[n - 1] {
            1nat
        } else {
            0nat
        }
    }
}

/// The rows of the deletion table for the first `n` entries: outcome, name
/// and date of each entry that has a date.
pub open spec fn deletion_rows(
    outcomes: Seq<bool>,
    names: Seq<Seq<char>>,
    dates: Seq<Option<Seq<char>>>,
    n: int,
) -> Seq<Seq<Seq<char>>>
    decreases n,
{
    if n <= 0 {
        Seq::empty()
    } else {
        let before = deletion_rows(outcomes, names, dates, n - 1);
        match dates[n - 1] {
            Some(d) => before.push(seq![status_text(outcomes[n - 1]), names[n - 1], d]),
            None => before,
        }
    }
}

/// When every entry has a date, the deletion table has one row per entry,
/// in order, with its outcome, name and date, whatever the outcomes.
pub proof fn lemma_deletion_rows_all_dated(
    outcomes: Seq<bool>,
    names: Seq<Seq<char>>,
    dates: Seq<Option<Seq<char>>>,
    n: int,
)
    requires
        0 <= n <= names.len(),
        n <= dates.len(),
        forall|i: int| 0 <= i < n ==> (#[trigger] dates[i]) is Some,
    ensures
        deletion_rows(outcomes, names, dates, n).len() == n,
        forall|i: int|
            0 <= i < n ==> #[trigger] deletion_rows(outcomes, names, dates, n)[i] == seq![
                status_text(outcomes[i]),
                names[i],
                dates[i]->0,
            ],
    decreases n,
{
    if n > 0 {
        lemma_deletion_rows_all_dated(outcomes, names, dates, n - 1);
        assert(dates[n - 1] is Some);
    }
}

/// The rows of the counts table.
pub open spec fn stats_rows(successes: nat, failures: nat) -> Seq<Seq<Seq<char>>> {
    seq![seq![STATS_SUCCESS@, decimal(successes)], seq![STATS_FAILURE@, decimal(failures)]]
}

/// The lines that a deletion report writes.
pub open spec fn deletion_lines(
    outcomes: Seq<bool>,
    names: Seq<Seq<char>>,
    dates: Seq<Option<Seq<char>>>,
) -> Seq<Seq<char>> {
    let successes = count_true(outcomes, outcomes.len() as int);
    lines_of(DELETION_TITLE@) + lines_of(
        table_text(
            seq![DELETION_STATUS@, DELETION_NAME@, DELETION_DATE@],
            deletion_rows(outcomes, names, dates, names.len() as int),
        ),
    ) + lines_of(STATS_TITLE@) + lines_of(
        table_text(
            seq![STATS_STATUS@, STATS_COUNT@],
            stats_rows(successes, (outcomes.len() - successes) as nat),
        ),
    )
}

/// Writes the report of a deletion, given the outcome of the purge of each
/// entry and the date shown for it (`None` where it has none): a title, a
/// table with one row per entry that has a date, whatever its outcome, then
/// the number of successes and failures among all entries. Returns those
/// two numbers.
pub fn deletion_report(
    console: &mut ConsoleApp,
    entries: &Vec<TrashEntry>,
    dates: &Vec<Option<String>>,
    outcomes: &Vec<bool>,
) -> (r: (usize, usize))
    requires
        old(console).wf(),
        entries.len() == dates.len(),
        entries.len() == outcomes.len(),
    ensures
        final(console).wf(),
        final(console).max_lines() == old(console).max_lines(),
        r.0 == count_true(outcomes@, outcomes.len() as int),
        r.0 + r.1 == outcomes.len(),
        final(console)@ == keep_last(
            old(console)@ + deletion_lines(outcomes@, entry_names(entries@), opt_texts(dates@)),
            old(console).max_lines(),
        ),
{
    let ghost start = console@;
    let ghost m = console.max_lines();
    let ghost names = entry_names(entries@);
    let ghost ds = opt_texts(dates@);
    let mut rows: Vec<Vec<String>> = Vec::new();
    let mut successes: usize = 0;
    let mut i: usize = 0;
    while i < entries.len()
        invariant
            i <= entries.len() == dates.len() == outcomes.len(),
            names == entry_names(entries@),
            ds == opt_texts(dates@),
            row_texts(rows@) == deletion_rows(outcomes@, names, ds, i as int),
            successes == count_true(outcomes@, i as int),
            successes <= i,
        decreases entries.len() - i,
    {
        let status = if outcomes[i] {
            successes = successes + 1;
            STATUS_OK
        } else {
            STATUS_FAILED
        };
        match &dates[i] {
            Some(d) => {
                let mut row: Vec<String> = Vec::new();
                row.push(status.to_owned());
                row.push(entries[i].name.clone());
                row.push(d.clone());
                let ghost done = rows@;
                rows.push(row);
                assert(texts(row@) =~= seq![status_text(outcomes@[i as int]), names[i as int], d@]);
                assert(row_texts(rows@) =~= row_texts(done).push(texts(row@)));
            },
            None => {},
        }
        i = i + 1;
    }
    let failures = entries.len() - successes;
    let mut header: Vec<String> = Vec::new();
    header.push(DELETION_STATUS.to_owned());
    header.push(DELETION_NAME.to_owned());
    header.push(DELETION_DATE.to_owned());
    assert(texts(header@) =~= seq![DELETION_STATUS@, DELETION_NAME@, DELETION_DATE@]);
    let table = render_table(header, rows);
    let mut stats_header: Vec<String> = Vec::new();
    stats_header.push(STATS_STATUS.to_owned());
    stats_header.push(STATS_COUNT.to_owned());
    let mut success_row: Vec<String> = Vec::new();
    success_row.push(STATS_SUCCESS.to_owned());
    success_row.push(count_text(successes));
    let mut failure_row: Vec<String> = Vec::new();
    failure_row.push(STATS_FAILURE.to_owned());
    failure_row.push(count_text(failures));
    assert(texts(success_row@) =~= seq![STATS_SUCCESS@, decimal(successes as nat)]);
    assert(texts(failure_row@) =~= seq![STATS_FAILURE@, decimal(failures as nat)]);
    let ghost sr = texts(success_row@);
    let ghost fr = texts(failure_row@);
    let mut stats: Vec<Vec<String>> = Vec::new();
    stats.push(success_row);
    stats.push(failure_row);
    assert(row_texts(stats@) =~= seq![sr, fr]);
    assert(texts(stats_header@) =~= seq![STATS_STATUS@, STATS_COUNT@]);
    assert(row_texts(stats@) =~= stats_rows(successes as nat, failures as nat));
    let stats_table = render_table(stats_header, stats);
    let ghost a = lines_of(DELETION_TITLE@);
    let ghost b = lines_of(table@);
    let ghost c = lines_of(STATS_TITLE@);
    let ghost d = lines_of(stats_table@);
    console.add_to_buffer(DELETION_TITLE);
    console.add_to_buffer(table.as_str());
    console.add_to_buffer(STATS_TITLE);
    console.add_to_buffer(stats_table.as_str());
    proof {
        lemma_keep_last_append(start + a, b, m);
        lemma_keep_last_append(start + a + b, c, m);
        lemma_keep_last_append(start + a + b + c, d, m);
        assert(start + deletion_lines(outcomes@, names, ds) =~= start + a + b + c + d);
    }
    (successes, failures)
}

/// Looks up the date shown for each entry; for each entry that has none,
/// writes `error` to the console and goes on with the others.
fn dates_of(console: &mut ConsoleApp, entries: &Vec<TrashEntry>, error: &str) -> (r: Vec<
    Option<String>,
>)
    requires
        old(console).wf(),
    ensures
        final(console).wf(),
        final(console).max_lines() == old(console).max_lines(),
        shown_dates(entries@, opt_texts(r@)),
        final(console)@ == keep_last(
            old(console)@ + repeated(error@, none_count(opt_texts(r@), r.len() as int)),
            old(console).max_lines(),
        ),
{
    proof {
        console.lemma_wf();
    }
    let ghost start = console@;
    let ghost m = console.max_lines();
    let mut dates: Vec<Option<String>> = Vec::new();
    let mut i: usize = 0;
    assert(start + repeated(error@, 0) =~= start);
    while i < entries.len()
        invariant
            i <= entries.len(),
            dates.len() == i,
            console.wf(),
            console.max_lines() == m,
            m > 0,
            console@ == keep_last(
                start + repeated(error@, none_count(opt_texts(dates@), i as int)),
                m,
            ),
            forall|j: int|
                0 <= j < i ==> shown_date(entries@[j].time_deleted, #[trigger] opt_texts(dates@)[j]),
        decreases entries.len() - i,
    {
        let d = date_of(entries[i].time_deleted);
        let ghost k = none_count(opt_texts(dates@), i as int);
        let ghost before = opt_texts(dates@);
        if d.is_none() {
            proof {
                lemma_keep_last_push(start + repeated(error@, k), error@, m);
                assert((start + repeated(error@, k)).push(error@) =~= start + repeated(error@, k + 1));
            }
            console.push_line(error.to_owned());
        }
        dates.push(d);
        proof {
            let after = opt_texts(dates@);
            assert(after.take(i as int) =~= before.take(i as int));
            lemma_none_count_prefix(after, before, i as int);
            assert(after[i as int] == opt_text(d));
            assert forall|j: int| 0 <= j < i + 1 implies shown_date(
                entries@[j].time_deleted,
                #[trigger] after[j],
            ) by {
                if j < i {
                    assert(after[j] == before[j]);
                }
            }
            assert(none_count(after, i + 1) == k + if d is None {
                1nat
            } else {
                0nat
            });
        }
        i = i + 1;
    }
    dates
}

/// The analysis: selects the entries that have spent more than the
/// configured number of days in the trash, at the local time now, and
/// writes their names and dates to the console. Each selected entry whose
/// date cannot be shown is left out of the table and reported by a line.
/// When the trash cannot be listed, the analysis stops after the line that
/// says so.
pub fn analyser(console: &mut ConsoleApp, config_app: &ConfigApp, listed: Result<Vec<TrashEntry>, String>)
    requires
        old(console).wf(),
    ensures
        final(console).wf(),
        final(console).max_lines() == old(console).max_lines(),
        match listed {
            Err(e) => final(console)@ == keep_last(
                old(console)@ + listing_error_lines(e@),
                old(console).max_lines(),
            ),
            Ok(entries) => exists|
                selection: Seq<TrashEntry>,
                after_selection: Seq<Seq<char>>,
                dates: Seq<Option<Seq<char>>>,
            |
                {
                    &&& exists|now: i64|
                        selection_at(
                            now,
                            config_app.time_threshold(),
                            entries@,
                            selection,
                            old(console)@,
                            after_selection,
                            old(console).max_lines(),
                        )
                    &&& shown_dates(selection, dates)
                    &&& final(console)@ == keep_last(
                        after_selection + repeated(DATE_ERROR@, none_count(dates, dates.len() as int))
                            + analysis_lines(entry_names(selection), dates),
                        old(console).max_lines(),
                    )
                },
        },
{
    let ghost m = console.max_lines();
    let failed = listed.is_err();
    let entries = get_elements_to_process_now(console, config_app, listed);
    if failed {
        return ;
    }
    let ghost after_selection = console@;
    let dates = dates_of(console, &entries, DATE_ERROR);
    let ghost ds = opt_texts(dates@);
    let ghost errors = repeated(DATE_ERROR@, none_count(ds, ds.len() as int));
    analysis_report(console, &entries, &dates);
    proof {
        lemma_keep_last_append(
            after_selection + errors,
            analysis_lines(entry_names(entries@), ds),
            m,
        );
    }
}

/// After the purge of each selected entry, writes the deletion report and
/// returns the number of successes and failures. Each entry whose date
/// cannot be shown is left out of the table and reported by a line; its
/// outcome is still counted.
pub fn report_deletion(console: &mut ConsoleApp, entries: &Vec<TrashEntry>, outcomes: &Vec<bool>)
    -> (r: (usize, usize))
    requires
        old(console).wf(),
        entries.len() == outcomes.len(),
    ensures
        final(console).wf(),
        final(console).max_lines() == old(console).max_lines(),
        r.0 == count_true(outcomes@, outcomes.len() as int),
        r.0 + r.1 == outcomes.len(),
        exists|dates: Seq<Option<Seq<char>>>|
            {
                &&& shown_dates(entries@, dates)
                &&& final(console)@ == keep_last(
                    old(console)@ + repeated(CONVERSION_ERROR@, none_count(dates, dates.len() as int))
                        + deletion_lines(outcomes@, entry_names(entries@), dates),
                    old(console).max_lines(),
                )
            },
{
    let ghost start = console@;
    let ghost m = console.max_lines();
    let dates = dates_of(console, entries, CONVERSION_ERROR);
    let ghost ds = opt_texts(dates@);
    let ghost errors = repeated(CONVERSION_ERROR@, none_count(ds, ds.len() as int));
    let r = deletion_report(console, entries, &dates, outcomes);
    proof {
        lemma_keep_last_append(start + errors, deletion_lines(outcomes@, entry_names(entries@), ds), m);
    }
    r
}

} // verus!
