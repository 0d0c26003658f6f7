use vstd::prelude::*;

use chrono::TimeZone;

use crate::console::{ConfigApp, ConsoleApp};
use crate::ring::{keep_last, lemma_keep_last_push};
use crate::text::lines_of;

verus! {

/// Seconds in a day.
pub const SECONDS_PER_DAY: i64 = 86400;

/// Earliest time, in seconds since the epoch, that chrono represents: the
/// start of its first year.
pub const CHRONO_MIN_SECONDS: i64 = -8_334_601_228_800;

/// Latest time, in seconds since the epoch, that chrono represents: the
/// end of its last year.
pub const CHRONO_MAX_SECONDS: i64 = 8_210_266_876_799;

/// The line written for each entry whose deletion time cannot be converted.
pub const CONVERSION_ERROR: &'static str = "**** Erreur lors de la conversion de l'horodatage ****";

/// The text written when the trash cannot be listed: it goes before the
/// listing error.
pub const LISTING_ERROR_PREFIX: &'static str = "**** Erreur lors de la récupération des éléments de la corbeille: ";

/// The text written when the trash cannot be listed: it goes after the
/// listing error.
pub const LISTING_ERROR_SUFFIX: &'static str = " ****\n";

/// One entry of the trash: its name, when it was deleted, in seconds since
/// the epoch (UTC), and a key by which the caller finds it in its listing.
pub struct TrashEntry {
    pub name: String,
    pub time_deleted: i64,
    pub key: usize,
}

/// Whether chrono can read a time, in seconds since the epoch.
pub open spec fn parseable(t: i64) -> bool {
    CHRONO_MIN_SECONDS <= t <= CHRONO_MAX_SECONDS
}

/// Whether a time is far enough (a day) from the ends of chrono's range
/// that its local wall-clock time is in that range too, whatever the time
/// zone.
pub open spec fn inner(t: i64) -> bool {
    CHRONO_MIN_SECONDS + SECONDS_PER_DAY <= t <= CHRONO_MAX_SECONDS - SECONDS_PER_DAY
}

/// What may stand for the local wall-clock time of `t`: `None` where chrono
/// cannot read `t`, a time within a day of `t` where it is far from the
/// ends of chrono's range; near those ends, either.
pub open spec fn local_time_for(t: i64, local: Option<i64>) -> bool {
    &&& !parseable(t) ==> local is None
    &&& inner(t) ==> local is Some
    &&& local matches Some(l) ==> t - SECONDS_PER_DAY < l < t + SECONDS_PER_DAY && parseable(l)
}

/// At local time `now`, an entry deleted at local time `deleted` has spent
/// strictly more than `days` days in the trash.
pub open spec fn older_than(now: int, deleted: int, days: int) -> bool {
    now - deleted > days * SECONDS_PER_DAY
}

pub fn is_older_than(now: i64, deleted: i64, days: u8) -> (r: bool)
    ensures
        r == older_than(now as int, deleted as int, days as int),
{
    let d = days as i128;
    assert(0 <= d * 86400 <= 255 * 86400) by (nonlinear_arith)
        requires
            0 <= d <= 255,
    ;
    (now as i128) - (deleted as i128) > d * (SECONDS_PER_DAY as i128)
}

/// The entries among the first `n` whose local deletion time is known and
/// older than `days` days at `now`, in order.
pub open spec fn selected(
    now: i64,
    days: u8,
    entries: Seq<TrashEntry>,
    local_times: Seq<Option<i64>>,
    n: int,
) -> Seq<TrashEntry>
    decreases n,
{
    if n <= 0 {
        Seq::empty()
    } else {
        let before = selected(now, days, entries, local_times, n - 1);
        match local_times[n - 1] {
            Some(t) => if older_than(now as int, t as int, days as int) {
                before.push(entries[n - 1])
            } else {
                before
            },
            None => before,
        }
    }
}

/// How many of the first `n` items are `None`.
pub open spec fn none_count<A>(s: Seq<Option<A>>, n: int) -> nat
    decreases n,
{
    if n <= 0 {
        0
    } else {
        none_count(s, n - 1) + if s[n - 1] is None {
            1nat
        } else {
            0nat
        }
    }
}

/// `none_count` reads only the first `n` items.
pub proof fn lemma_none_count_prefix<A>(s: Seq<Option<A>>, t: Seq<Option<A>>, n: int)
    requires
        0 <= n <= s.len(),
        n <= t.len(),
        s.take(n) == t.take(n),
    ensures
        none_count(s, n) == none_count(t, n),
    decreases n,
{
    if n > 0 {
        assert(s.take(n - 1) =~= t.take(n - 1)) by {
            assert(s.take(n - 1) =~= s.take(n).take(n - 1));
            assert(t.take(n - 1) =~= t.take(n).take(n - 1));
        }
        assert(s[n - 1] == s.take(n)[n - 1]);
        assert(t[n - 1] == t.take(n)[n - 1]);
        lemma_none_count_prefix(s, t, n - 1);
    }
}

/// At local time `now`, with a threshold of five days, of an entry deleted
/// ten days before `now` and one deleted two days before, only the first is
/// selected, whatever the time zone, when both times lie more than a day
/// inside chrono's range.
pub proof fn lemma_threshold_scenario(
    now: i64,
    entries: Seq<TrashEntry>,
    local_times: Seq<Option<i64>>,
)
    requires
        entries.len() == 2,
        inner(entries[0].time_deleted),
        inner(entries[1].time_deleted),
        entries[0].time_deleted == now - 10 * SECONDS_PER_DAY,
        entries[1].time_deleted == now - 2 * SECONDS_PER_DAY,
        local_times_for(entries, local_times),
    ensures
        selected(now, 5, entries, local_times, 2) == seq![entries[0]],
{
    assert(local_time_for(entries[0].time_deleted, local_times[0]));
    assert(local_time_for(entries[1].time_deleted, local_times[1]));
    reveal_with_fuel(selected, 3);
    assert(selected(now, 5, entries, local_times, 0) =~= Seq::<TrashEntry>::empty());
    assert(selected(now, 5, entries, local_times, 2) =~= seq![entries[0]]);
}

/// `k` copies of `line`.
pub open spec fn repeated(line: Seq<char>, k: nat) -> Seq<Seq<char>> {
    Seq::new(k, |i: int| line)
}

/// Keeps the entries that have spent more than `days` days in the trash at
/// local time `now`, given the local deletion time of each entry (`None`
/// where it could not be converted). Each entry without a local time is left
/// out and reported by one line in the console.
pub fn select_expired(
    console: &mut ConsoleApp,
    now: i64,
    days: u8,
    entries: Vec<TrashEntry>,
    local_times: &Vec<Option<i64>>,
) -> (r: Vec<TrashEntry>)
    requires
        old(console).wf(),
        entries.len() == local_times.len(),
    ensures
        final(console).wf(),
        final(console).max_lines() == old(console).max_lines(),
        r@ == selected(now, days, entries@, local_times@, entries.len() as int),
        final(console)@ == keep_last(
            old(console)@ + repeated(CONVERSION_ERROR@, none_count(local_times@, local_times.len() as int)),
            old(console).max_lines(),
        ),
{
    proof {
        console.lemma_wf();
    }
    let ghost start = console@;
    let ghost all = entries@;
    let ghost m = console.max_lines();
    let mut r: Vec<TrashEntry> = Vec::new();
    let mut i: usize = 0;
    assert(start + repeated(CONVERSION_ERROR@, 0) =~= start);
    for entry in it: entries
        invariant
            console.wf(),
            console.max_lines() == m,
            m > 0,
            it.seq() == all,
            all.len() == local_times.len(),
            i == it.index(),
            r@ == selected(now, days, all, local_times@, i as int),
            console@ == keep_last(start + repeated(CONVERSION_ERROR@, none_count(local_times@, i as int)), m),
    {
        match local_times[i] {
            Some(t) => {
                if is_older_than(now, t, days) {
                    r.push(entry);
                }
            },
            None => {
                let ghost k = none_count(local_times@, i as int);
                proof {
                    lemma_keep_last_push(start + repeated(CONVERSION_ERROR@, k), CONVERSION_ERROR@, m);
                    assert((start + repeated(CONVERSION_ERROR@, k)).push(CONVERSION_ERROR@) =~= start
                        + repeated(CONVERSION_ERROR@, k + 1));
                }
                console.push_line(CONVERSION_ERROR.to_owned());
            },
        }
        i = i + 1;
    }
    r
}

/// Relies on chrono's `DateTime::from_timestamp` (`None` outside chrono's
/// range), `Local::offset_from_utc_datetime` (a `FixedOffset`, less than a
/// day either way) and `NaiveDateTime::checked_add_offset` (`None` when the
/// sum leaves chrono's range): the local wall-clock time of a UTC time,
/// counted in seconds like a UTC time. chrono unwraps the time-zone lookup
/// (on Windows it panics when the system cannot give the zone); that
/// depends on the machine, not on `t`.
#[verifier::external_body]
pub(crate) fn local_seconds(t: i64) -> (r: Option<i64>)
    ensures
        local_time_for(t, r),
{
    let utc = match chrono::DateTime::from_timestamp(t, 0) {
        Some(utc) => utc.naive_utc(),
        None => return None,
    };
    match utc.checked_add_offset(chrono::Local.offset_from_utc_datetime(&utc)) {
        Some(local) => Some(local.and_utc().timestamp()),
        None => None,
    }
}

/// Relies on chrono's `Local::now` and `DateTime::naive_local`: the local
/// wall-clock time now, counted in seconds like a UTC time. Like every
/// local-time lookup of chrono, it panics where the machine cannot give its
/// time zone.
#[verifier::external_body]
fn now_local_seconds() -> (r: i64) {
    chrono::Local::now().naive_local().and_utc().timestamp()
}

/// The local deletion time of an entry, or `None` when chrono cannot
/// convert it.
pub fn local_time_of(time_deleted: i64) -> (r: Option<i64>)
    ensures
        local_time_for(time_deleted, r),
{
    local_seconds(time_deleted)
}

/// The lines written when the trash cannot be listed.
pub open spec fn listing_error_lines(error: Seq<char>) -> Seq<Seq<char>> {
    lines_of(LISTING_ERROR_PREFIX@ + error + LISTING_ERROR_SUFFIX@)
}

/// Local times that the machine's time zone may give to `entries`.
pub open spec fn local_times_for(entries: Seq<TrashEntry>, local_times: Seq<Option<i64>>) -> bool {
    &&& local_times.len() == entries.len()
    &&& forall|i: int|
        0 <= i < entries.len() ==> local_time_for(entries[i].time_deleted, #[trigger] local_times[i])
}

/// `selection` and the console after it (`after`, from `before`) are what
/// selecting among `entries` at local time `now` gives, for local times that
/// the machine's time zone may give to the entries.
pub open spec fn selection_at(
    now: i64,
    days: u8,
    entries: Seq<TrashEntry>,
    selection: Seq<TrashEntry>,
    before: Seq<Seq<char>>,
    after: Seq<Seq<char>>,
    max_lines: nat,
) -> bool {
    exists|local_times: Seq<Option<i64>>|
        {
            &&& local_times_for(entries, local_times)
            &&& selection == selected(now, days, entries, local_times, entries.len() as int)
            &&& after == keep_last(
                before + repeated(CONVERSION_ERROR@, none_count(local_times, entries.len() as int)),
                max_lines,
            )
        }
}

/// Selects, among the listed trash entries, those that have spent more than
/// the configured number of days in the trash, at local time `now`. When the
/// trash could not be listed, the error is written to the console and
/// nothing is selected.
pub fn get_elements_to_process(
    console: &mut ConsoleApp,
    config_app: &ConfigApp,
    listed: Result<Vec<TrashEntry>, String>,
    now: i64,
) -> (r: Vec<TrashEntry>)
    requires
        old(console).wf(),
    ensures
        final(console).wf(),
        final(console).max_lines() == old(console).max_lines(),
        match listed {
            Err(e) => {
                &&& r@.len() == 0
                &&& final(console)@ == keep_last(
                    old(console)@ + listing_error_lines(e@),
                    old(console).max_lines(),
                )
            },
            Ok(entries) => selection_at(
                now,
                config_app.time_threshold(),
                entries@,
                r@,
                old(console)@,
                final(console)@,
                old(console).max_lines(),
            ),
        },
{
    match listed {
        Err(e) => {
            let text = String::from_str(LISTING_ERROR_PREFIX).concat(e.as_str()).concat(
                LISTING_ERROR_SUFFIX,
            );
            console.add_to_buffer(text.as_str());
            Vec::new()
        },
        Ok(entries) => {
            let mut local_times: Vec<Option<i64>> = Vec::new();
            let mut i: usize = 0;
            while i < entries.len()
                invariant
                    i <= entries.len(),
                    local_times@.len() == i,
                    forall|j: int|
                        0 <= j < i ==> local_time_for(
                            entries@[j].time_deleted,
                            #[trigger] local_times@[j],
                        ),
                decreases entries.len() - i,
            {
                local_times.push(local_time_of(entries[i].time_deleted));
                i = i + 1;
            }
            let ghost es = entries@;
            let r = select_expired(console, now, config_app.time_threshold(), entries, &local_times);
            assert(local_times_for(es, local_times@));
            r
        },
    }
}

/// The same selection at the machine's local time now.
pub fn get_elements_to_process_now(
    console: &mut ConsoleApp,
    config_app: &ConfigApp,
    listed: Result<Vec<TrashEntry>, String>,
) -> (r: Vec<TrashEntry>)
    requires
        old(console).wf(),
    ensures
        final(console).wf(),
        final(console).max_lines() == old(console).max_lines(),
        match listed {
            Err(e) => {
                &&& r@.len() == 0
                &&& final(console)@ == keep_last(
                    old(console)@ + listing_error_lines(e@),
                    old(console).max_lines(),
                )
            },
            Ok(entries) => exists|now: i64|
                selection_at(
                    now,
                    config_app.time_threshold(),
                    entries@,
                    r@,
                    old(console)@,
                    final(console)@,
                    old(console).max_lines(),
                ),
        },
{
    let now = now_local_seconds();
    get_elements_to_process(console, config_app, listed, now)
}

} // verus!
