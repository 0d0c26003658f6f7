use windows_trash_manager::{
    analyser, analysis_report, get_elements_to_process_now, date_of, deletion_report, get_elements_to_process, is_older_than,
    local_time_of, report_deletion, select_expired, ConfigApp, ConsoleApp, TrashEntry,
};

const DAY: i64 = 86_400;

fn entry(name: &str, time_deleted: i64) -> TrashEntry {
    TrashEntry { name: name.to_string(), time_deleted, key: 0 }
}

fn lines(c: &ConsoleApp) -> Vec<String> {
    c.get_last_console_messages(usize::MAX).into_iter().cloned().collect()
}

#[test]
fn older_than_is_strict() {
    let now = 1_700_000_000;
    assert!(is_older_than(now, now - 5 * DAY - 1, 5));
    assert!(!is_older_than(now, now - 5 * DAY, 5));
    assert!(!is_older_than(now, now - 2 * DAY, 5));
    assert!(is_older_than(i64::MAX, i64::MIN, 255));
    assert!(!is_older_than(i64::MIN, i64::MAX, 0));
}

#[test]
fn threshold_selects_only_old_entries() {
    let now = 1_700_000_000;
    let mut console = ConsoleApp::new(10);
    let entries = vec![entry("old", now - 10 * DAY), entry("recent", now - 2 * DAY)];
    let times = vec![Some(now - 10 * DAY), Some(now - 2 * DAY)];
    let picked = select_expired(&mut console, now, 5, entries, &times);
    assert_eq!(picked.len(), 1);
    assert_eq!(picked[0].name, "old");
    assert!(console.is_empty());
}

#[test]
fn malformed_times_are_reported_and_skipped() {
    let now = 1_700_000_000;
    let mut console = ConsoleApp::new(10);
    let entries = vec![entry("bad", i64::MAX), entry("old", now - 9 * DAY), entry("bad2", i64::MIN)];
    let times = vec![None, Some(now - 9 * DAY), None];
    let picked = select_expired(&mut console, now, 5, entries, &times);
    assert_eq!(picked.len(), 1);
    assert_eq!(picked[0].name, "old");
    let msg = "**** Erreur lors de la conversion de l'horodatage ****".to_string();
    assert_eq!(lines(&console), vec![msg.clone(), msg]);
}

#[test]
fn local_time_is_within_a_day() {
    let t = 1_700_000_000;
    let local = local_time_of(t).unwrap();
    assert!(local > t - DAY && local < t + DAY);
    assert_eq!(local_time_of(i64::MAX), None);
    assert_eq!(local_time_of(-9_000_000_000_000), None);
    assert_eq!(local_time_of(8_210_266_876_800), None);
    assert_eq!(local_time_of(-8_334_601_228_801), None);
    assert!(date_of(-8_334_601_228_801).is_none());
    let far = 8_100_000_000_000;
    let local = local_time_of(far).unwrap();
    assert!(local > far - DAY && local < far + DAY);
    let early = -8_300_000_000_000;
    assert!(local_time_of(early).is_some());
}

#[test]
fn listing_error_is_written() {
    let mut console = ConsoleApp::new(10);
    let config = ConfigApp::default();
    let r = get_elements_to_process(&mut console, &config, Err("no access".to_string()), 0);
    assert!(r.is_empty());
    assert_eq!(
        lines(&console),
        vec![
            "**** Erreur lors de la récupération des éléments de la corbeille: no access ****"
                .to_string()
        ]
    );
}

#[test]
fn listed_entries_are_filtered() {
    let mut console = ConsoleApp::new(10);
    let config = ConfigApp::new(5, 10);
    let now = 1_700_000_000;
    let listed = vec![
        entry("very old", now - 30 * DAY),
        entry("new", now - DAY),
        entry("broken", i64::MAX),
    ];
    let r = get_elements_to_process(&mut console, &config, Ok(listed), now);
    assert_eq!(r.len(), 1);
    assert_eq!(r[0].name, "very old");
    assert_eq!(lines(&console).len(), 1);
}

#[test]
fn far_times_that_chrono_reads_are_selected() {
    let mut console = ConsoleApp::new(10);
    let config = ConfigApp::new(5, 10);
    let deleted = 8_100_000_000_000;
    let now = deleted + 10 * DAY;
    let listed = vec![entry("old", deleted), entry("recent", now - 2 * DAY)];
    let r = get_elements_to_process(&mut console, &config, Ok(listed), now);
    assert_eq!(r.len(), 1);
    assert_eq!(r[0].name, "old");
    assert!(console.is_empty());
}

#[test]
fn date_has_day_month_year_hour_minute() {
    let d = date_of(1_700_000_000).unwrap();
    let chars: Vec<char> = d.chars().collect();
    assert_eq!(chars.len(), 16);
    assert_eq!(chars[2], '.');
    assert_eq!(chars[5], '.');
    assert_eq!(chars[10], ' ');
    assert_eq!(chars[13], ':');
    assert_ne!(d, "1700000000");
    assert!(date_of(i64::MAX).is_none());
}

#[test]
fn analysis_lists_names_dates_and_total() {
    let mut console = ConsoleApp::new(100);
    let entries = vec![entry("photo.png", 0), entry("notes.txt", 0)];
    let dates = vec![Some("01.01.2020 10:00".to_string()), Some("02.01.2020 11:30".to_string())];
    analysis_report(&mut console, &entries, &dates);
    let out = lines(&console);
    assert_eq!(out[..3].to_vec(), vec!["".to_string(), "".to_string(), "ANALYSE".to_string()]);
    assert_eq!(out[3], "");
    assert!(out[4].starts_with('┌'));
    assert!(out.iter().any(|l| l.contains("photo.png") && l.contains("01.01.2020 10:00")));
    assert!(out.iter().any(|l| l.contains("notes.txt") && l.contains("02.01.2020 11:30")));
    assert!(out.iter().any(|l| l.contains("Nom de l'élément")));
    assert_eq!(out[out.len() - 1], "Total d'éléments à traiter : 2");
    assert_eq!(out[out.len() - 2], "");
}

#[test]
fn analysis_of_nothing() {
    let mut console = ConsoleApp::new(100);
    analysis_report(&mut console, &Vec::new(), &Vec::new());
    let mut undated = ConsoleApp::new(100);
    analysis_report(&mut undated, &vec![entry("x", 0)], &vec![None]);
    assert_eq!(lines(&undated), lines(&console));
    assert_eq!(
        lines(&console),
        vec!["", "", "ANALYSE", "", "Il n'y a aucun élément à supprimer"]
            .into_iter()
            .map(|s| s.to_string())
            .collect::<Vec<_>>()
    );
}

#[test]
fn deletion_report_counts_each_outcome() {
    let mut console = ConsoleApp::new(200);
    let entries = vec![entry("gone.doc", 0), entry("stuck.doc", 0)];
    let dates = vec![Some("01.01.2020 10:00".to_string()), Some("01.01.2020 10:05".to_string())];
    let (ok, failed) = deletion_report(&mut console, &entries, &dates, &vec![true, false]);
    assert_eq!((ok, failed), (1, 1));
    let out = lines(&console);
    assert_eq!(out[2], "SUPPRESSION DÉFINITIVE");
    assert!(out.iter().any(|l| l.contains("OK") && l.contains("gone.doc")));
    assert!(out.iter().any(|l| l.contains("Oups !") && l.contains("stuck.doc")));
    assert!(out.iter().any(|l| l == "Statistiques de suppression:"));
    assert!(out.iter().any(|l| l.contains("Succès") && l.contains('1')));
    assert!(out.iter().any(|l| l.contains("Échec") && l.contains('1')));
}

#[test]
fn report_deletion_after_purge() {
    let mut console = ConsoleApp::new(200);
    let entries = vec![entry("a.txt", 1_600_000_000), entry("b.txt", 1_600_000_100)];
    let r = report_deletion(&mut console, &entries, &vec![false, false]);
    assert_eq!(r, (0, 2));
    let out = lines(&console);
    assert!(out.iter().any(|l| l.contains("Échec") && l.contains('2')));
    assert!(out.iter().any(|l| l.contains("a.txt")));
    assert!(out.iter().any(|l| l.contains("b.txt")));
}

#[test]
fn undated_entry_is_reported_and_skipped() {
    let mut console = ConsoleApp::new(200);
    let entries = vec![entry("c.txt", i64::MAX), entry("d.txt", 1_600_000_000)];
    assert_eq!(report_deletion(&mut console, &entries, &vec![true, true]), (2, 0));
    let out = lines(&console);
    assert_eq!(out[0], "**** Erreur lors de la conversion de l'horodatage ****");
    assert_eq!(out[3], "SUPPRESSION DÉFINITIVE");
    assert!(!out.iter().any(|l| l.contains("c.txt")));
    assert!(out.iter().any(|l| l.contains("d.txt")));
    assert!(out.iter().any(|l| l.contains("Succès") && l.contains('2')));

    let mut console = ConsoleApp::new(200);
    let config = ConfigApp::new(5, 200);
    let mut c2 = ConsoleApp::new(200);
    let picked = get_elements_to_process_now(&mut c2, &config, Ok(vec![entry("c.txt", i64::MAX)]));
    assert!(picked.is_empty());
    analyser(&mut console, &config, Ok(vec![entry("old.txt", 1_000_000)]));
    let out = lines(&console);
    assert!(out.iter().any(|l| l.contains("old.txt")));
    assert_eq!(out[out.len() - 1], "Total d'éléments à traiter : 1");
}

#[test]
fn analysis_when_the_trash_cannot_be_listed() {
    let mut console = ConsoleApp::new(20);
    let config = ConfigApp::default();
    analyser(&mut console, &config, Err("denied".to_string()));
    let expected: Vec<String> = vec![
        "**** Erreur lors de la récupération des éléments de la corbeille: denied ****".to_string(),
    ];
    assert_eq!(lines(&console), expected);
}

#[test]
fn selection_now_keeps_entries_deleted_long_ago() {
    let mut console = ConsoleApp::new(20);
    let config = ConfigApp::new(5, 20);
    let listed = vec![entry("ancient", 86_400), entry("future", 4_000_000_000)];
    let r = get_elements_to_process_now(&mut console, &config, Ok(listed));
    assert_eq!(r.len(), 1);
    assert_eq!(r[0].name, "ancient");
    assert!(console.is_empty());
    let r = get_elements_to_process_now(&mut console, &config, Err("x".to_string()));
    assert!(r.is_empty());
    assert_eq!(lines(&console).len(), 1);
}
