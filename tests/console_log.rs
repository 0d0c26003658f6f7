use windows_trash_manager::{split_lines, ConfigApp, ConsoleApp, GitHubInfo, TemplateApp, NOTICE};

fn lines(c: &ConsoleApp) -> Vec<String> {
    c.get_last_console_messages(usize::MAX).into_iter().cloned().collect()
}

fn strings(items: &[&str]) -> Vec<String> {
    items.iter().map(|s| s.to_string()).collect()
}

#[test]
fn add_empty_text_changes_nothing() {
    let mut c = ConsoleApp::new(3);
    c.add_to_buffer("");
    assert!(c.is_empty());
    c.add_to_buffer("one\ntwo");
    let before = lines(&c);
    c.add_to_buffer("");
    assert_eq!(lines(&c), before);
}

#[test]
fn add_text_splits_into_lines() {
    let mut c = ConsoleApp::new(3);
    c.add_to_buffer("a\nb\nc");
    assert_eq!(lines(&c), strings(&["a", "b", "c"]));
}

#[test]
fn add_text_evicts_oldest_lines() {
    let mut c = ConsoleApp::new(3);
    c.add_to_buffer("a\nb\nc");
    c.add_to_buffer("d\ne");
    assert_eq!(lines(&c), strings(&["c", "d", "e"]));
}

#[test]
fn split_lines_follows_line_endings() {
    assert_eq!(split_lines(""), Vec::<String>::new());
    assert_eq!(split_lines("\n"), strings(&[""]));
    assert_eq!(split_lines("a\n"), strings(&["a"]));
    assert_eq!(split_lines("a\r\nb\r\n"), strings(&["a", "b"]));
    assert_eq!(split_lines("\n\nANALYSE\n\n"), strings(&["", "", "ANALYSE", ""]));
    assert_eq!(split_lines("x\ry"), strings(&["x\ry"]));
    assert_eq!(split_lines("tail\r"), strings(&["tail\r"]));
    assert_eq!(split_lines("é\nü"), strings(&["é", "ü"]));
    let text = "one\r\ntwo\n\nthree\r";
    let expected: Vec<String> = text.lines().map(|s| s.to_string()).collect();
    assert_eq!(split_lines(text), expected);
}

#[test]
fn last_messages_are_taken_from_the_oldest_end() {
    let mut c = ConsoleApp::new(5);
    c.add_to_buffer("1\n2\n3\n4");
    let two: Vec<String> = c.get_last_console_messages(2).into_iter().cloned().collect();
    assert_eq!(two, strings(&["1", "2"]));
    let all: Vec<String> = c.get_last_console_messages(10).into_iter().cloned().collect();
    assert_eq!(all, strings(&["1", "2", "3", "4"]));
    let empty = ConsoleApp::new(5);
    assert!(empty.get_last_console_messages(3).is_empty());
}

#[test]
fn flush_storage_empties_the_console() {
    let mut c = ConsoleApp::new(4);
    c._flush_storage();
    assert!(c.is_empty());
    c.add_to_buffer("a\nb");
    c._flush_storage();
    assert!(c.is_empty());
    c.push_line("z".to_string());
    assert_eq!(lines(&c), strings(&["z"]));
}

#[test]
fn defaults() {
    let config = ConfigApp::default();
    assert_eq!(config.time_threshold(), 30);
    assert_eq!(config.max_console_lines(), 1000);
    let console = ConsoleApp::default();
    assert!(console.is_empty());
    assert_eq!(console.buffer().capacity(), 1000);
    let info = GitHubInfo::default();
    assert_eq!(info.url(), "https://github.com/julienwetzel/windows-trash-manager");
    assert_eq!(
        info.url_blob(),
        "https://github.com/julienwetzel/windows-trash-manager/blob/main/"
    );
}

#[test]
fn threshold_setter() {
    let mut config = ConfigApp::new(5, 20);
    config.set_time_threshold(12);
    assert_eq!(config.time_threshold(), 12);
    assert_eq!(config.max_console_lines(), 20);
}

#[test]
fn restore_writes_the_notice() {
    let app = TemplateApp::restore(None);
    let expected: Vec<String> = NOTICE.lines().map(|s| s.to_string()).collect();
    assert_eq!(lines(&app.console_app), expected);
    assert_eq!(app.config_app.time_threshold(), 30);

    let mut console = ConsoleApp::new(2);
    console.add_to_buffer("kept");
    let saved = TemplateApp { config_app: ConfigApp::new(7, 2), console_app: console };
    let app = TemplateApp::restore(Some(saved));
    let all: Vec<String> = NOTICE.lines().map(|s| s.to_string()).collect();
    assert_eq!(lines(&app.console_app), all[all.len() - 2..].to_vec());
    assert_eq!(app.config_app.time_threshold(), 7);
}
