//! A trash-bin cleaner's core: a bounded rolling log of text lines, the
//! selection of trash entries older than a threshold, and the reports that
//! the cleaner writes into its log.

pub mod console;
pub mod report;
pub mod ring;
pub mod selection;
pub mod state;
pub mod text;

pub use console::{ConfigApp, ConsoleApp};
pub use report::{analyser, analysis_report, date_of, deletion_report, report_deletion};
pub use ring::CircularBuffer;
pub use selection::{
    get_elements_to_process, get_elements_to_process_now, is_older_than, local_time_of,
    select_expired, TrashEntry,
};
pub use state::{GitHubInfo, TemplateApp, NOTICE};
pub use text::split_lines;
