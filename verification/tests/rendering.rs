use fileorg::classify::Entry;
use fileorg::clock::run_summary_now;
use fileorg::clock::ClockParts;
use fileorg::clock::RunSummary;
use fileorg::errors::OrganizeError;
use fileorg::logline::action_log_line;
use fileorg::logline::duration_text;
use fileorg::logline::month_name;
use fileorg::logline::render_skip_directory_line;
use fileorg::logline::render_skip_hidden_line;
use fileorg::logline::render_summary_line;
use fileorg::logline::render_transfer_line;
use fileorg::logline::weekday_name;
use fileorg::plan::plan_run;
use fileorg::plan::Action;
use fileorg::text::ascii_lowercase;
use fileorg::text::decimal_string;
use fileorg::text::join_path;
use fileorg::Config;

#[test]
fn ascii_lowercase_maps_only_ascii_uppercase() {
    assert_eq!(ascii_lowercase("MiXeD.TXT"), "mixed.txt");
    assert_eq!(ascii_lowercase(""), "");
    assert_eq!(ascii_lowercase("caf\u{c9}9-_"), "caf\u{c9}9-_");
}

#[test]
fn join_path_inserts_one_separator() {
    assert_eq!(join_path("/a/b", "txt"), "/a/b/txt");
    assert_eq!(join_path("/a/b/", "txt"), "/a/b/txt");
    assert_eq!(join_path("", "txt"), "/txt");
}

#[test]
fn decimal_rendering() {
    assert_eq!(decimal_string(0), "0");
    assert_eq!(decimal_string(7), "7");
    assert_eq!(decimal_string(42), "42");
    assert_eq!(decimal_string(1234567890), "1234567890");
    assert_eq!(decimal_string(u64::MAX), "18446744073709551615");
}

#[test]
fn duration_units() {
    assert_eq!(duration_text(0), "0us");
    assert_eq!(duration_text(999), "999us");
    assert_eq!(duration_text(1000), "1.00ms");
    assert_eq!(duration_text(1500), "1.50ms");
    assert_eq!(duration_text(999_999), "999.99ms");
    assert_eq!(duration_text(1_000_000), "1.00s");
    assert_eq!(duration_text(1_523_000), "1.52s");
    assert_eq!(duration_text(65_000_000), "65.00s");
}

#[test]
fn skip_lines() {
    assert_eq!(
        render_skip_directory_line("/data/archive"),
        "Skipping subdirectory: /data/archive"
    );
    assert_eq!(
        render_skip_hidden_line("/data/.secret"),
        "Skipping hidden file: /data/.secret"
    );
}

#[test]
fn transfer_lines() {
    assert_eq!(
        render_transfer_line(false, "report.pdf", "/data/pdf", 1500),
        "Moved report.pdf to /data/pdf in 1.50ms"
    );
    assert_eq!(
        render_transfer_line(true, "photo.JPG", "/data/jpg", 250),
        "Copied photo.JPG to /data/jpg in 250us"
    );
}

#[test]
fn weekday_and_month_names() {
    assert_eq!(weekday_name(0), "Monday");
    assert_eq!(weekday_name(6), "Sunday");
    assert_eq!(month_name(1), "January");
    assert_eq!(month_name(12), "December");
}

#[test]
fn summary_line_exact() {
    let s = RunSummary {
        completed_at: ClockParts {
            hour: 9,
            minute: 5,
            second: 7,
            weekday: 2,
            day: 3,
            month: 2,
            year: 2026,
        },
        total_micros: 2_000_000,
        files_processed: 3,
    };
    assert_eq!(
        render_summary_line(&s),
        "Operation completed successfully at 09:05:07 on Wednesday, February 03, 2026. \
         Total time taken: 2.00s, 3 files processed."
    );
}

#[test]
fn summary_clock_is_in_range() {
    let s = run_summary_now(5, 1234);
    assert_eq!(s.files_processed, 5);
    assert_eq!(s.total_micros, 1234);
    let c = s.completed_at;
    assert!(c.hour < 24);
    assert!(c.minute < 60);
    assert!(c.second < 60);
    assert!(c.weekday < 7);
    assert!((1..=31).contains(&c.day));
    assert!((1..=12).contains(&c.month));
}

#[test]
fn action_log_lines() {
    assert_eq!(
        action_log_line("/data", "archive", &Action::SkipDirectory, 0),
        Some("Skipping subdirectory: /data/archive".to_string())
    );
    assert_eq!(
        action_log_line("/data", ".secret", &Action::SkipHidden, 0),
        Some("Skipping hidden file: /data/.secret".to_string())
    );
    assert_eq!(action_log_line("/data", "foo.", &Action::AlreadyInPlace, 0), None);
    assert_eq!(
        action_log_line(
            "/data",
            "report.pdf",
            &Action::Transfer { dest_subdir: "pdf".to_string(), copy: false },
            1500
        ),
        Some("Moved report.pdf to /data/pdf in 1.50ms".to_string())
    );
    assert_eq!(
        action_log_line(
            "/data",
            "photo.JPG",
            &Action::Transfer { dest_subdir: "jpg".to_string(), copy: true },
            250
        ),
        Some("Copied photo.JPG to /data/jpg in 250us".to_string())
    );
}

#[test]
fn error_messages() {
    assert_eq!(
        OrganizeError::LogOpenFailed { cause: "denied".to_string() }.message(),
        "cannot open log file: denied"
    );
    assert_eq!(
        OrganizeError::DirectoryReadFailed { cause: "missing".to_string() }.message(),
        "cannot read directory: missing"
    );
    assert_eq!(
        OrganizeError::IoFailure { path: "/t/x".to_string(), cause: "denied".to_string() }
            .message(),
        "file operation failed at /t/x: denied"
    );
}

#[test]
fn scenario_log_content() {
    // The mixed directory of the scenario, executed the way the caller
    // executes a plan: one log line per skip, one per transfer, one summary.
    let c = Config {
        copy: false,
        include_hidden: false,
        others_directory: "Others".to_string(),
        log_file: "file_organizer.log".to_string(),
    };
    let entries = vec![
        Entry { name: "report.pdf".to_string(), is_directory: false },
        Entry { name: "photo.JPG".to_string(), is_directory: false },
        Entry { name: "notes".to_string(), is_directory: false },
        Entry { name: ".secret".to_string(), is_directory: false },
        Entry { name: "archive".to_string(), is_directory: true },
    ];
    let directory = "/data";
    let plan = plan_run(&entries, &c);
    let mut log: Vec<String> = Vec::new();
    for (entry, action) in entries.iter().zip(plan.iter()) {
        if let Some(line) = action_log_line(directory, &entry.name, action, 1000) {
            log.push(line);
        }
    }
    let summary = RunSummary {
        completed_at: ClockParts {
            hour: 12,
            minute: 0,
            second: 0,
            weekday: 0,
            day: 1,
            month: 6,
            year: 2026,
        },
        total_micros: 5000,
        files_processed: entries.len() as u64,
    };
    log.push(render_summary_line(&summary));

    assert_eq!(log.len(), 6);
    assert_eq!(log[0], "Moved report.pdf to /data/pdf in 1.00ms");
    assert_eq!(log[1], "Moved photo.JPG to /data/jpg in 1.00ms");
    assert_eq!(log[2], "Moved notes to /data/Others in 1.00ms");
    assert_eq!(log[3], "Skipping hidden file: /data/.secret");
    assert_eq!(log[4], "Skipping subdirectory: /data/archive");
    assert_eq!(log.iter().filter(|l| l.starts_with("Moved ")).count(), 3);
    assert_eq!(
        log[5],
        "Operation completed successfully at 12:00:00 on Monday, June 01, 2026. \
         Total time taken: 5.00ms, 5 files processed."
    );
}
