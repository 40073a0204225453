use fileorg::classify::classify;
use fileorg::classify::Classification;
use fileorg::classify::Entry;
use fileorg::plan::destination_dir;
use fileorg::plan::plan_entry;
use fileorg::plan::plan_run;
use fileorg::plan::Action;
use fileorg::Config;

fn file(name: &str) -> Entry {
    Entry { name: name.to_string(), is_directory: false }
}

fn dir(name: &str) -> Entry {
    Entry { name: name.to_string(), is_directory: true }
}

fn config(copy: bool, include_hidden: bool, others: &str) -> Config {
    Config {
        copy,
        include_hidden,
        others_directory: others.to_string(),
        log_file: "file_organizer.log".to_string(),
    }
}

#[test]
fn extension_is_lowercased() {
    let c = config(false, false, "Others");
    assert_eq!(
        classify(&file("photo.JPG"), &c),
        Classification::RouteToExtensionDir("jpg".to_string())
    );
    assert_eq!(
        classify(&file("report.pdf"), &c),
        Classification::RouteToExtensionDir("pdf".to_string())
    );
}

#[test]
fn case_insensitive_routing_same_destination() {
    let c = config(false, false, "Others");
    let a = classify(&file("a.TXT"), &c);
    let b = classify(&file("b.txt"), &c);
    assert_eq!(a, Classification::RouteToExtensionDir("txt".to_string()));
    assert_eq!(a, b);
}

#[test]
fn directories_are_skipped() {
    let c = config(false, true, "Others");
    assert_eq!(classify(&dir("archive"), &c), Classification::SkipDirectory);
    assert_eq!(classify(&dir("photos.bak"), &c), Classification::SkipDirectory);
}

#[test]
fn hidden_file_gate_excluded() {
    let c = config(false, false, "Others");
    assert_eq!(classify(&file(".env"), &c), Classification::SkipHidden);
    assert_eq!(classify(&file(".tar.gz"), &c), Classification::SkipHidden);
}

#[test]
fn hidden_file_gate_included() {
    let c = config(false, true, "Others");
    assert_eq!(classify(&file(".env"), &c), Classification::RouteToOthersDir);
    assert_eq!(
        classify(&file(".tar.gz"), &c),
        Classification::RouteToExtensionDir("gz".to_string())
    );
}

#[test]
fn extensionless_names_go_to_others() {
    let c = config(false, false, "Others");
    assert_eq!(classify(&file("notes"), &c), Classification::RouteToOthersDir);
    assert_eq!(
        plan_entry(&file("notes"), &c),
        Action::Transfer { dest_subdir: "Others".to_string(), copy: false }
    );
}

#[test]
fn last_dot_wins() {
    let c = config(false, false, "Others");
    assert_eq!(
        classify(&file("a.b.c"), &c),
        Classification::RouteToExtensionDir("c".to_string())
    );
}

#[test]
fn non_ascii_stem_keeps_ascii_extension() {
    let c = config(false, false, "Others");
    assert_eq!(
        classify(&file("caf\u{e9}.PNG"), &c),
        Classification::RouteToExtensionDir("png".to_string())
    );
}

#[test]
fn trailing_dot_is_already_in_place() {
    let c = config(false, false, "Others");
    assert_eq!(
        classify(&file("foo."), &c),
        Classification::RouteToExtensionDir(String::new())
    );
    assert_eq!(plan_entry(&file("foo."), &c), Action::AlreadyInPlace);
}

#[test]
fn empty_others_directory_is_already_in_place() {
    let c = config(false, false, "");
    assert_eq!(plan_entry(&file("notes"), &c), Action::AlreadyInPlace);
}

#[test]
fn copy_flag_reaches_the_plan() {
    let copying = config(true, false, "Others");
    let moving = config(false, false, "Others");
    assert_eq!(
        plan_entry(&file("a.txt"), &copying),
        Action::Transfer { dest_subdir: "txt".to_string(), copy: true }
    );
    assert_eq!(
        plan_entry(&file("a.txt"), &moving),
        Action::Transfer { dest_subdir: "txt".to_string(), copy: false }
    );
}

#[test]
fn destination_dir_of_routed_and_skipped_entries() {
    let c = config(false, false, "Others");
    assert_eq!(
        destination_dir("/data", &file("report.pdf"), &c),
        Some("/data/pdf".to_string())
    );
    assert_eq!(
        destination_dir("/data/", &file("notes"), &c),
        Some("/data/Others".to_string())
    );
    assert_eq!(destination_dir("/data", &dir("archive"), &c), None);
    assert_eq!(destination_dir("/data", &file(".secret"), &c), None);
}

#[test]
fn scenario_mixed_directory() {
    let c = config(false, false, "Others");
    let entries = vec![
        file("report.pdf"),
        file("photo.JPG"),
        file("notes"),
        file(".secret"),
        dir("archive"),
    ];
    let plan = plan_run(&entries, &c);
    assert_eq!(
        plan,
        vec![
            Action::Transfer { dest_subdir: "pdf".to_string(), copy: false },
            Action::Transfer { dest_subdir: "jpg".to_string(), copy: false },
            Action::Transfer { dest_subdir: "Others".to_string(), copy: false },
            Action::SkipHidden,
            Action::SkipDirectory,
        ]
    );
    let transfers = plan
        .iter()
        .filter(|a| matches!(a, Action::Transfer { .. }))
        .count();
    assert_eq!(transfers, 3);
}

#[test]
fn second_run_plans_no_movement() {
    let c = config(false, false, "Others");
    // The top level after the scenario run: the created destination
    // directories, the untouched hidden file, and the untouched subdirectory.
    let organized = vec![
        dir("pdf"),
        dir("jpg"),
        dir("Others"),
        file(".secret"),
        dir("archive"),
    ];
    let plan = plan_run(&organized, &c);
    assert!(plan.iter().all(|a| !matches!(a, Action::Transfer { .. })));
}

#[test]
fn partition_every_routed_file_has_one_destination() {
    let c = config(false, true, "misc");
    let entries = vec![
        file("a.TXT"),
        file("b.txt"),
        file("notes"),
        file(".env"),
        file("song.Mp3"),
    ];
    let plan = plan_run(&entries, &c);
    let expected = ["txt", "txt", "misc", "misc", "mp3"];
    for (action, want) in plan.iter().zip(expected.iter()) {
        match action {
            Action::Transfer { dest_subdir, copy } => {
                assert_eq!(dest_subdir, want);
                assert!(!copy);
            }
            other => panic!("expected a transfer, got {:?}", other),
        }
    }
}
