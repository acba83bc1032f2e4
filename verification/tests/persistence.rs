use basilk::json::Json;
use basilk::migration::Migration;
use basilk::project::{Project, Task};

fn bare_task(title: &str) -> Task {
    Task {
        title: title.to_string(),
        status: "Up Next".to_string(),
        priority: None,
        note: None,
        created_at: None,
        completed_at: None,
    }
}

fn one_project(tasks: Vec<Task>) -> Vec<Project> {
    vec![Project { title: "p".to_string(), tasks }]
}

#[test]
fn data_path_layout() {
    assert_eq!(Json::get_data_path("/home/u/.config/basilk"), "/home/u/.config/basilk/basilk_data.json");
}

#[test]
fn legacy_path_layout() {
    assert_eq!(Json::get_json_path("/home/u/.config/basilk", "6ad96"), "/home/u/.config/basilk/6ad96.json");
    assert_eq!(Json::get_json_path("root", "a4e1b"), "root/a4e1b.json");
}

#[test]
fn write_before_check_uses_empty_version() {
    let manager = Json::new();
    let (version, data) = manager.write(one_project(vec![bare_task("x")]));
    assert_eq!(version, "");
    assert_eq!(data[0].tasks[0].title, "x");
}

#[test]
fn read_sets_version_state() {
    let mut manager = Json::new();
    let data = manager.read("911fc", one_project(vec![bare_task("x")]));
    assert_eq!(data[0].tasks[0].title, "x");
    let (version, _) = manager.write(vec![]);
    assert_eq!(version, "911fc");
}

#[test]
fn check_current_no_migrations_at_latest() {
    let mut manager = Json::new();
    let (applied, steps) = manager.check_current("a4e1b", one_project(vec![bare_task("x")]));
    assert!(!applied);
    assert!(steps.is_empty());
    let (version, _) = manager.write(vec![]);
    assert_eq!(version, "a4e1b");
}

#[test]
fn check_current_unknown_version_is_accepted() {
    let mut manager = Json::new();
    let (applied, steps) = manager.check_current("newer", one_project(vec![bare_task("x")]));
    assert!(!applied);
    assert!(steps.is_empty());
    let (version, _) = manager.write(vec![]);
    assert_eq!(version, "newer");
}

#[test]
fn check_current_applies_pending_chain() {
    let mut manager = Json::new();
    let (applied, steps) = manager.check_current("6ad96", one_project(vec![bare_task("x")]));
    assert!(applied);
    assert_eq!(steps.len(), 2);
    assert_eq!(steps[0].0, "911fc");
    assert_eq!(steps[1].0, "a4e1b");
    // the version state follows the last written step
    let (version, _) = manager.write(vec![]);
    assert_eq!(version, "a4e1b");
}

#[test]
fn check_twice_is_idempotent() {
    // First run migrates; a second run over the document the first run
    // wrote reports "no migrations applied" and leaves the data alone.
    let mut manager = Json::new();
    let (applied, steps) = manager.check_current("6ad96", one_project(vec![bare_task("x")]));
    assert!(applied);
    let (last_version, last_data) = steps.into_iter().last().unwrap();

    let mut manager2 = Json::new();
    let expected_title = last_data[0].tasks[0].title.clone();
    let (applied2, steps2) = manager2.check_current(&last_version, last_data);
    assert!(!applied2);
    assert!(steps2.is_empty());
    assert_eq!(expected_title, "x");
}

#[test]
fn empty_file_recovery() {
    // A zero-byte current file: reset to an empty document at the catalog's
    // last version, reporting no migrations applied.
    let mut manager = Json::new();
    let (version, data) = manager.reset_to_latest();
    assert_eq!(version, "a4e1b");
    assert!(data.is_empty());
    // a re-check of what was written finds nothing to do
    let (applied, steps) = manager.check_current(&version, data);
    assert!(!applied);
    assert!(steps.is_empty());
}

#[test]
fn fresh_install_initializes_latest() {
    let mut manager = Json::new();
    let exists = vec![false, false, false];
    assert_eq!(Json::select_legacy(&exists), None);
    let (version, data) = manager.reset_to_latest();
    assert_eq!(version, Migration::latest_version());
    assert!(data.is_empty());
}

#[test]
fn select_legacy_picks_oldest_catalog_order() {
    assert_eq!(Json::select_legacy(&vec![false, true, true]), Some(1));
    assert_eq!(Json::select_legacy(&vec![true, false, true]), Some(0));
    assert_eq!(Json::select_legacy(&vec![false, false, true]), Some(2));
    assert_eq!(Json::select_legacy(&vec![false, false, false]), None);
}

#[test]
fn legacy_upgrade_reaches_latest() {
    // Only a legacy file for the oldest version: adopt it, then one check
    // pass ends at the catalog's last version with all effects applied.
    let mut manager = Json::new();
    let ids = Migration::version_ids();
    let exists = vec![true, false, false];
    let picked = Json::select_legacy(&exists).unwrap();
    assert_eq!(picked, 0);
    let legacy_data = one_project(vec![bare_task("x")]);
    let (version, data) = manager.adopt_legacy(&ids[picked], legacy_data);
    assert_eq!(version, "6ad96");
    // the re-run of the check over the adopted document
    let (applied, steps) = manager.check_current(&version, data);
    assert!(applied);
    let (final_version, final_data) = steps.into_iter().last().unwrap();
    assert_eq!(final_version, "a4e1b");
    let t = &final_data[0].tasks[0];
    assert_eq!(t.title, "x");
    assert_eq!(t.priority, Some(0));
    assert_eq!(t.note, Some(String::new()));
}

#[test]
fn example_full_chain_from_oldest() {
    // Stored version is the catalog's first entry, one project with one
    // task titled "x": after the check, the current document is at the last
    // version and the task has priority 0 and an empty note.
    let mut manager = Json::new();
    let (applied, steps) = manager.check_current("6ad96", one_project(vec![bare_task("x")]));
    assert!(applied);
    let (final_version, final_data) = steps.into_iter().last().unwrap();
    assert_eq!(final_version, "a4e1b");
    assert_eq!(final_data.len(), 1);
    assert_eq!(final_data[0].tasks.len(), 1);
    let t = &final_data[0].tasks[0];
    assert_eq!(t.title, "x");
    assert_eq!(t.priority, Some(0));
    assert_eq!(t.note, Some(String::new()));
}
