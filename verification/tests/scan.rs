use flutter_installer::paths::Layout;
use flutter_installer::platform::{LinkMode, Platform};
use flutter_installer::scan::{link_plan, LinkTask, ScanEntry};

fn file(name: &str) -> ScanEntry {
    ScanEntry::Found { is_dir: false, name: Some(name.to_string()) }
}

fn dir(name: &str) -> ScanEntry {
    ScanEntry::Found { is_dir: true, name: Some(name.to_string()) }
}

fn unix_task(name: &str) -> LinkTask {
    LinkTask {
        mode: LinkMode::Symlink,
        name: name.to_string(),
        source: format!("/home/u/.tools/flutter/bin/{}", name),
        target: format!("/home/u/.tools/bin/{}", name),
    }
}

#[test]
fn files_are_linked_and_directories_are_not() {
    let layout = Layout::for_home(Platform::Unix, "/home/u");
    let entries = vec![file("a"), file("b"), dir("c")];
    let plan = link_plan(Platform::Unix, &layout, &entries);
    assert_eq!(plan, vec![unix_task("a"), unix_task("b")]);
    assert!(plan.iter().all(|task| task.name != "c"));
    assert!(plan.iter().all(|task| task.target != "/home/u/.tools/bin/c"));
}

#[test]
fn directory_between_files_is_passed_over() {
    let layout = Layout::for_home(Platform::Unix, "/home/u");
    let entries = vec![dir("cache"), file("dart"), dir("internal"), file("flutter")];
    let plan = link_plan(Platform::Unix, &layout, &entries);
    assert_eq!(plan, vec![unix_task("dart"), unix_task("flutter")]);
}

#[test]
fn plan_keeps_the_order_of_the_scan() {
    let layout = Layout::for_home(Platform::Unix, "/home/u");
    let entries = vec![file("z"), file("a"), file("m")];
    let plan = link_plan(Platform::Unix, &layout, &entries);
    let names: Vec<&str> = plan.iter().map(|task| task.name.as_str()).collect();
    assert_eq!(names, vec!["z", "a", "m"]);
}

#[test]
fn unreadable_entries_are_passed_over() {
    let layout = Layout::for_home(Platform::Unix, "/home/u");
    let entries = vec![ScanEntry::Unreadable, file("flutter"), ScanEntry::Unreadable];
    let plan = link_plan(Platform::Unix, &layout, &entries);
    assert_eq!(plan, vec![unix_task("flutter")]);
}

#[test]
fn entries_without_a_name_are_passed_over() {
    let layout = Layout::for_home(Platform::Unix, "/home/u");
    let entries = vec![
        ScanEntry::Found { is_dir: false, name: None },
        file("flutter"),
        ScanEntry::Found { is_dir: true, name: None },
    ];
    let plan = link_plan(Platform::Unix, &layout, &entries);
    assert_eq!(plan, vec![unix_task("flutter")]);
}

#[test]
fn empty_scan_gives_an_empty_plan() {
    let layout = Layout::for_home(Platform::Unix, "/home/u");
    let plan = link_plan(Platform::Unix, &layout, &Vec::new());
    assert!(plan.is_empty());
}

#[test]
fn scan_of_directories_only_gives_an_empty_plan() {
    let layout = Layout::for_home(Platform::Unix, "/home/u");
    let plan = link_plan(Platform::Unix, &layout, &vec![dir("a"), dir("b")]);
    assert!(plan.is_empty());
}

#[test]
fn windows_plan_copies() {
    let layout = Layout::for_home(Platform::Windows, "C:\\Users\\Alice");
    let entries = vec![file("flutter"), file("flutter.bat"), dir("cache")];
    let plan = link_plan(Platform::Windows, &layout, &entries);
    assert_eq!(
        plan,
        vec![
            LinkTask {
                mode: LinkMode::Copy,
                name: "flutter".to_string(),
                source: "C:\\Users\\Alice\\.tools\\flutter\\bin\\flutter".to_string(),
                target: "C:\\Users\\Alice\\.tools\\bin\\flutter".to_string(),
            },
            LinkTask {
                mode: LinkMode::Copy,
                name: "flutter.bat".to_string(),
                source: "C:\\Users\\Alice\\.tools\\flutter\\bin\\flutter.bat".to_string(),
                target: "C:\\Users\\Alice\\.tools\\bin\\flutter.bat".to_string(),
            },
        ]
    );
}

#[test]
fn a_name_that_occurs_twice_is_planned_twice() {
    let layout = Layout::for_home(Platform::Unix, "/home/u");
    let plan = link_plan(Platform::Unix, &layout, &vec![file("a"), file("a")]);
    assert_eq!(plan, vec![unix_task("a"), unix_task("a")]);
}
