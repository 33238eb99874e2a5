use flutter_installer::messages::{
    dir_hint, link_warning, CLONE_FAILED, CLONE_LABEL, CLONE_MARK, COPY_NOTICE, DIR_UNUSABLE,
    FINISHED, HOME_UNRESOLVED, PATH_ADVICE, REPOSITORY_URL, SCAN_FAILED, SETUP_DONE,
    SETUP_FAILED, SETUP_LABEL,
};

#[test]
fn dir_hint_names_the_directory() {
    assert_eq!(
        dir_hint("/home/u/.tools"),
        "Check if /home/u/.tools already exists, and if it doesn't, try creating it yourself."
    );
}

#[test]
fn dir_hint_of_an_empty_path() {
    assert_eq!(
        dir_hint(""),
        "Check if  already exists, and if it doesn't, try creating it yourself."
    );
}

#[test]
fn link_warning_names_the_file() {
    assert_eq!(link_warning("flutter"), "WARN: Failed to symlink flutter");
    assert_eq!(link_warning("dart.bat"), "WARN: Failed to symlink dart.bat");
}

#[test]
fn clone_mark_is_a_green_check_mark() {
    assert_eq!(CLONE_MARK.as_bytes(), b"\x1b[32m\xf0\x9f\x97\xb8\x1b[0m");
}

#[test]
fn repository_is_the_flutter_repository() {
    assert_eq!(REPOSITORY_URL, "https://github.com/flutter/flutter.git");
}

#[test]
fn fixed_texts() {
    assert_eq!(HOME_UNRESOLVED, "Ran into an error getting your user directories :(");
    assert_eq!(DIR_UNUSABLE, "Something wen't wrong. I'm not 100% sure what sorry.");
    assert_eq!(CLONE_LABEL, "Cloning Flutter Repo...");
    assert_eq!(
        CLONE_FAILED,
        "Failed to clone Flutter repo! Check if the directory already exists"
    );
    assert_eq!(
        SCAN_FAILED,
        "Ran into an error scanning the Flutter bin directory. Not really sure what happened. I'll look into it :)"
    );
    assert_eq!(SETUP_LABEL, "Running First Time Setup");
    assert_eq!(SETUP_DONE, "Ran first time setup!\n");
    assert_eq!(SETUP_FAILED, "Ran into an error running first time setup\n");
    assert_eq!(FINISHED, "Finished Setting up Flutter sdk :)");
    assert_eq!(
        PATH_ADVICE,
        "Now all you have to do is add the following directory to your path: "
    );
}

#[test]
fn copy_notice_has_two_lines() {
    let lines: Vec<&str> = COPY_NOTICE.lines().collect();
    assert_eq!(lines.len(), 2);
    assert_eq!(
        lines[0],
        "Please note that symlinking is not supported on Windows, so the files have simply been copied"
    );
    assert_eq!(
        lines[1],
        "This means that if you wish to pull a new commit from the git repository, you must copy the bin files again"
    );
}
