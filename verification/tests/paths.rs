use flutter_installer::paths::{join, Layout};
use flutter_installer::platform::{LinkMode, Platform};

#[test]
fn join_puts_the_separator_between_directory_and_child() {
    assert_eq!(join(Platform::Unix, "/home/u", ".tools"), "/home/u/.tools");
    assert_eq!(join(Platform::Unix, "relative", "bin"), "relative/bin");
}

#[test]
fn join_adds_no_second_separator() {
    assert_eq!(join(Platform::Unix, "/", ".tools"), "/.tools");
    assert_eq!(join(Platform::Unix, "/home/u/", ".tools"), "/home/u/.tools");
}

#[test]
fn join_with_an_empty_directory_is_the_child() {
    assert_eq!(join(Platform::Unix, "", "bin"), "bin");
    assert_eq!(join(Platform::Windows, "", "bin"), "bin");
}

#[test]
fn join_with_an_empty_child_ends_in_the_separator() {
    assert_eq!(join(Platform::Unix, "/home/u", ""), "/home/u/");
    assert_eq!(join(Platform::Unix, "/home/u/", ""), "/home/u/");
}

#[test]
fn join_on_windows_writes_a_backslash() {
    assert_eq!(
        join(Platform::Windows, "C:\\Users\\Alice", ".tools"),
        "C:\\Users\\Alice\\.tools"
    );
}

#[test]
fn join_on_windows_takes_either_slash_as_separator() {
    assert_eq!(join(Platform::Windows, "C:\\", "bin"), "C:\\bin");
    assert_eq!(join(Platform::Windows, "C:/Users/", "bin"), "C:/Users/bin");
}

#[test]
fn join_on_unix_takes_a_backslash_as_part_of_the_name() {
    assert_eq!(join(Platform::Unix, "dir\\", "bin"), "dir\\/bin");
}

#[test]
fn join_looks_at_characters_not_bytes() {
    assert_eq!(join(Platform::Unix, "/home/zo\u{eb}", "bin"), "/home/zo\u{eb}/bin");
    assert_eq!(join(Platform::Unix, "/home/\u{1f5f8}", "\u{e9}"), "/home/\u{1f5f8}/\u{e9}");
}

#[test]
fn layout_is_derived_from_the_home_directory() {
    let layout = Layout::for_home(Platform::Unix, "/home/u");
    assert_eq!(layout.tools, "/home/u/.tools");
    assert_eq!(layout.checkout, "/home/u/.tools/flutter");
    assert_eq!(layout.bin, "/home/u/.tools/bin");
}

#[test]
fn layout_on_windows() {
    let layout = Layout::for_home(Platform::Windows, "C:\\Users\\Alice");
    assert_eq!(layout.tools, "C:\\Users\\Alice\\.tools");
    assert_eq!(layout.checkout, "C:\\Users\\Alice\\.tools\\flutter");
    assert_eq!(layout.bin, "C:\\Users\\Alice\\.tools\\bin");
}

#[test]
fn layout_below_the_root_directory() {
    let layout = Layout::for_home(Platform::Unix, "/");
    assert_eq!(layout.tools, "/.tools");
    assert_eq!(layout.checkout, "/.tools/flutter");
    assert_eq!(layout.bin, "/.tools/bin");
}

#[test]
fn checkout_bin_lies_inside_the_checkout() {
    let layout = Layout::for_home(Platform::Unix, "/home/u");
    assert_eq!(layout.checkout_bin(Platform::Unix), "/home/u/.tools/flutter/bin");
    let layout = Layout::for_home(Platform::Windows, "C:\\Users\\Alice");
    assert_eq!(
        layout.checkout_bin(Platform::Windows),
        "C:\\Users\\Alice\\.tools\\flutter\\bin"
    );
}

#[test]
fn setup_program_is_the_executable_in_the_bin_folder() {
    let layout = Layout::for_home(Platform::Unix, "/home/u");
    assert_eq!(layout.setup_program(Platform::Unix), "/home/u/.tools/bin/flutter");
    let layout = Layout::for_home(Platform::Windows, "C:\\Users\\Alice");
    assert_eq!(
        layout.setup_program(Platform::Windows),
        "C:\\Users\\Alice\\.tools\\bin\\flutter.bat"
    );
}

#[test]
fn platform_fixes_strategy_and_executable() {
    assert_eq!(Platform::Unix.link_mode(), LinkMode::Symlink);
    assert_eq!(Platform::Windows.link_mode(), LinkMode::Copy);
    assert_eq!(Platform::Unix.executable(), "flutter");
    assert_eq!(Platform::Windows.executable(), "flutter.bat");
}
