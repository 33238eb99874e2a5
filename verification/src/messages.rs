//! What the installer says on the console.

use vstd::prelude::*;
use vstd::string::*;

verus! {

/// The repository the SDK is cloned from.
pub const REPOSITORY_URL: &'static str = "https://github.com/flutter/flutter.git";

/// Said when the home directory cannot be found; the run ends there.
pub const HOME_UNRESOLVED: &'static str = "Ran into an error getting your user directories :(";

/// First line of the warning for a target directory that could neither be
/// made nor found.
pub const DIR_UNUSABLE: &'static str = "Something wen't wrong. I'm not 100% sure what sorry.";

/// Shown beside the progress indicator while the repository is cloned.
pub const CLONE_LABEL: &'static str = "Cloning Flutter Repo...";

/// Takes the place of the progress indicator once the clone has ended: a
/// green check mark.
pub const CLONE_MARK: &'static str = "\u{1b}[32m\u{1f5f8}\u{1b}[0m";

/// Said when the clone fails; the run ends there.
pub const CLONE_FAILED: &'static str =
    "Failed to clone Flutter repo! Check if the directory already exists";

/// Said once, before the checkout is scanned, on a platform where files are
/// copied into the bin folder.
pub const COPY_NOTICE: &'static str =
    "Please note that symlinking is not supported on Windows, so the files have simply been copied\nThis means that if you wish to pull a new commit from the git repository, you must copy the bin files again";

/// Said when the checkout's bin folder cannot be listed; the run ends there.
pub const SCAN_FAILED: &'static str =
    "Ran into an error scanning the Flutter bin directory. Not really sure what happened. I'll look into it :)";

/// Shown beside the progress indicator while the SDK sets itself up.
pub const SETUP_LABEL: &'static str = "Running First Time Setup";

/// Takes the place of the progress indicator when the SDK's executable ran.
pub const SETUP_DONE: &'static str = "Ran first time setup!\n";

/// Takes the place of the progress indicator when the SDK's executable could
/// not be run.
pub const SETUP_FAILED: &'static str = "Ran into an error running first time setup\n";

/// First line of the closing message.
pub const FINISHED: &'static str = "Finished Setting up Flutter sdk :)";

/// Second line of the closing message; the bin folder's path follows on a
/// line of its own.
pub const PATH_ADVICE: &'static str =
    "Now all you have to do is add the following directory to your path: ";

/// The text of [`dir_hint`] around the directory's path.
pub open spec fn dir_hint_text(path: Seq<char>) -> Seq<char> {
    "Check if "@ + path + " already exists, and if it doesn't, try creating it yourself."@
}

/// Second line of the warning for an unusable target directory, naming it.
pub fn dir_hint(path: &str) -> (line: String)
    ensures
        line@ == dir_hint_text(path@),
{
    let mut line = "Check if ".to_owned();
    line.append(path);
    line.append(" already exists, and if it doesn't, try creating it yourself.");
    line
}

/// The text of [`link_warning`] before the file's name.
pub open spec fn link_warning_text(name: Seq<char>) -> Seq<char> {
    "WARN: Failed to symlink "@ + name
}

/// The warning for a file that could not be linked or copied, naming it.
pub fn link_warning(name: &str) -> (line: String)
    ensures
        line@ == link_warning_text(name@),
{
    let mut line = "WARN: Failed to symlink ".to_owned();
    line.append(name);
    line
}

} // verus!
