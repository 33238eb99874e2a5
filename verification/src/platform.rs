//! The host platform and the capabilities that depend on it.

use vstd::prelude::*;

verus! {

/// How a file of the checkout is made available in the unified bin folder.
#[derive(Clone, Copy, Debug, PartialEq, Eq, Structural)]
pub enum LinkMode {
    /// A symbolic link that follows later changes of the source file.
    Symlink,
    /// A full copy of the source file's bytes, for hosts without symbolic links.
    Copy,
}

/// The family of host systems the installer runs on. It is chosen once, at
/// start-up, and fixes the linking strategy, the path separator and the name
/// of the SDK's main executable.
#[derive(Clone, Copy, Debug, PartialEq, Eq, Structural)]
pub enum Platform {
    Unix,
    Windows,
}

impl Platform {
    /// The linking strategy of the platform.
    pub open spec fn spec_link_mode(self) -> LinkMode {
        match self {
            Platform::Unix => LinkMode::Symlink,
            Platform::Windows => LinkMode::Copy,
        }
    }

    /// The character written between a directory and its child.
    pub open spec fn separator(self) -> char {
        match self {
            Platform::Unix => '/',
            Platform::Windows => '\\',
        }
    }

    /// Whether `c` ends a path component on this platform.
    pub open spec fn is_separator(self, c: char) -> bool {
        match self {
            Platform::Unix => c == '/',
            Platform::Windows => c == '/' || c == '\\',
        }
    }

    /// The file name of the SDK's main executable.
    pub open spec fn spec_executable(self) -> Seq<char> {
        match self {
            Platform::Unix => "flutter"@,
            Platform::Windows => "flutter.bat"@,
        }
    }

    /// The linking strategy of the platform: symbolic links everywhere but on
    /// Windows, where files are copied.
    #[verifier::when_used_as_spec(spec_link_mode)]
    pub fn link_mode(self) -> (mode: LinkMode)
        ensures
            mode == self.spec_link_mode(),
    {
        match self {
            Platform::Unix => LinkMode::Symlink,
            Platform::Windows => LinkMode::Copy,
        }
    }

    /// The file name of the SDK's main executable: `flutter`, or
    /// `flutter.bat` on Windows.
    pub fn executable(self) -> (name: &'static str)
        ensures
            name@ == self.spec_executable(),
    {
        match self {
            Platform::Unix => "flutter",
            Platform::Windows => "flutter.bat",
        }
    }
}

} // verus!
