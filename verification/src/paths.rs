//! Paths as text, and the fixed directory layout below the home directory.

use crate::platform::Platform;
use vstd::prelude::*;
use vstd::string::*;

verus! {

/// The path of `name` inside the directory `base`: the two joined by the
/// platform's separator, which is left out where `base` is empty or already
/// ends in a separator.
pub open spec fn child_path(platform: Platform, base: Seq<char>, name: Seq<char>) -> Seq<char> {
    if base.len() == 0 || platform.is_separator(base.last()) {
        base + name
    } else {
        base.push(platform.separator()) + name
    }
}

/// Builds the path of `name` inside the directory `base`.
pub fn join(platform: Platform, base: &str, name: &str) -> (path: String)
    ensures
        path@ == child_path(platform, base@, name@),
{
    let mut path = base.to_owned();
    let len = base.unicode_len();
    let open_ended = if len == 0 {
        false
    } else {
        let last = base.get_char(len - 1);
        match platform {
            Platform::Unix => last != '/',
            Platform::Windows => last != '/' && last != '\\',
        }
    };
    if open_ended {
        match platform {
            Platform::Unix => {
                proof {
                    reveal_strlit("/");
                }
                path.append("/");
            },
            Platform::Windows => {
                proof {
                    reveal_strlit("\\");
                }
                path.append("\\");
            },
        }
        assert(path@ =~= base@.push(platform.separator()));
    }
    path.append(name);
    path
}

/// The three directories the installer works in.
#[derive(Debug, PartialEq, Eq)]
pub struct Layout {
    /// The container of everything the installer makes: `<home>/.tools`.
    pub tools: String,
    /// The clone of the SDK repository: `<home>/.tools/flutter`.
    pub checkout: String,
    /// The flat folder of links the user puts on their path: `<home>/.tools/bin`.
    pub bin: String,
}

impl Clone for Layout {
    fn clone(&self) -> (copy: Layout)
        ensures
            copy.deep_view() == self.deep_view(),
    {
        Layout {
            tools: self.tools.clone(),
            checkout: self.checkout.clone(),
            bin: self.bin.clone(),
        }
    }
}

/// A [`Layout`] as plain text.
pub struct LayoutView {
    pub tools: Seq<char>,
    pub checkout: Seq<char>,
    pub bin: Seq<char>,
}

impl DeepView for Layout {
    type V = LayoutView;

    open spec fn deep_view(&self) -> LayoutView {
        LayoutView { tools: self.tools@, checkout: self.checkout@, bin: self.bin@ }
    }
}

/// The layout below the home directory `home`.
pub open spec fn layout_of(platform: Platform, home: Seq<char>) -> LayoutView {
    let tools = child_path(platform, home, ".tools"@);
    LayoutView {
        tools,
        checkout: child_path(platform, tools, "flutter"@),
        bin: child_path(platform, tools, "bin"@),
    }
}

/// The folder of the checkout whose files are linked: `<checkout>/bin`.
pub open spec fn checkout_bin_of(platform: Platform, layout: LayoutView) -> Seq<char> {
    child_path(platform, layout.checkout, "bin"@)
}

/// The SDK's main executable as it is found in the unified bin folder.
pub open spec fn setup_program_of(platform: Platform, layout: LayoutView) -> Seq<char> {
    child_path(platform, layout.bin, platform.spec_executable())
}

impl Layout {
    /// Derives the three target directories from the home directory.
    pub fn for_home(platform: Platform, home: &str) -> (layout: Layout)
        ensures
            layout.deep_view() == layout_of(platform, home@),
    {
        let tools = join(platform, home, ".tools");
        let checkout = join(platform, tools.as_str(), "flutter");
        let bin = join(platform, tools.as_str(), "bin");
        Layout { tools, checkout, bin }
    }

    /// The folder of the checkout whose files are linked.
    pub fn checkout_bin(&self, platform: Platform) -> (path: String)
        ensures
            path@ == checkout_bin_of(platform, self.deep_view()),
    {
        join(platform, self.checkout.as_str(), "bin")
    }

    /// The SDK's main executable as it is found in the unified bin folder.
    pub fn setup_program(&self, platform: Platform) -> (path: String)
        ensures
            path@ == setup_program_of(platform, self.deep_view()),
    {
        join(platform, self.bin.as_str(), platform.executable())
    }
}

} // verus!
