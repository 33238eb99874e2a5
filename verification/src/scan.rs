//! The bin linker's plan: which entries of the checkout's bin folder are
//! linked, from where and to where.

use crate::paths::{checkout_bin_of, child_path, join, Layout, LayoutView};
use crate::platform::{LinkMode, Platform};
use vstd::prelude::*;
use vstd::string::*;

verus! {

/// One immediate child of the checkout's bin folder, as the scan reported it.
#[derive(Debug, PartialEq, Eq)]
pub enum ScanEntry {
    /// The entry could not be read.
    Unreadable,
    /// The entry was read.
    Found {
        /// Whether the entry is a directory.
        is_dir: bool,
        /// The entry's file name, where one could be determined.
        name: Option<String>,
    },
}

/// A [`ScanEntry`] as plain values.
pub enum ScanEntryView {
    Unreadable,
    Found { is_dir: bool, name: Option<Seq<char>> },
}

impl DeepView for ScanEntry {
    type V = ScanEntryView;

    open spec fn deep_view(&self) -> ScanEntryView {
        match self {
            ScanEntry::Unreadable => ScanEntryView::Unreadable,
            ScanEntry::Found { is_dir, name } => ScanEntryView::Found {
                is_dir: *is_dir,
                name: name.deep_view(),
            },
        }
    }
}

/// One file to be linked or copied into the unified bin folder.
#[derive(Debug, PartialEq, Eq)]
pub struct LinkTask {
    /// Whether to link or to copy.
    pub mode: LinkMode,
    /// The file's name, as the warning gives it when the link fails.
    pub name: String,
    /// The file inside the checkout's bin folder.
    pub source: String,
    /// The entry to make inside the unified bin folder.
    pub target: String,
}

/// A [`LinkTask`] as plain values.
pub struct LinkTaskView {
    pub mode: LinkMode,
    pub name: Seq<char>,
    pub source: Seq<char>,
    pub target: Seq<char>,
}

impl DeepView for LinkTask {
    type V = LinkTaskView;

    open spec fn deep_view(&self) -> LinkTaskView {
        LinkTaskView {
            mode: self.mode,
            name: self.name@,
            source: self.source@,
            target: self.target@,
        }
    }
}

impl Clone for LinkTask {
    fn clone(&self) -> (copy: LinkTask)
        ensures
            copy.deep_view() == self.deep_view(),
    {
        LinkTask {
            mode: self.mode,
            name: self.name.clone(),
            source: self.source.clone(),
            target: self.target.clone(),
        }
    }
}

/// Whether an entry is linked: it was read, is no directory and has a name.
pub open spec fn is_linkable(entry: ScanEntryView) -> bool {
    entry matches ScanEntryView::Found { is_dir, name } && !is_dir && name is Some
}

/// The name of a linkable entry.
pub open spec fn name_of(entry: ScanEntryView) -> Seq<char>
    recommends
        is_linkable(entry),
{
    entry->name->0
}

/// The task that links the file called `name`.
pub open spec fn task_for(platform: Platform, layout: LayoutView, name: Seq<char>) -> LinkTaskView {
    LinkTaskView {
        mode: platform.spec_link_mode(),
        name,
        source: child_path(platform, checkout_bin_of(platform, layout), name),
        target: child_path(platform, layout.bin, name),
    }
}

/// The plan for a scan: one task for each linkable entry, in the order of
/// the scan.
pub open spec fn plan_of(
    platform: Platform,
    layout: LayoutView,
    entries: Seq<ScanEntryView>,
) -> Seq<LinkTaskView> {
    entries.filter(|e: ScanEntryView| is_linkable(e)).map_values(
        |e: ScanEntryView| task_for(platform, layout, name_of(e)),
    )
}

/// Draws up the plan for a scan of the checkout's bin folder: directories,
/// unreadable entries and entries without a name are passed over, every
/// other entry gets one task, in the order of the scan.
pub fn link_plan(
    platform: Platform,
    layout: &Layout,
    entries: &Vec<ScanEntry>,
) -> (plan: Vec<LinkTask>)
    ensures
        plan.deep_view() == plan_of(platform, layout.deep_view(), entries.deep_view()),
{
    let from = layout.checkout_bin(platform);
    let mut plan: Vec<LinkTask> = Vec::new();
    let ghost all = entries.deep_view();
    let ghost keep = |e: ScanEntryView| is_linkable(e);
    let ghost make = |e: ScanEntryView| task_for(platform, layout.deep_view(), name_of(e));
    let mut i: usize = 0;
    assert(all.take(0).filter(keep) =~= Seq::empty()) by {
        all.take(0).lemma_filter_len(keep);
    }
    while i < entries.len()
        invariant
            0 <= i <= entries.len(),
            all == entries.deep_view(),
            keep == |e: ScanEntryView| is_linkable(e),
            make == |e: ScanEntryView| task_for(platform, layout.deep_view(), name_of(e)),
            from@ == checkout_bin_of(platform, layout.deep_view()),
            plan.deep_view() == all.take(i as int).filter(keep).map_values(make),
        decreases entries.len() - i,
    {
        let ghost before = plan.deep_view();
        proof {
            assert(all.take(i + 1) =~= all.take(i as int).push(all[i as int]));
            all.take(i as int).lemma_filter_push(all[i as int], keep);
        }
        match &entries[i] {
            ScanEntry::Found { is_dir: false, name: Some(name) } => {
                let task = LinkTask {
                    mode: platform.link_mode(),
                    name: name.clone(),
                    source: join(platform, from.as_str(), name.as_str()),
                    target: join(platform, layout.bin.as_str(), name.as_str()),
                };
                plan.push(task);
                assert(plan.deep_view() =~= before.push(make(all[i as int])));
            },
            _ => {},
        }
        i += 1;
    }
    assert(all.take(i as int) =~= all);
    plan
}

} // verus!
