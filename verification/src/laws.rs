//! What holds of every run of the installer, whatever its caller reports.

use crate::installer::{
    accepts, initial, output, pending_of, reaction, run, transition, Fatal, Phase, State, Target,
};
use crate::messages::{link_warning_text, COPY_NOTICE};
use crate::paths::{checkout_bin_of, child_path, LayoutView};
use crate::platform::{LinkMode, Platform};
use crate::scan::{is_linkable, name_of, plan_of, task_for, LinkTaskView, ScanEntryView};
use crate::workflow::{dir_status_of, is_write, ConsoleView, DirStatus, EventView, RequestView};
use vstd::prelude::*;

verus! {

/// Whether a run has ended in `phase`.
pub open spec fn has_ended(phase: Phase) -> bool {
    phase == Phase::Completed || phase is Aborted
}

/// The well-formedness of a state is kept by every event.
pub proof fn lemma_transition_keeps_wf(s: State, event: EventView)
    requires
        s.wf(),
    ensures
        transition(s, event).wf(),
{
}

/// A run that has ended accepts no event, and no series of events moves it:
/// nothing is asked for after the request to exit.
pub proof fn lemma_ended_run_stays(s: State, events: Seq<EventView>)
    requires
        has_ended(s.phase),
    ensures
        forall|event: EventView| !accepts(s.phase, event),
        run(s, events) == s,
        pending_of(s) is Exit,
    decreases events.len(),
{
    if events.len() > 0 {
        lemma_ended_run_stays(s, events.skip(1));
    }
}

/// How far a run has come, counted in answered requests at the most.
pub open spec fn progress(s: State) -> nat {
    match s.phase {
        Phase::ResolvingHome => 0,
        Phase::EnsuringDir(Target::Tools) => 1,
        Phase::EnsuringDir(Target::Checkout) => 2,
        Phase::EnsuringDir(Target::Bin) => 3,
        Phase::Cloning => 4,
        Phase::Scanning => 5,
        Phase::Linking => 6 + s.cursor,
        Phase::SettingUp => 6 + s.plan.len(),
        Phase::Completed => 7 + s.plan.len(),
        Phase::Aborted(_) => 7 + s.plan.len(),
    }
}

/// Nothing is tried a second time: every event that is accepted takes the
/// run further.
pub proof fn lemma_every_event_moves_on(s: State, event: EventView)
    requires
        s.wf(),
        accepts(s.phase, event),
    ensures
        progress(transition(s, event)) > progress(s),
{
}

/// A run is furthest at its end, seven steps and one for each file of the
/// plan from its start, and nowhere else as far.
pub proof fn lemma_progress_is_bounded(s: State)
    requires
        s.wf(),
    ensures
        progress(s) <= 7 + s.plan.len(),
        progress(s) == 7 + s.plan.len() <==> has_ended(s.phase),
{
}

/// The exit code is zero exactly when the run went through, and a request to
/// exit is open exactly when the run has ended.
pub proof fn lemma_exit_code(s: State)
    ensures
        pending_of(s) is Exit <==> has_ended(s.phase),
        pending_of(s) == (RequestView::Exit { code: 0 }) <==> s.phase == Phase::Completed,
        s.phase is Aborted ==> pending_of(s) == (RequestView::Exit { code: 1 }),
{
}

/// The events that report the given attempts to make a directory, in
/// order: for each, whether it was made and whether it is there.
pub open spec fn dir_checked(attempts: Seq<(bool, bool)>) -> Seq<EventView> {
    attempts.map_values(
        |a: (bool, bool)| EventView::DirChecked { created: a.0, exists: a.1 },
    )
}

/// Making sure of a target directory never ends the run: whatever the
/// attempt gave, the run moves on to the next request. A directory that is
/// there counts as ready and draws no warning, however the attempt to make
/// it went; so a second pass over directories that a first pass made or
/// found is silent.
pub proof fn lemma_ensuring_dirs_is_never_fatal(s: State, created: bool, exists: bool)
    requires
        s.phase is EnsuringDir,
    ensures
        accepts(s.phase, EventView::DirChecked { created, exists }),
        !has_ended(transition(s, EventView::DirChecked { created, exists }).phase),
        !(pending_of(transition(s, EventView::DirChecked { created, exists })) is Exit),
        dir_status_of(created, true) == DirStatus::Ready,
        exists ==> reaction(s, EventView::DirChecked { created, exists }) == Seq::<
            ConsoleView,
        >::empty(),
{
}

/// The three target directories are attempted one after the other, and
/// whatever the three attempts gave, the clone is asked for next.
pub proof fn lemma_dirs_then_clone(s: State, attempts: Seq<(bool, bool)>)
    requires
        s.phase == Phase::EnsuringDir(Target::Tools),
        attempts.len() == 3,
    ensures
        run(s, dir_checked(attempts)) == (State { phase: Phase::Cloning, ..s }),
        pending_of(run(s, dir_checked(attempts.take(1)))) == (RequestView::CreateDir {
            path: s.layout.checkout,
        }),
        pending_of(run(s, dir_checked(attempts.take(2)))) == (RequestView::CreateDir {
            path: s.layout.bin,
        }),
        pending_of(run(s, dir_checked(attempts))) is CloneRepository,
{
    reveal_with_fuel(run, 4);
    let events = dir_checked(attempts);
    assert(events.skip(1).skip(1).skip(1).len() == 0);
    assert(dir_checked(attempts.take(1)).skip(1).len() == 0);
    assert(dir_checked(attempts.take(2)).skip(1).skip(1).len() == 0);
}

/// Where the home directory cannot be resolved the run ends at once with a
/// non-zero exit code: from the first request to the last, whatever is
/// reported afterwards, no request is open that writes anything.
pub proof fn lemma_unresolved_home_ends_run(
    platform: Platform,
    with_setup: bool,
    later: Seq<EventView>,
)
    ensures
        !is_write(pending_of(initial(platform, with_setup))),
        run(
            initial(platform, with_setup),
            seq![EventView::Home { path: None }] + later,
        ).phase == Phase::Aborted(Fatal::HomeUnresolved),
        pending_of(
            run(initial(platform, with_setup), seq![EventView::Home { path: None }] + later),
        ) == (RequestView::Exit { code: 1 }),
{
    let s = initial(platform, with_setup);
    let events = seq![EventView::Home { path: None }] + later;
    assert(events.skip(1) =~= later);
    lemma_ended_run_stays(transition(s, events.first()), later);
}

/// Where the clone fails the run ends with a non-zero exit code and never
/// reaches the scan or a link, whatever is reported afterwards.
pub proof fn lemma_failed_clone_ends_run(s: State, later: Seq<EventView>)
    requires
        s.phase == Phase::Cloning,
    ensures
        run(s, seq![EventView::Cloned { ok: false }] + later).phase == Phase::Aborted(
            Fatal::CloneFailed,
        ),
        pending_of(run(s, seq![EventView::Cloned { ok: false }] + later)) == (RequestView::Exit {
            code: 1,
        }),
{
    let events = seq![EventView::Cloned { ok: false }] + later;
    assert(events.skip(1) =~= later);
    lemma_ended_run_stays(transition(s, events.first()), later);
}

/// A file that cannot be linked, for one because its target is there
/// already, draws one warning that names it and does not end the run: where
/// files are left the next one is asked for.
pub proof fn lemma_failed_link_is_a_warning(s: State)
    requires
        s.wf(),
        s.phase == Phase::Linking,
    ensures
        accepts(s.phase, EventView::Linked { ok: false }),
        reaction(s, EventView::Linked { ok: false }) == seq![
            ConsoleView::Line(link_warning_text(s.plan[s.cursor as int].name)),
        ],
        !(transition(s, EventView::Linked { ok: false }).phase is Aborted),
        s.cursor + 1 < s.plan.len() ==> pending_of(transition(s, EventView::Linked { ok: false }))
            == (RequestView::Link { task: s.plan[(s.cursor + 1) as int] }),
{
}

/// Every file is linked inside the layout and by the platform's strategy:
/// the request to link names a file of the checkout's bin folder as its
/// source and the entry of the same name in the unified bin folder as its
/// target, and on a platform that copies it asks for a copy.
pub proof fn lemma_links_stay_in_layout(s: State)
    requires
        s.wf(),
        s.phase == Phase::Linking,
    ensures
        pending_of(s) == (RequestView::Link {
            task: LinkTaskView {
                mode: s.platform.spec_link_mode(),
                name: s.plan[s.cursor as int].name,
                source: child_path(
                    s.platform,
                    checkout_bin_of(s.platform, s.layout),
                    s.plan[s.cursor as int].name,
                ),
                target: child_path(s.platform, s.layout.bin, s.plan[s.cursor as int].name),
            },
        }),
{
}

/// The events that report the given outcomes of links, in order.
pub open spec fn linked(outcomes: Seq<bool>) -> Seq<EventView> {
    outcomes.map_values(|ok: bool| EventView::Linked { ok })
}

/// Every file of the plan is asked for, whatever became of the files before
/// it: after any outcomes of the links so far, the next file of the plan is
/// the open request.
pub proof fn lemma_every_file_is_attempted(s: State, outcomes: Seq<bool>)
    requires
        s.phase == Phase::Linking,
        s.cursor + outcomes.len() < s.plan.len(),
    ensures
        run(s, linked(outcomes)) == (State { cursor: s.cursor + outcomes.len(), ..s }),
        pending_of(run(s, linked(outcomes))) == (RequestView::Link {
            task: s.plan[(s.cursor + outcomes.len()) as int],
        }),
    decreases outcomes.len(),
{
    if outcomes.len() > 0 {
        let next = transition(s, linked(outcomes).first());
        assert(linked(outcomes).skip(1) =~= linked(outcomes.skip(1)));
        lemma_every_file_is_attempted(next, outcomes.skip(1));
    }
}

/// On a platform that copies, the scan is asked for in one place only,
/// after a clone that succeeded, and the notice that files are copied is
/// the last thing said before it.
pub proof fn lemma_copy_notice_precedes_scan(s: State, event: EventView)
    requires
        s.platform.spec_link_mode() == LinkMode::Copy,
        accepts(s.phase, event),
        transition(s, event).phase == Phase::Scanning,
    ensures
        s.phase == Phase::Cloning,
        event == (EventView::Cloned { ok: true }),
        output(s, event).last() == ConsoleView::Line(COPY_NOTICE@),
        pending_of(transition(s, event)) is ScanDir,
{
}

/// Every task of a plan carries the platform's strategy: on a platform that
/// copies, every file is copied.
pub proof fn lemma_plan_uses_platform_mode(
    platform: Platform,
    layout: LayoutView,
    entries: Seq<ScanEntryView>,
    i: int,
)
    requires
        0 <= i < plan_of(platform, layout, entries).len(),
    ensures
        plan_of(platform, layout, entries)[i].mode == platform.spec_link_mode(),
{
}

/// Every entry of the scan that is a named file gets a task in the plan.
pub proof fn lemma_file_is_in_plan(
    platform: Platform,
    layout: LayoutView,
    entries: Seq<ScanEntryView>,
    i: int,
)
    requires
        0 <= i < entries.len(),
        is_linkable(entries[i]),
    ensures
        plan_of(platform, layout, entries).contains(
            task_for(platform, layout, name_of(entries[i])),
        ),
{
    let keep = |e: ScanEntryView| is_linkable(e);
    let files = entries.filter(keep);
    entries.lemma_filter_contains(keep, i);
    let k = choose|k: int| 0 <= k < files.len() && files[k] == entries[i];
    assert(plan_of(platform, layout, entries)[k] == task_for(
        platform,
        layout,
        name_of(entries[i]),
    ));
}

/// Every task of a plan links a named file of the scan: no directory, no
/// unreadable entry and no entry without a name gets one. A plan is no
/// longer than the scan.
pub proof fn lemma_task_comes_from_file(
    platform: Platform,
    layout: LayoutView,
    entries: Seq<ScanEntryView>,
    j: int,
)
    requires
        0 <= j < plan_of(platform, layout, entries).len(),
    ensures
        plan_of(platform, layout, entries).len() <= entries.len(),
        exists|i: int|
            0 <= i < entries.len() && is_linkable(#[trigger] entries[i]) && plan_of(
                platform,
                layout,
                entries,
            )[j] == task_for(platform, layout, name_of(entries[i])),
{
    let keep = |e: ScanEntryView| is_linkable(e);
    let files = entries.filter(keep);
    entries.lemma_filter_len(keep);
    entries.lemma_filter_pred(keep, j);
    entries.lemma_filter_contains_rev(keep, files[j]);
    let i = choose|i: int| 0 <= i < entries.len() && entries[i] == files[j];
    assert(is_linkable(entries[i]));
}

} // verus!
