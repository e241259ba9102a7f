//! What holds of whole runs of the pipeline, whatever the outcomes reported.
use vstd::prelude::*;
use crate::fetch::{lemma_single_top_level_dir, StagedEntry};
use crate::layout::{join, staging_dir_of};
use crate::link_plan::directives_of;
use crate::native_build::{invocation_of, next_phase, BuildPhase};
use crate::pipeline::{
    build_dir_in, next, run_of, source_of, staging_of, is_success_status, ActionView, Event,
    Failure, ProvisionerView, Stage,
};

verus! {

/// The state after the first `i` of `events`, starting from `s`.
pub open spec fn state_after(s: ProvisionerView, events: Seq<Event>, i: nat) -> ProvisionerView
    decreases i,
{
    if i == 0 {
        s
    } else {
        next(state_after(s, events, (i - 1) as nat), events[i - 1]).0
    }
}

/// The action returned for `events[i]`.
pub open spec fn action_at(s: ProvisionerView, events: Seq<Event>, i: nat) -> ActionView {
    next(state_after(s, events, i), events[i as int]).1
}

/// An action that touches the network or the source tree.
pub open spec fn fetches(a: ActionView) -> bool {
    a is Download || a is Unpack || a is ListDir || a is Rename || a is RemoveDir
}

/// An action of fetching, or of building (an external process or the build directory).
pub open spec fn fetches_or_builds(a: ActionView) -> bool {
    fetches(a) || a is CreateDir || a is Run
}

pub open spec fn past_build(stage: Stage) -> bool {
    stage is Declaring || stage is Generating || stage is Finished || stage is Aborted
}

pub open spec fn past_fetch(stage: Stage) -> bool {
    stage is PreparingBuild || stage is Running || past_build(stage)
}

proof fn lemma_past_build_step(s: ProvisionerView, e: Event)
    requires
        past_build(s.stage),
    ensures
        past_build(next(s, e).0.stage),
        !fetches_or_builds(next(s, e).1),
{
}

proof fn lemma_past_fetch_step(s: ProvisionerView, e: Event)
    requires
        past_fetch(s.stage),
    ensures
        past_fetch(next(s, e).0.stage),
        !fetches(next(s, e).1),
{
}

proof fn lemma_past_build_stays(s: ProvisionerView, events: Seq<Event>, j: nat, i: nat)
    requires
        past_build(state_after(s, events, j).stage),
        j <= i <= events.len(),
    ensures
        past_build(state_after(s, events, i).stage),
    decreases i - j,
{
    if i > j {
        lemma_past_build_stays(s, events, j, (i - 1) as nat);
        lemma_past_build_step(state_after(s, events, (i - 1) as nat), events[i - 1]);
    }
}

proof fn lemma_past_fetch_stays(s: ProvisionerView, events: Seq<Event>, j: nat, i: nat)
    requires
        past_fetch(state_after(s, events, j).stage),
        j <= i <= events.len(),
    ensures
        past_fetch(state_after(s, events, i).stage),
    decreases i - j,
{
    if i > j {
        lemma_past_fetch_stays(s, events, j, (i - 1) as nat);
        lemma_past_fetch_step(state_after(s, events, (i - 1) as nat), events[i - 1]);
    }
}

/// With the static archive and the header tree already installed, the run
/// goes straight to declaring the link plan: it never fetches, never creates
/// the build directory and never starts a process, whatever comes after.
pub proof fn law_installed_skips_fetch_and_build(s: ProvisionerView, events: Seq<Event>)
    requires
        s.stage is CheckingInstall,
        events.len() > 0,
        events[0] matches Event::Present(true),
    ensures
        action_at(s, events, 0) == (ActionView::Declare { directives: directives_of(s.install_root) }),
        forall|i: nat| i < events.len() ==> !fetches_or_builds(#[trigger] action_at(s, events, i)),
{
    assert forall|i: nat| i < events.len() implies !fetches_or_builds(
        #[trigger] action_at(s, events, i),
    ) by {
        assert(state_after(s, events, 1) == next(s, events[0]).0);
        if i > 0 {
            lemma_past_build_stays(s, events, 1, i);
            lemma_past_build_step(state_after(s, events, i), events[i as int]);
        }
    }
}


/// With the release already unpacked in the source root, the run makes no
/// network request and touches nothing under the source root but its build
/// directory, which it takes inside the existing source directory.
pub proof fn law_unpacked_source_skips_fetch(s: ProvisionerView, events: Seq<Event>)
    requires
        s.stage is CheckingSource,
        events.len() > 0,
        events[0] matches Event::Present(true),
    ensures
        action_at(s, events, 0) == (ActionView::CreateDir { dir: build_dir_in(s) }),
        forall|i: nat| i < events.len() ==> !fetches(#[trigger] action_at(s, events, i)),
{
    assert forall|i: nat| i < events.len() implies !fetches(#[trigger] action_at(s, events, i)) by {
        assert(state_after(s, events, 1) == next(s, events[0]).0);
        if i > 0 {
            lemma_past_fetch_stays(s, events, 1, i);
            lemma_past_fetch_step(state_after(s, events, i), events[i as int]);
        }
    }
}

/// Of an unpacked archive with exactly one top-level directory among any
/// number of plain files, that directory is the one moved to the source
/// location.
pub proof fn law_single_top_level_dir_moved(s: ProvisionerView, entries: Vec<StagedEntry>, k: int)
    requires
        s.stage is Locating,
        0 <= k < entries@.len(),
        entries@[k].is_dir,
        forall|j: int| 0 <= j < entries@.len() && j != k ==> !(#[trigger] entries@[j]).is_dir,
    ensures
        next(s, Event::Entries(entries)).1 == (ActionView::Rename {
            from: join(staging_of(s), entries@[k].name@),
            to: source_of(s),
        }),
{
    lemma_single_top_level_dir(entries@, k);
}

/// A download answered with a non-success status ends the run at once: from
/// then on only that failure is reported, so nothing is unpacked, no source
/// directory is created and nothing is built.
pub proof fn law_failed_download_aborts(s: ProvisionerView, events: Seq<Event>, status: u16)
    requires
        s.stage is Downloading,
        events.len() > 0,
        events[0] == Event::Status(status),
        !is_success_status(status),
    ensures
        forall|i: nat| i < events.len() ==> #[trigger] action_at(s, events, i) == ActionView::Abort(
            Failure::HttpStatus(status),
        ),
        forall|i: nat|
            0 < i <= events.len() ==> (#[trigger] state_after(s, events, i)).stage is Aborted,
{
    assert forall|i: nat| 0 < i <= events.len() implies (#[trigger] state_after(
        s,
        events,
        i,
    )).stage is Aborted && state_after(s, events, i).failure == Some(Failure::HttpStatus(status)) by {
        lemma_aborted_stays(s, events, i);
    }
    assert forall|i: nat| i < events.len() implies #[trigger] action_at(s, events, i)
        == ActionView::Abort(Failure::HttpStatus(status)) by {
        if i > 0 {
            lemma_aborted_stays(s, events, i);
        }
    }
}

proof fn lemma_aborted_stays(s: ProvisionerView, events: Seq<Event>, i: nat)
    requires
        s.stage is Downloading,
        events.len() > 0,
        events[0] matches Event::Status(status) && !is_success_status(status),
        0 < i <= events.len(),
    ensures
        state_after(s, events, i).stage is Aborted,
        state_after(s, events, i).failure == Some(Failure::HttpStatus(events[0]->Status_0)),
    decreases i,
{
    let u = state_after(s, events, (i - 1) as nat);
    assert(state_after(s, events, i) == next(u, events[i - 1]).0);
    if i > 1 {
        lemma_aborted_stays(s, events, (i - 1) as nat);
    } else {
        assert(u == s);
    }
}

/// The step that enters a build phase is the one that asks for its process,
/// and the step that enters cleanup is the one that asks to remove the
/// staging directory.
proof fn lemma_entry_action(s: ProvisionerView, e: Event)
    ensures
        next(s, e).0.stage matches Stage::Running(p) ==> next(s, e).1 == run_of(next(s, e).0, p),
        next(s, e).0.stage is CleaningUp ==> next(s, e).1 == (ActionView::RemoveDir {
            dir: staging_of(next(s, e).0),
        }),
        next(s, e).0.source_root == s.source_root || s.stage is ResolvingPaths,
        next(s, e).0.install_root == s.install_root || s.stage is ResolvingPaths,
{
}

/// A process of a later phase is asked for only from the phase before it.
proof fn lemma_run_follows(s: ProvisionerView, e: Event)
    requires
        next(s, e).1 matches ActionView::Run(inv) && inv.phase != BuildPhase::Configure,
    ensures
        s.stage matches Stage::Running(p) && next_phase(p) == Some(next(s, e).1->Run_0.phase)
            && next(s, e).1 == run_of(s, next(s, e).1->Run_0.phase),
{
}

/// The build, then the install, each run right after the phase before it
/// succeeded, in the same build directory and for the same install root
/// that the configure step was given as its prefix.
pub proof fn law_build_phases_in_order(s: ProvisionerView, events: Seq<Event>, i: nat)
    requires
        !(s.stage is Running),
        i < events.len(),
        action_at(s, events, i) matches ActionView::Run(inv) && inv.phase != BuildPhase::Configure,
    ensures
        i > 0,
        exists|p: BuildPhase, dir: Seq<char>, install_root: Seq<char>|
            next_phase(p) == Some(action_at(s, events, i)->Run_0.phase)
                && #[trigger] action_at(s, events, (i - 1) as nat) == ActionView::Run(
                invocation_of(p, dir, install_root),
            ) && action_at(s, events, i) == ActionView::Run(
                invocation_of(action_at(s, events, i)->Run_0.phase, dir, install_root),
            ),
{
    let t = state_after(s, events, i);
    lemma_run_follows(t, events[i as int]);
    let p = t.stage->Running_0;
    if i > 0 {
        let u = state_after(s, events, (i - 1) as nat);
        assert(t == next(u, events[i - 1]).0);
        lemma_entry_action(u, events[i - 1]);
        let dir = build_dir_in(t);
        assert(action_at(s, events, (i - 1) as nat) == ActionView::Run(
            invocation_of(p, dir, t.install_root),
        ));
    }
}

/// A run counts the release as fetched only once the staging directory has
/// been removed: the step before asked for its removal and the removal was
/// reported done.
pub proof fn law_staging_removed_before_fetched(s: ProvisionerView, events: Seq<Event>, i: nat)
    requires
        !(s.stage is CleaningUp),
        i < events.len(),
        !state_after(s, events, i).fetched,
        state_after(s, events, i + 1).fetched,
    ensures
        i > 0,
        events[i as int] is Completed,
        action_at(s, events, (i - 1) as nat) == (ActionView::RemoveDir {
            dir: staging_dir_of(state_after(s, events, i).source_root),
        }),
{
    let t = state_after(s, events, i);
    assert(state_after(s, events, i + 1) == next(t, events[i as int]).0);
    assert(t.stage is CleaningUp);
    if i > 0 {
        let u = state_after(s, events, (i - 1) as nat);
        lemma_entry_action(u, events[i - 1]);
    }
}

} // verus!
