//! What holds of every run of the sequence, whatever the operating system
//! returns and whatever the caller reports.
//!
//! A run is the list of events reported to a sequence since it began. The
//! state it leads to and the actions issued on the way are functions of that
//! list alone.

use crate::disposition::{lemma_extended_flags, strategies, DispositionRequest};
use crate::error::SelfDeleteError;
use crate::handle::{call_succeeded, is_valid_handle};
use crate::path::path_reported;
use crate::sequence::{
    idle, initial, initial_action, next, stop, ActionView, EventView, SequenceView, Stage,
};
use vstd::prelude::*;

verus! {

/// The state after the events of a run.
pub open spec fn state_after(events: Seq<EventView>) -> SequenceView
    decreases events.len(),
{
    if events.len() == 0 {
        initial()
    } else {
        next(state_after(events.drop_last()), events.last()).0
    }
}

/// The actions issued in a run: the one it began with, then one for each
/// event.
pub open spec fn actions_of(events: Seq<EventView>) -> Seq<ActionView>
    decreases events.len(),
{
    if events.len() == 0 {
        seq![initial_action()]
    } else {
        actions_of(events.drop_last()).push(
            next(state_after(events.drop_last()), events.last()).1,
        )
    }
}

/// The handles that the opens of a run yielded, in order: the raw value of
/// each open that was awaited and returned a value that names a file.
pub open spec fn opened(events: Seq<EventView>) -> Seq<isize>
    decreases events.len(),
{
    if events.len() == 0 {
        Seq::empty()
    } else {
        let before = state_after(events.drop_last());
        let earlier = opened(events.drop_last());
        match events.last() {
            EventView::OpenReturned { raw, .. } => if (before.stage == Stage::PathResolved
                || before.stage == Stage::PathResolved2) && is_valid_handle(raw) {
                earlier.push(raw)
            } else {
                earlier
            },
            _ => earlier,
        }
    }
}

/// The handles that a list of actions releases, in order.
pub open spec fn released(actions: Seq<ActionView>) -> Seq<isize>
    decreases actions.len(),
{
    if actions.len() == 0 {
        Seq::empty()
    } else {
        match actions.last() {
            ActionView::Release { handle } => released(actions.drop_last()).push(handle),
            _ => released(actions.drop_last()),
        }
    }
}

/// The handle that a state holds, as a list of one or none.
pub open spec fn held_now(s: SequenceView) -> Seq<isize> {
    match s.held {
        Some(raw) => seq![raw],
        None => Seq::empty(),
    }
}

/// How often each kind of step was asked for.
pub struct Tally {
    pub resolves: nat,
    pub opens: nat,
    pub renames: nat,
    pub disposals: nat,
    pub releases: nat,
}

/// The tally with one more action counted; the end of the sequence and an
/// answer to a stray event are no steps.
pub open spec fn counted(tally: Tally, action: ActionView) -> Tally {
    match action {
        ActionView::ResolvePath { .. } => Tally { resolves: tally.resolves + 1, ..tally },
        ActionView::Open { .. } => Tally { opens: tally.opens + 1, ..tally },
        ActionView::Rename { .. } => Tally { renames: tally.renames + 1, ..tally },
        ActionView::Dispose { .. } => Tally { disposals: tally.disposals + 1, ..tally },
        ActionView::Release { .. } => Tally { releases: tally.releases + 1, ..tally },
        ActionView::Finish { .. } => tally,
        ActionView::Await => tally,
    }
}

/// The tally of a list of actions.
pub open spec fn tally_of(actions: Seq<ActionView>) -> Tally
    decreases actions.len(),
{
    if actions.len() == 0 {
        Tally { resolves: 0, opens: 0, renames: 0, disposals: 0, releases: 0 }
    } else {
        counted(tally_of(actions.drop_last()), actions.last())
    }
}

/// The steps that lie behind a state: each stage is reached by one list of
/// steps, and a failure by the steps up to the one that failed.
pub open spec fn steps_behind(s: SequenceView, tally: Tally) -> bool {
    let first_pass = tally.resolves == 1 && tally.disposals == 0;
    let second_pass = tally.resolves == 2 && tally.opens == 2 && tally.renames == 1;
    match s.stage {
        Stage::Start => first_pass && tally.opens == 0 && tally.renames == 0 && tally.releases
            == 0,
        Stage::PathResolved => first_pass && tally.opens == 1 && tally.renames == 0
            && tally.releases == 0,
        Stage::HandleOpened1 => first_pass && tally.opens == 1 && tally.renames == 1
            && tally.releases == 0,
        Stage::Renamed => first_pass && tally.opens == 1 && tally.renames == 1 && tally.releases
            == 1,
        Stage::HandleClosed1 => tally.resolves == 2 && tally.opens == 1 && tally.renames == 1
            && tally.disposals == 0 && tally.releases == 1,
        Stage::PathResolved2 => second_pass && tally.disposals == 0 && tally.releases == 1,
        Stage::HandleOpened2 => second_pass && tally.disposals == s.attempt + 1 && tally.releases
            == 1,
        Stage::DispositionMarked | Stage::Done => second_pass && 1 <= tally.disposals
            <= strategies().len() && tally.releases == 2,
        Stage::Failed(SelfDeleteError::PathResolutionFailed) => tally.opens + 1 == tally.resolves
            <= 2 && tally.renames == tally.opens && tally.releases == tally.opens
            && tally.disposals == 0,
        Stage::Failed(SelfDeleteError::HandleOpenFailed(_)) => 1 <= tally.opens == tally.resolves
            <= 2 && tally.renames + 1 == tally.opens && tally.releases == tally.renames
            && tally.disposals == 0,
        Stage::Failed(SelfDeleteError::RenameFailed(_)) => first_pass && tally.opens == 1
            && tally.renames == 1 && tally.releases == 1,
        Stage::Failed(SelfDeleteError::DispositionFailed(_)) => second_pass && tally.disposals
            == strategies().len() && tally.releases == 2,
    }
}

/// One more action adds its handle to those released, if it is a release,
/// and counts as one step of its kind.
proof fn lemma_action_counted(actions: Seq<ActionView>, action: ActionView)
    ensures
        released(actions.push(action)) == match action {
            ActionView::Release { handle } => released(actions).push(handle),
            _ => released(actions),
        },
        tally_of(actions.push(action)) == counted(tally_of(actions), action),
{
    assert(actions.push(action).drop_last() == actions);
}

/// Every state of a run is well formed; the handles released and the one
/// still held are the handles opened, in order; and the steps taken are
/// those that lie behind the state.
pub proof fn lemma_run(events: Seq<EventView>)
    ensures
        state_after(events).well_formed(),
        released(actions_of(events)) + held_now(state_after(events)) == opened(events),
        steps_behind(state_after(events), tally_of(actions_of(events))),
        actions_of(events).len() == events.len() + 1,
    decreases events.len(),
{
    if events.len() == 0 {
        lemma_action_counted(Seq::empty(), initial_action());
        assert(Seq::<ActionView>::empty().push(initial_action()) == seq![initial_action()]);
    } else {
        let earlier = events.drop_last();
        lemma_run(earlier);
        lemma_action_counted(actions_of(earlier), next(state_after(earlier), events.last()).1);
    }
}

/// The stage that follows a stage when its step succeeds; the last stage
/// and a failure are followed by themselves.
pub open spec fn successor(stage: Stage) -> Stage {
    match stage {
        Stage::Start => Stage::PathResolved,
        Stage::PathResolved => Stage::HandleOpened1,
        Stage::HandleOpened1 => Stage::Renamed,
        Stage::Renamed => Stage::HandleClosed1,
        Stage::HandleClosed1 => Stage::PathResolved2,
        Stage::PathResolved2 => Stage::HandleOpened2,
        Stage::HandleOpened2 => Stage::DispositionMarked,
        Stage::DispositionMarked => Stage::Done,
        Stage::Done => Stage::Done,
        Stage::Failed(error) => Stage::Failed(error),
    }
}

/// A transition leaves the stage as it is, moves to the stage that follows
/// it, or fails; it never goes back and never skips a stage. The stage
/// stays only where the event is a stray one, where the sequence is over,
/// or where a rejected disposition moves on to the next way of marking.
pub proof fn lemma_stages_follow_in_order(s: SequenceView, event: EventView)
    requires
        s.well_formed(),
    ensures
        ({
            let (after, action) = next(s, event);
            ||| after.stage == successor(s.stage)
            ||| after.stage is Failed
            ||| after == s && action is Await
            ||| after.stage == s.stage && s.stage == Stage::HandleOpened2 && after.held == s.held
                && after.attempt == s.attempt + 1 && action is Dispose
        }),
{
}

/// An open that returns a value that names no file is a failure with the
/// error code that came with it, at the first open and at the second: no
/// such value is ever held, renamed through or released.
pub proof fn lemma_refused_open_is_a_failure(s: SequenceView, raw: isize, last_error: u32)
    requires
        s.well_formed(),
        s.stage == Stage::PathResolved || s.stage == Stage::PathResolved2,
        !is_valid_handle(raw),
    ensures
        next(s, EventView::OpenReturned { raw, last_error }) == stop(
            SelfDeleteError::HandleOpenFailed(last_error),
        ),
{
}

/// The transition keeps a state well formed.
pub proof fn lemma_next_well_formed(s: SequenceView, event: EventView)
    requires
        s.well_formed(),
    ensures
        next(s, event).0.well_formed(),
{
}

/// A sequence that is over stays as it is: every further event is answered
/// with its result.
pub proof fn lemma_finished_stays(s: SequenceView, event: EventView)
    requires
        s.finished(),
    ensures
        s.result() is Some,
        next(s, event) == (s, ActionView::Finish { result: s.result()->0 }),
{
}

/// Every handle that a run opened is released once, in the order of the
/// opens, but for the one still held; a value that names no file is never
/// released; and once the run is over nothing is held.
pub proof fn lemma_each_handle_released_once(events: Seq<EventView>)
    ensures
        released(actions_of(events)) + held_now(state_after(events)) == opened(events),
        forall|i: int|
            0 <= i < released(actions_of(events)).len() ==> is_valid_handle(
                #[trigger] released(actions_of(events))[i],
            ),
        state_after(events).finished() ==> released(actions_of(events)) == opened(events),
        released(actions_of(events)).len() == tally_of(actions_of(events)).releases,
        opened(events).len() <= 2,
{
    lemma_run(events);
    lemma_opened_valid(events);
    lemma_released_len(actions_of(events));
    let done = released(actions_of(events));
    let all = opened(events);
    assert forall|i: int| 0 <= i < done.len() implies is_valid_handle(#[trigger] done[i]) by {
        assert(done[i] == all[i]);
    }
    if state_after(events).finished() {
        assert(done + Seq::<isize>::empty() == done);
    }
}

/// Every handle that a run opened names a file.
proof fn lemma_opened_valid(events: Seq<EventView>)
    ensures
        forall|i: int| 0 <= i < opened(events).len() ==> is_valid_handle(#[trigger] opened(events)[i]),
    decreases events.len(),
{
    if events.len() > 0 {
        let earlier = opened(events.drop_last());
        lemma_opened_valid(events.drop_last());
        assert forall|i: int| 0 <= i < opened(events).len() implies is_valid_handle(
            #[trigger] opened(events)[i],
        ) by {
            if i < earlier.len() {
                assert(opened(events)[i] == earlier[i]);
            }
        }
    }
}

/// As many handles are released as releases are counted.
proof fn lemma_released_len(actions: Seq<ActionView>)
    ensures
        released(actions).len() == tally_of(actions).releases,
    decreases actions.len(),
{
    if actions.len() > 0 {
        lemma_released_len(actions.drop_last());
    }
}

/// No step is asked for more often than the sequence has it: the path
/// twice, the open twice, the rename once, the disposition once for each
/// way of marking, the release twice.
pub proof fn lemma_no_step_repeated(events: Seq<EventView>)
    ensures
        tally_of(actions_of(events)).resolves <= 2,
        tally_of(actions_of(events)).opens <= 2,
        tally_of(actions_of(events)).renames <= 1,
        tally_of(actions_of(events)).disposals <= strategies().len(),
        tally_of(actions_of(events)).releases <= tally_of(actions_of(events)).opens,
{
    lemma_run(events);
}

/// A disposition is asked for only after the rename was made and the
/// handle it was made through was released.
pub proof fn lemma_disposal_follows_rename(events: Seq<EventView>)
    requires
        tally_of(actions_of(events)).disposals > 0,
    ensures
        tally_of(actions_of(events)).renames == 1,
        tally_of(actions_of(events)).releases >= 1,
        tally_of(actions_of(events)).opens == 2,
{
    lemma_run(events);
}

/// A run that ends well has taken every step: both path queries, both
/// opens, the rename, a disposition and both releases.
pub proof fn lemma_done_took_every_step(events: Seq<EventView>)
    requires
        state_after(events).stage == Stage::Done,
    ensures
        tally_of(actions_of(events)) == (Tally {
            resolves: 2,
            opens: 2,
            renames: 1,
            disposals: tally_of(actions_of(events)).disposals,
            releases: 2,
        }),
        1 <= tally_of(actions_of(events)).disposals <= strategies().len(),
        opened(events).len() == 2,
        released(actions_of(events)) == opened(events),
{
    lemma_run(events);
    lemma_each_handle_released_once(events);
}

/// The first way of marking that is asked for, on the handle that the
/// second open yielded, is the extended one with both flags set.
pub proof fn lemma_extended_is_tried_first(raw: isize, last_error: u32)
    requires
        is_valid_handle(raw),
    ensures
        next(idle(Stage::PathResolved2), EventView::OpenReturned { raw, last_error }) == (
            SequenceView { stage: Stage::HandleOpened2, held: Some(raw), attempt: 0 },
            ActionView::Dispose {
                handle: raw,
                disposition: DispositionRequest::Extended { flags: 3 },
            },
        ),
{
    lemma_extended_flags();
}

/// When the extended disposition is accepted the handle is released at
/// once: the legacy one is not asked for.
pub proof fn lemma_first_success_ends_the_search(handle: isize, result: i32, last_error: u32)
    requires
        is_valid_handle(handle),
        call_succeeded(result),
    ensures
        next(
            SequenceView { stage: Stage::HandleOpened2, held: Some(handle), attempt: 0 },
            EventView::InformationSet { result, last_error },
        ) == (idle(Stage::DispositionMarked), ActionView::Release { handle }),
{
}

/// When the extended disposition is rejected, whatever the error code, the
/// legacy one is asked for on the same handle; if that succeeds the handle
/// is released and the sequence ends well, with no error.
pub proof fn lemma_fallback_succeeds(handle: isize, rejected: u32, result: i32, last_error: u32)
    requires
        is_valid_handle(handle),
        call_succeeded(result),
    ensures
        ({
            let pending = SequenceView { stage: Stage::HandleOpened2, held: Some(handle), attempt: 0 };
            let fallback = SequenceView { stage: Stage::HandleOpened2, held: Some(handle), attempt: 1 };
            &&& next(pending, EventView::InformationSet { result: 0, last_error: rejected }) == (
                fallback,
                ActionView::Dispose {
                    handle,
                    disposition: DispositionRequest::Legacy { delete_file: true },
                },
            )
            &&& next(fallback, EventView::InformationSet { result, last_error }) == (
                idle(Stage::DispositionMarked),
                ActionView::Release { handle },
            )
            &&& next(idle(Stage::DispositionMarked), EventView::Released) == (
                idle(Stage::Done),
                ActionView::Finish { result: Ok(()) },
            )
        }),
{
}

/// When the legacy disposition is rejected too, the handle is released and
/// the sequence fails with the error code of the legacy attempt, not that
/// of the extended one.
pub proof fn lemma_last_rejection_is_reported(handle: isize, rejected: u32, last_error: u32)
    requires
        is_valid_handle(handle),
    ensures
        ({
            let pending = SequenceView { stage: Stage::HandleOpened2, held: Some(handle), attempt: 0 };
            let fallback = next(
                pending,
                EventView::InformationSet { result: 0, last_error: rejected },
            ).0;
            let failed = idle(Stage::Failed(SelfDeleteError::DispositionFailed(last_error)));
            &&& next(fallback, EventView::InformationSet { result: 0, last_error }) == (
                failed,
                ActionView::Release { handle },
            )
            &&& next(failed, EventView::Released) == (
                failed,
                ActionView::Finish {
                    result: Err(SelfDeleteError::DispositionFailed(last_error)),
                },
            )
        }),
{
}

/// When the first open yields no handle the sequence fails with the error
/// code of that open, and whatever is reported afterwards no rename, no
/// disposition and no release is ever asked for.
pub proof fn lemma_failed_open_ends_the_run(
    buffer: Seq<u16>,
    length: u32,
    raw: isize,
    last_error: u32,
    rest: Seq<EventView>,
)
    requires
        path_reported(buffer, length),
        !is_valid_handle(raw),
    ensures
        ({
            let events = seq![
                EventView::PathReported { buffer, length },
                EventView::OpenReturned { raw, last_error },
            ] + rest;
            &&& state_after(events) == idle(
                Stage::Failed(SelfDeleteError::HandleOpenFailed(last_error)),
            )
            &&& tally_of(actions_of(events)).renames == 0
            &&& tally_of(actions_of(events)).disposals == 0
            &&& tally_of(actions_of(events)).releases == 0
            &&& opened(events).len() == 0
        }),
    decreases rest.len(),
{
    let resolved = EventView::PathReported { buffer, length };
    let refused = EventView::OpenReturned { raw, last_error };
    let head = seq![resolved, refused];
    let events = head + rest;
    let failed = idle(Stage::Failed(SelfDeleteError::HandleOpenFailed(last_error)));
    if rest.len() == 0 {
        let none = Seq::<EventView>::empty();
        let first = seq![resolved];
        assert(events == head);
        assert(head.drop_last() == first);
        assert(first.drop_last() == none);
        assert(state_after(none) == initial());
        assert(state_after(first) == idle(Stage::PathResolved));
        assert(state_after(head) == failed);
        assert(actions_of(none) == seq![initial_action()]);
        assert(opened(none).len() == 0);
        assert(opened(first).len() == 0);
        lemma_action_counted(Seq::empty(), initial_action());
        assert(Seq::<ActionView>::empty().push(initial_action()) == seq![initial_action()]);
        lemma_action_counted(actions_of(none), next(initial(), resolved).1);
        lemma_action_counted(actions_of(first), next(state_after(first), refused).1);
    } else {
        let earlier = head + rest.drop_last();
        lemma_failed_open_ends_the_run(buffer, length, raw, last_error, rest.drop_last());
        assert(events.drop_last() == earlier);
        lemma_action_counted(actions_of(earlier), next(failed, events.last()).1);
    }
}

} // verus!
