//! The self-deletion sequence as a machine: it is told what the operating
//! system returned, and says what to do next.
//!
//! The caller performs each action and reports its outcome; the machine
//! decides. It opens nothing and closes nothing itself, yet every handle
//! that an open yields passes through it and leaves it in one release.

use crate::disposition::{
    disposition_step, mark_for_deletion, strategies, DispositionRequest, DispositionStep,
};
use crate::error::SelfDeleteError;
use crate::handle::{call_succeeded, is_valid_handle, FileHandle, OpenRequest};
use crate::path::{path_reported, ExecutablePath};
use crate::rename::{rename_outcome, stream_name_units, RenameRequest};
use vstd::prelude::*;

verus! {

/// How long to wait after the first handle is closed, in milliseconds,
/// before the path is asked for again.
pub const SETTLE_MILLIS: u64 = 100;

/// How far the sequence has come.
#[derive(Clone, Copy, Debug, PartialEq, Eq, Structural)]
pub enum Stage {
    /// Nothing is known yet; the path of the image is being asked for.
    Start,
    /// The path is known; the file is being opened.
    PathResolved,
    /// The first handle is open; the rename is being made.
    HandleOpened1,
    /// The rename is made; the first handle is being released.
    Renamed,
    /// The first handle is closed; after the settle interval the path is
    /// being asked for again.
    HandleClosed1,
    /// The path is known anew; the file is being opened again.
    PathResolved2,
    /// The second handle is open; the file is being marked for deletion.
    HandleOpened2,
    /// The file is marked; the second handle is being released.
    DispositionMarked,
    /// The sequence is over and the file is marked for deletion.
    Done,
    /// The sequence is over and the file stays.
    Failed(SelfDeleteError),
}

/// What the operating system returned for the action that was pending.
#[derive(Debug)]
pub enum Event {
    /// The path query wrote to `buffer` and returned `length`.
    PathReported { buffer: Vec<u16>, length: u32 },
    /// The open call returned `raw`; `last_error` is the error code read
    /// right after it.
    OpenReturned { raw: isize, last_error: u32 },
    /// The call that sets file information returned `result`; `last_error`
    /// is the error code read right after it.
    InformationSet { result: i32, last_error: u32 },
    /// The handle was released.
    Released,
}

/// What the caller does next.
#[derive(Debug)]
pub enum Action {
    /// Wait for `settle_millis`, then ask for the path of the running image.
    ResolvePath { settle_millis: u64 },
    /// Open the file at `path` as `request` says.
    Open { path: ExecutablePath, request: OpenRequest },
    /// Rename the file open under `handle` onto `target`.
    Rename { handle: isize, target: RenameRequest },
    /// Mark the file open under `handle` for deletion as `disposition` says.
    Dispose { handle: isize, disposition: DispositionRequest },
    /// Release the handle, which is given up with this action.
    Release(FileHandle),
    /// Stop: the sequence is over, with this result.
    Finish { result: Result<(), SelfDeleteError> },
    /// Nothing: the outcome reported did not answer the pending action,
    /// whose outcome is still awaited.
    Await,
}

/// An outcome, as the values it carries.
pub enum EventView {
    PathReported { buffer: Seq<u16>, length: u32 },
    OpenReturned { raw: isize, last_error: u32 },
    InformationSet { result: i32, last_error: u32 },
    Released,
}

/// An action, as the values it carries.
pub enum ActionView {
    ResolvePath { settle_millis: u64 },
    Open { path: Seq<u16>, request: OpenRequest },
    Rename { handle: isize, name: Seq<u16> },
    Dispose { handle: isize, disposition: DispositionRequest },
    Release { handle: isize },
    Finish { result: Result<(), SelfDeleteError> },
    Await,
}

/// The state of a sequence: the stage, the handle that is open at this
/// moment, and the number of the disposition attempt that is pending.
pub struct SequenceView {
    pub stage: Stage,
    pub held: Option<isize>,
    pub attempt: nat,
}

impl View for Event {
    type V = EventView;

    open spec fn view(&self) -> EventView {
        match *self {
            Event::PathReported { buffer, length } => EventView::PathReported {
                buffer: buffer@,
                length,
            },
            Event::OpenReturned { raw, last_error } => EventView::OpenReturned { raw, last_error },
            Event::InformationSet { result, last_error } => EventView::InformationSet {
                result,
                last_error,
            },
            Event::Released => EventView::Released,
        }
    }
}

impl View for Action {
    type V = ActionView;

    open spec fn view(&self) -> ActionView {
        match *self {
            Action::ResolvePath { settle_millis } => ActionView::ResolvePath { settle_millis },
            Action::Open { path, request } => ActionView::Open { path: path@, request },
            Action::Rename { handle, target } => ActionView::Rename { handle, name: target@ },
            Action::Dispose { handle, disposition } => ActionView::Dispose { handle, disposition },
            Action::Release(handle) => ActionView::Release { handle: handle@ },
            Action::Finish { result } => ActionView::Finish { result },
            Action::Await => ActionView::Await,
        }
    }
}

impl SequenceView {
    /// A handle is held exactly while one is open, it names a file, and an
    /// attempt number is kept only while the file is being marked.
    pub open spec fn well_formed(self) -> bool {
        &&& self.held is Some <==> (self.stage == Stage::HandleOpened1 || self.stage
            == Stage::HandleOpened2)
        &&& self.held matches Some(raw) ==> is_valid_handle(raw)
        &&& if self.stage == Stage::HandleOpened2 {
            self.attempt < strategies().len()
        } else {
            self.attempt == 0
        }
    }

    /// Whether the sequence is over.
    pub open spec fn finished(self) -> bool {
        self.stage == Stage::Done || self.stage is Failed
    }

    /// The result of a sequence that is over.
    pub open spec fn result(self) -> Option<Result<(), SelfDeleteError>> {
        match self.stage {
            Stage::Done => Some(Ok(())),
            Stage::Failed(error) => Some(Err(error)),
            _ => None,
        }
    }
}

/// The state in which no handle is open.
pub open spec fn idle(stage: Stage) -> SequenceView {
    SequenceView { stage, held: None, attempt: 0 }
}

/// The state in which a sequence begins.
pub open spec fn initial() -> SequenceView {
    idle(Stage::Start)
}

/// The action with which a sequence begins: ask for the path at once.
pub open spec fn initial_action() -> ActionView {
    ActionView::ResolvePath { settle_millis: 0 }
}

/// What follows a path query: with a path, the open of that path as
/// `resolved`; without one, the end.
pub open spec fn after_path(buffer: Seq<u16>, length: u32, resolved: Stage) -> (
    SequenceView,
    ActionView,
) {
    if path_reported(buffer, length) {
        (
            idle(resolved),
            ActionView::Open {
                path: buffer.subrange(0, length as int),
                request: OpenRequest::delete_existing(),
            },
        )
    } else {
        stop(SelfDeleteError::PathResolutionFailed)
    }
}

/// The end of a sequence that fails with no handle open.
pub open spec fn stop(error: SelfDeleteError) -> (SequenceView, ActionView) {
    (idle(Stage::Failed(error)), ActionView::Finish { result: Err(error) })
}

/// The transition: the state and the action that follow when `event` is
/// reported in state `s`.
///
/// Each stage has one outcome that it waits for. A failure ends the
/// sequence; where a handle is open, its release comes first. A rejected
/// disposition moves on to the next way of marking while one is left. Once
/// the sequence is over every event is answered with its result. Any other
/// event changes nothing.
pub open spec fn next(s: SequenceView, event: EventView) -> (SequenceView, ActionView) {
    match (s.stage, event) {
        (Stage::Start, EventView::PathReported { buffer, length }) => after_path(
            buffer,
            length,
            Stage::PathResolved,
        ),
        (Stage::PathResolved, EventView::OpenReturned { raw, last_error }) => if is_valid_handle(
            raw,
        ) {
            (
                SequenceView { stage: Stage::HandleOpened1, held: Some(raw), attempt: 0 },
                ActionView::Rename { handle: raw, name: stream_name_units() },
            )
        } else {
            stop(SelfDeleteError::HandleOpenFailed(last_error))
        },
        (Stage::HandleOpened1, EventView::InformationSet { result, last_error }) => (
            idle(
                if call_succeeded(result) {
                    Stage::Renamed
                } else {
                    Stage::Failed(SelfDeleteError::RenameFailed(last_error))
                },
            ),
            ActionView::Release { handle: s.held->0 },
        ),
        (Stage::Renamed, EventView::Released) => (
            idle(Stage::HandleClosed1),
            ActionView::ResolvePath { settle_millis: SETTLE_MILLIS },
        ),
        (Stage::HandleClosed1, EventView::PathReported { buffer, length }) => after_path(
            buffer,
            length,
            Stage::PathResolved2,
        ),
        (Stage::PathResolved2, EventView::OpenReturned { raw, last_error }) => if is_valid_handle(
            raw,
        ) {
            (
                SequenceView { stage: Stage::HandleOpened2, held: Some(raw), attempt: 0 },
                ActionView::Dispose { handle: raw, disposition: strategies()[0] },
            )
        } else {
            stop(SelfDeleteError::HandleOpenFailed(last_error))
        },
        (Stage::HandleOpened2, EventView::InformationSet { result, last_error }) => {
            match disposition_step(s.attempt, result, last_error) {
                DispositionStep::Marked => (
                    idle(Stage::DispositionMarked),
                    ActionView::Release { handle: s.held->0 },
                ),
                DispositionStep::Fallback { attempt } => (
                    SequenceView { stage: Stage::HandleOpened2, held: s.held, attempt: attempt as nat },
                    ActionView::Dispose {
                        handle: s.held->0,
                        disposition: strategies()[attempt as int],
                    },
                ),
                DispositionStep::Failed { error } => (
                    idle(Stage::Failed(error)),
                    ActionView::Release { handle: s.held->0 },
                ),
            }
        },
        (Stage::DispositionMarked, EventView::Released) => (
            idle(Stage::Done),
            ActionView::Finish { result: Ok(()) },
        ),
        (Stage::Done, _) => (s, ActionView::Finish { result: Ok(()) }),
        (Stage::Failed(error), _) => (s, ActionView::Finish { result: Err(error) }),
        _ => (s, ActionView::Await),
    }
}

/// A self-deletion sequence under way.
#[derive(Debug)]
pub struct Sequence {
    stage: Stage,
    held: Option<FileHandle>,
    attempt: usize,
}

impl View for Sequence {
    type V = SequenceView;

    closed spec fn view(&self) -> SequenceView {
        SequenceView {
            stage: self.stage,
            held: match self.held {
                Some(handle) => Some(handle@),
                None => None,
            },
            attempt: self.attempt as nat,
        }
    }
}

impl Sequence {
    #[verifier::type_invariant]
    spec fn holds_what_is_open(self) -> bool {
        self@.well_formed()
    }

    /// The sequence at `stage`, with no handle open.
    fn at(stage: Stage) -> (sequence: Sequence)
        requires
            stage != Stage::HandleOpened1,
            stage != Stage::HandleOpened2,
        ensures
            sequence@ == idle(stage),
    {
        Sequence { stage, held: None, attempt: 0 }
    }

    /// The sequence at `stage`, with `handle` open and disposition attempt
    /// number `attempt` pending.
    fn holding(stage: Stage, handle: FileHandle, attempt: usize) -> (sequence: Sequence)
        requires
            is_valid_handle(handle@),
            stage == Stage::HandleOpened1 && attempt == 0 || stage == Stage::HandleOpened2
                && attempt < strategies().len(),
        ensures
            sequence@ == (SequenceView { stage, held: Some(handle@), attempt: attempt as nat }),
    {
        Sequence { stage, held: Some(handle), attempt }
    }

    /// The end of a sequence that fails with no handle open.
    fn stopped(error: SelfDeleteError) -> (stepped: (Sequence, Action))
        ensures
            (stepped.0@, stepped.1@) == stop(error),
    {
        (Sequence::at(Stage::Failed(error)), Action::Finish { result: Err(error) })
    }

    /// What follows a path query.
    fn path_queried(buffer: &Vec<u16>, length: u32, resolved: Stage) -> (stepped: (
        Sequence,
        Action,
    ))
        requires
            resolved == Stage::PathResolved || resolved == Stage::PathResolved2,
        ensures
            (stepped.0@, stepped.1@) == after_path(buffer@, length, resolved),
    {
        match ExecutablePath::resolve(buffer.as_slice(), length) {
            Ok(path) => (
                Sequence::at(resolved),
                Action::Open { path, request: OpenRequest::for_deletion() },
            ),
            Err(error) => Sequence::stopped(error),
        }
    }

    /// Begins a sequence: nothing is open, and the first thing to do is to
    /// ask for the path of the running image.
    pub fn begin() -> (begun: (Sequence, Action))
        ensures
            begun.0@ == initial(),
            begun.1@ == initial_action(),
            begun.0@.well_formed(),
    {
        (Sequence::at(Stage::Start), Action::ResolvePath { settle_millis: 0 })
    }

    /// Takes the outcome of the pending action and says what to do next.
    pub fn step(self, event: Event) -> (stepped: (Sequence, Action))
        ensures
            (stepped.0@, stepped.1@) == next(self@, event@),
            self@.well_formed(),
            stepped.0@.well_formed(),
    {
        proof {
            use_type_invariant(&self);
        }
        let Sequence { stage, held, attempt } = self;
        let stepped = match stage {
            Stage::Start => match event {
                Event::PathReported { buffer, length } => Sequence::path_queried(
                    &buffer,
                    length,
                    Stage::PathResolved,
                ),
                _ => (Sequence { stage, held, attempt }, Action::Await),
            },
            Stage::PathResolved => match event {
                Event::OpenReturned { raw, last_error } => match FileHandle::open_for_deletion(
                    raw,
                    last_error,
                ) {
                    Ok(handle) => (
                        Sequence::holding(Stage::HandleOpened1, handle, 0),
                        Action::Rename { handle: raw, target: RenameRequest::alternate_stream() },
                    ),
                    Err(error) => Sequence::stopped(error),
                },
                _ => (Sequence { stage, held, attempt }, Action::Await),
            },
            Stage::HandleOpened1 => match event {
                Event::InformationSet { result, last_error } => {
                    let handle = held.unwrap();
                    match rename_outcome(result, last_error) {
                        Ok(_) => (Sequence::at(Stage::Renamed), Action::Release(handle)),
                        Err(error) => (
                            Sequence::at(Stage::Failed(error)),
                            Action::Release(handle),
                        ),
                    }
                },
                _ => (Sequence { stage, held, attempt }, Action::Await),
            },
            Stage::Renamed => match event {
                Event::Released => (
                    Sequence::at(Stage::HandleClosed1),
                    Action::ResolvePath { settle_millis: SETTLE_MILLIS },
                ),
                _ => (Sequence { stage, held, attempt }, Action::Await),
            },
            Stage::HandleClosed1 => match event {
                Event::PathReported { buffer, length } => Sequence::path_queried(
                    &buffer,
                    length,
                    Stage::PathResolved2,
                ),
                _ => (Sequence { stage, held, attempt }, Action::Await),
            },
            Stage::PathResolved2 => match event {
                Event::OpenReturned { raw, last_error } => match FileHandle::open_for_deletion(
                    raw,
                    last_error,
                ) {
                    Ok(handle) => {
                        let disposition = DispositionRequest::strategy(0).unwrap();
                        (
                            Sequence::holding(Stage::HandleOpened2, handle, 0),
                            Action::Dispose { handle: raw, disposition },
                        )
                    },
                    Err(error) => Sequence::stopped(error),
                },
                _ => (Sequence { stage, held, attempt }, Action::Await),
            },
            Stage::HandleOpened2 => match event {
                Event::InformationSet { result, last_error } => {
                    let handle = held.unwrap();
                    match mark_for_deletion(attempt, result, last_error) {
                        DispositionStep::Marked => (
                            Sequence::at(Stage::DispositionMarked),
                            Action::Release(handle),
                        ),
                        DispositionStep::Fallback { attempt: following } => {
                            let disposition = DispositionRequest::strategy(following).unwrap();
                            let raw = handle.raw();
                            (
                                Sequence::holding(Stage::HandleOpened2, handle, following),
                                Action::Dispose { handle: raw, disposition },
                            )
                        },
                        DispositionStep::Failed { error } => (
                            Sequence::at(Stage::Failed(error)),
                            Action::Release(handle),
                        ),
                    }
                },
                _ => (Sequence { stage, held, attempt }, Action::Await),
            },
            Stage::DispositionMarked => match event {
                Event::Released => (
                    Sequence::at(Stage::Done),
                    Action::Finish { result: Ok(()) },
                ),
                _ => (Sequence { stage, held, attempt }, Action::Await),
            },
            Stage::Done => (Sequence { stage, held, attempt }, Action::Finish { result: Ok(()) }),
            Stage::Failed(error) => (
                Sequence { stage, held, attempt },
                Action::Finish { result: Err(error) },
            ),
        };
        proof {
            use_type_invariant(&stepped.0);
        }
        stepped
    }

    /// How far the sequence has come.
    pub fn stage(&self) -> (stage: Stage)
        ensures
            stage == self@.stage,
    {
        self.stage
    }

    /// Whether the sequence is over.
    pub fn is_finished(&self) -> (finished: bool)
        ensures
            finished == self@.finished(),
    {
        match self.stage {
            Stage::Done => true,
            Stage::Failed(_) => true,
            _ => false,
        }
    }

    /// The result of the sequence, once it is over.
    pub fn result(&self) -> (result: Option<Result<(), SelfDeleteError>>)
        ensures
            result == self@.result(),
    {
        match self.stage {
            Stage::Done => Some(Ok(())),
            Stage::Failed(error) => Some(Err(error)),
            _ => None,
        }
    }

    /// The raw handle that is open at this moment, if any.
    pub fn held(&self) -> (held: Option<isize>)
        ensures
            held == self@.held,
    {
        match &self.held {
            Some(handle) => Some(handle.raw()),
            None => None,
        }
    }
}

} // verus!
