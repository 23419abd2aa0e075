//! The order of a download: probe, decide, create the destination, write.
//!
//! The caller does the work (requests, files, the progress display) and
//! reports each result as an event; `step` says what to do next.

use vstd::prelude::*;
use crate::error::DownloadError;
use crate::length::{declared_length, parse_content_length};
use crate::progress::{advanced, TransferProgress};

verus! {

/// How a download is to be carried out.
#[derive(Debug, Clone, Copy, PartialEq, Eq, Structural)]
pub enum DownloadPlan {
    /// The size is known: write chunk by chunk and report progress.
    Measured { total: u64 },
    /// The size is not known: write the whole body in one operation.
    Unmeasured,
}

/// What a probe's `Content-Length` decides. A declared size of zero means
/// that the object does not exist; a missing or unreadable one means that
/// the download goes on without a known size.
pub open spec fn planned(content_length: Option<Seq<u8>>) -> Result<DownloadPlan, DownloadError> {
    match content_length {
        None => Ok(DownloadPlan::Unmeasured),
        Some(text) => match declared_length(text) {
            None => Ok(DownloadPlan::Unmeasured),
            Some(total) => if total == 0 {
                Err(DownloadError::NotFound)
            } else {
                Ok(DownloadPlan::Measured { total })
            },
        },
    }
}

/// Decides from the probe's `Content-Length` value, if it sent one, whether
/// and how to download.
pub fn plan_download(content_length: Option<&[u8]>) -> (plan: Result<DownloadPlan, DownloadError>)
    ensures
        plan == planned(
            match content_length {
                Some(text) => Some(text@),
                None => None,
            },
        ),
{
    match content_length {
        None => Ok(DownloadPlan::Unmeasured),
        Some(text) => match parse_content_length(text) {
            None => Ok(DownloadPlan::Unmeasured),
            Some(total) => if total == 0 {
                Err(DownloadError::NotFound)
            } else {
                Ok(DownloadPlan::Measured { total })
            },
        },
    }
}

/// Where a download stands.
#[derive(Debug, Clone, Copy, PartialEq, Eq, Structural)]
pub enum DownloadState {
    /// The probe is out; nothing is decided and nothing exists on disk.
    Probing,
    /// The download is to go ahead; the destination is being created.
    Opening { total: Option<u64> },
    /// The destination exists and the body is being written to it.
    Receiving { progress: TransferProgress },
    /// The body was written to its end.
    Finished { progress: TransferProgress },
    /// The download was given up.
    Failed { error: DownloadError },
}

/// What the caller reports.
#[derive(Debug)]
pub enum DownloadEvent {
    /// The probe was answered, with this `Content-Length` value if any.
    Probed { content_length: Option<Vec<u8>> },
    /// The destination was created.
    Created,
    /// This many bytes of the body were written to the destination.
    Written { len: u64 },
    /// The body has no more chunks.
    Ended,
    /// A request failed, or the response could not be read.
    TransportFailed,
    /// The destination could not be created or written.
    IoFailed,
}

/// What the caller is to do next.
#[derive(Debug, Clone, Copy, PartialEq, Eq, Structural)]
pub enum DownloadAction {
    /// Send the header-only probe.
    Probe,
    /// Create the destination; with a total, show progress against it.
    CreateDestination { total: Option<u64> },
    /// Request the body and write it chunk by chunk, reporting each write.
    WriteChunks,
    /// Request the body and write all of it in one operation.
    WriteWhole,
    /// Show this progress, then write the next chunk.
    Report { progress: TransferProgress },
    /// Show this progress as the last; the download is done.
    Complete { progress: TransferProgress },
    /// Give up with this error. What was written stays where it is.
    Abort { error: DownloadError },
    /// The event does not belong here; it changes nothing.
    Ignore,
}

/// The `Content-Length` value that an event carries, if it is a probe's
/// answer with one.
pub open spec fn probed_length(event: DownloadEvent) -> Option<Seq<u8>> {
    match event {
        DownloadEvent::Probed { content_length: Some(text) } => Some(text@),
        _ => None,
    }
}

/// Whether the download is over, one way or the other.
pub open spec fn is_over(state: DownloadState) -> bool {
    state is Finished || state is Failed
}

/// The state after an event.
pub open spec fn next_state(state: DownloadState, event: DownloadEvent) -> DownloadState {
    if is_over(state) {
        state
    } else if event is TransportFailed {
        DownloadState::Failed { error: DownloadError::Transport }
    } else if event is IoFailed {
        DownloadState::Failed { error: DownloadError::Io }
    } else {
        match (state, event) {
            (DownloadState::Probing, DownloadEvent::Probed { .. }) => match planned(
                probed_length(event),
            ) {
                Ok(DownloadPlan::Measured { total }) => DownloadState::Opening {
                    total: Some(total),
                },
                Ok(DownloadPlan::Unmeasured) => DownloadState::Opening { total: None },
                Err(error) => DownloadState::Failed { error },
            },
            (DownloadState::Opening { total }, DownloadEvent::Created) => DownloadState::Receiving {
                progress: TransferProgress { transferred: 0, total },
            },
            (DownloadState::Receiving { progress }, DownloadEvent::Written { len }) => {
                let counted = TransferProgress {
                    transferred: advanced(progress.transferred, len),
                    total: progress.total,
                };
                if progress.total is Some {
                    DownloadState::Receiving { progress: counted }
                } else {
                    DownloadState::Finished { progress: counted }
                }
            },
            (DownloadState::Receiving { progress }, DownloadEvent::Ended) => {
                DownloadState::Finished { progress }
            },
            _ => state,
        }
    }
}

/// What an event asks of the caller.
pub open spec fn next_action(state: DownloadState, event: DownloadEvent) -> DownloadAction {
    if is_over(state) {
        DownloadAction::Ignore
    } else {
        match (state, next_state(state, event)) {
            (_, DownloadState::Failed { error }) => DownloadAction::Abort { error },
            (DownloadState::Probing, DownloadState::Opening { total }) => {
                DownloadAction::CreateDestination { total }
            },
            (DownloadState::Opening { total }, DownloadState::Receiving { .. }) => {
                if total is Some {
                    DownloadAction::WriteChunks
                } else {
                    DownloadAction::WriteWhole
                }
            },
            (DownloadState::Receiving { .. }, DownloadState::Receiving { progress }) => {
                if event is Written {
                    DownloadAction::Report { progress }
                } else {
                    DownloadAction::Ignore
                }
            },
            (_, DownloadState::Finished { progress }) => DownloadAction::Complete { progress },
            _ => DownloadAction::Ignore,
        }
    }
}

/// The state in which every download begins, and the first thing to do.
pub fn start() -> (first: (DownloadState, DownloadAction))
    ensures
        first == (DownloadState::Probing, DownloadAction::Probe),
{
    (DownloadState::Probing, DownloadAction::Probe)
}

/// Takes one event: the state that follows, and what to do next.
pub fn step(state: DownloadState, event: DownloadEvent) -> (taken: (DownloadState, DownloadAction))
    ensures
        taken == (next_state(state, event), next_action(state, event)),
{
    match state {
        DownloadState::Finished { .. } | DownloadState::Failed { .. } => {
            return (state, DownloadAction::Ignore);
        },
        _ => {},
    }
    match event {
        DownloadEvent::TransportFailed => {
            let error = DownloadError::Transport;
            return (DownloadState::Failed { error }, DownloadAction::Abort { error });
        },
        DownloadEvent::IoFailed => {
            let error = DownloadError::Io;
            return (DownloadState::Failed { error }, DownloadAction::Abort { error });
        },
        _ => {},
    }
    match (state, event) {
        (DownloadState::Probing, DownloadEvent::Probed { content_length }) => {
            let plan = match &content_length {
                Some(text) => plan_download(Some(text.as_slice())),
                None => plan_download(None),
            };
            match plan {
                Ok(DownloadPlan::Measured { total }) => (
                    DownloadState::Opening { total: Some(total) },
                    DownloadAction::CreateDestination { total: Some(total) },
                ),
                Ok(DownloadPlan::Unmeasured) => (
                    DownloadState::Opening { total: None },
                    DownloadAction::CreateDestination { total: None },
                ),
                Err(error) => (DownloadState::Failed { error }, DownloadAction::Abort { error }),
            }
        },
        (DownloadState::Opening { total }, DownloadEvent::Created) => {
            let progress = TransferProgress::new(total);
            let action = if total.is_some() {
                DownloadAction::WriteChunks
            } else {
                DownloadAction::WriteWhole
            };
            (DownloadState::Receiving { progress }, action)
        },
        (DownloadState::Receiving { progress }, DownloadEvent::Written { len }) => {
            let counted = progress.advance(len);
            if progress.total.is_some() {
                (
                    DownloadState::Receiving { progress: counted },
                    DownloadAction::Report { progress: counted },
                )
            } else {
                (
                    DownloadState::Finished { progress: counted },
                    DownloadAction::Complete { progress: counted },
                )
            }
        },
        (DownloadState::Receiving { progress }, DownloadEvent::Ended) => (
            DownloadState::Finished { progress },
            DownloadAction::Complete { progress },
        ),
        (state, _) => (state, DownloadAction::Ignore),
    }
}

/// The state that a download is in after these events, in this order.
pub open spec fn state_after(events: Seq<DownloadEvent>) -> DownloadState
    decreases events.len(),
{
    if events.len() == 0 {
        DownloadState::Probing
    } else {
        next_state(state_after(events.drop_last()), events.last())
    }
}

/// What the event at `index` asks of the caller, in a download that has seen
/// the events before it.
pub open spec fn action_at(events: Seq<DownloadEvent>, index: int) -> DownloadAction {
    next_action(state_after(events.take(index)), events[index])
}

/// The bytes that a run of writes reports, together.
pub open spec fn bytes_written(lens: Seq<u64>) -> nat
    decreases lens.len(),
{
    if lens.len() == 0 {
        0
    } else {
        bytes_written(lens.drop_last()) + lens.last() as nat
    }
}

/// The events of a download whose body arrives in chunks of these sizes:
/// the probe's answer, the destination, one write for each chunk.
pub open spec fn chunked_run(probe: DownloadEvent, lens: Seq<u64>) -> Seq<DownloadEvent> {
    seq![probe, DownloadEvent::Created] + Seq::new(
        lens.len(),
        |i: int| DownloadEvent::Written { len: lens[i] },
    )
}

/// The destination is created for one reason only: the probe has just been
/// answered, and the answer lets the download go ahead.
pub proof fn lemma_destination_needs_go(state: DownloadState, event: DownloadEvent)
    requires
        next_action(state, event) is CreateDestination,
    ensures
        state is Probing,
        event is Probed,
        planned(probed_length(event)) is Ok,
{
}

/// A probe that declares a length of zero ends the download at once: the
/// object is reported as not found, and nothing is to be created.
pub proof fn lemma_zero_length_is_not_found(event: DownloadEvent)
    requires
        event is Probed,
        probed_length(event) matches Some(text) && declared_length(text) == Some(0u64),
    ensures
        next_state(DownloadState::Probing, event) == (DownloadState::Failed {
            error: DownloadError::NotFound,
        }),
        next_action(DownloadState::Probing, event) == (DownloadAction::Abort {
            error: DownloadError::NotFound,
        }),
{
}

/// A download that is over stays as it is, whatever is reported to it.
pub proof fn lemma_over_stays_over(state: DownloadState, event: DownloadEvent)
    requires
        is_over(state),
    ensures
        next_state(state, event) == state,
        next_action(state, event) == DownloadAction::Ignore,
{
}

/// No event brings a download back to where nothing was decided.
pub proof fn lemma_probing_only_at_first(events: Seq<DownloadEvent>, index: int)
    requires
        0 <= index <= events.len(),
        state_after(events) is Probing,
    ensures
        state_after(events.take(index)) is Probing,
    decreases events.len(),
{
    if index == events.len() {
        assert(events.take(index) =~= events);
    } else {
        let front = events.drop_last();
        assert(state_after(front) is Probing);
        lemma_probing_only_at_first(front, index);
        assert(front.take(index) =~= events.take(index));
    }
}

/// However a download goes, the destination is created at most once.
pub proof fn lemma_destination_created_once(events: Seq<DownloadEvent>, first: int, second: int)
    requires
        0 <= first < second < events.len(),
        action_at(events, first) is CreateDestination,
    ensures
        !(action_at(events, second) is CreateDestination),
{
    let before = events.take(second);
    if action_at(events, second) is CreateDestination {
        lemma_destination_needs_go(state_after(before), events[second]);
        lemma_probing_only_at_first(before, first + 1);
        assert(before.take(first + 1) =~= events.take(first + 1));
        assert(events.take(first + 1).drop_last() =~= events.take(first));
        assert(events.take(first + 1).last() == events[first]);
    }
}

/// Zero-length probe: once the probe has declared a length of zero, the
/// download has failed as not found, and no event that follows has the
/// destination created or anything written.
pub proof fn lemma_not_found_creates_nothing(events: Seq<DownloadEvent>, index: int)
    requires
        0 <= index < events.len(),
        events[0] is Probed,
        probed_length(events[0]) matches Some(text) && declared_length(text) == Some(0u64),
    ensures
        state_after(events) == (DownloadState::Failed { error: DownloadError::NotFound }),
        !(action_at(events, index) is CreateDestination),
        !(action_at(events, index) is WriteChunks),
        !(action_at(events, index) is WriteWhole),
        !(action_at(events, index) is Report),
        !(action_at(events, index) is Complete),
    decreases events.len(),
{
    let front = events.drop_last();
    if front.len() == 0 {
        assert(events.take(0) =~= front);
        assert(events.last() == events[0]);
    } else {
        assert(front[0] == events[0]);
        lemma_not_found_creates_nothing(front, 0);
        if index == 0 {
            assert(events.take(0).len() == 0);
        } else {
            let before = events.take(index);
            assert(before[0] == events[0]);
            lemma_not_found_creates_nothing(before, 0);
        }
    }
}

/// Unknown length: where the probe declares no length that can be read, the
/// destination is created, the whole body is written in one operation, and
/// the download is complete with every byte of the body counted.
pub proof fn lemma_unknown_length_writes_whole_body(probe: DownloadEvent, len: u64)
    requires
        probe is Probed,
        planned(probed_length(probe)) == Ok::<DownloadPlan, DownloadError>(
            DownloadPlan::Unmeasured,
        ),
    ensures
        ({
            let events = seq![probe, DownloadEvent::Created, DownloadEvent::Written { len }];
            let whole = TransferProgress { transferred: len, total: None };
            &&& action_at(events, 0) == (DownloadAction::CreateDestination { total: None })
            &&& action_at(events, 1) == DownloadAction::WriteWhole
            &&& action_at(events, 2) == (DownloadAction::Complete { progress: whole })
            &&& state_after(events) == (DownloadState::Finished { progress: whole })
        }),
{
    let events = seq![probe, DownloadEvent::Created, DownloadEvent::Written { len }];
    let none = events.take(0);
    let one = events.take(1);
    let two = events.take(2);
    assert(none.len() == 0);
    assert(one.drop_last() =~= none && one.last() == probe);
    assert(two.drop_last() =~= one && two.last() == DownloadEvent::Created);
    assert(events.drop_last() =~= two && events.last() == (DownloadEvent::Written { len }));
    assert(state_after(none) == DownloadState::Probing);
    assert(state_after(one) == (DownloadState::Opening { total: None }));
    assert(state_after(two) == (DownloadState::Receiving {
        progress: TransferProgress { transferred: 0, total: None },
    }));
}

/// Known length: after the probe has declared a length and the destination
/// exists, every chunk written is counted, the count never falls, and each
/// write is answered with the progress to show.
pub proof fn lemma_known_length_counts_every_chunk(probe: DownloadEvent, total: u64, lens: Seq<u64>)
    requires
        probe is Probed,
        planned(probed_length(probe)) == Ok::<DownloadPlan, DownloadError>(
            DownloadPlan::Measured { total },
        ),
        bytes_written(lens) <= u64::MAX,
    ensures
        state_after(chunked_run(probe, lens)) == (DownloadState::Receiving {
            progress: TransferProgress {
                transferred: bytes_written(lens) as u64,
                total: Some(total),
            },
        }),
        lens.len() > 0 ==> action_at(chunked_run(probe, lens), lens.len() as int + 1) == (
        DownloadAction::Report {
            progress: TransferProgress {
                transferred: bytes_written(lens) as u64,
                total: Some(total),
            },
        }),
    decreases lens.len(),
{
    let events = chunked_run(probe, lens);
    if lens.len() == 0 {
        let one = events.drop_last();
        assert(one.drop_last().len() == 0);
        assert(state_after(one.drop_last()) == DownloadState::Probing);
        assert(one.last() == probe);
        assert(events.last() == DownloadEvent::Created);
        assert(state_after(one) == (DownloadState::Opening { total: Some(total) }));
    } else {
        let shorter = lens.drop_last();
        lemma_known_length_counts_every_chunk(probe, total, shorter);
        assert(events.drop_last() =~= chunked_run(probe, shorter));
        assert(events.last() == (DownloadEvent::Written { len: lens.last() }));
        assert(events.take(lens.len() as int + 1) =~= events.drop_last());
        assert(events[lens.len() as int + 1] == events.last());
    }
}

/// Known length: when the body ends after chunks that make up the declared
/// length, the last progress shown has the count equal to the total.
pub proof fn lemma_last_update_reaches_total(probe: DownloadEvent, total: u64, lens: Seq<u64>)
    requires
        probe is Probed,
        planned(probed_length(probe)) == Ok::<DownloadPlan, DownloadError>(
            DownloadPlan::Measured { total },
        ),
        bytes_written(lens) == total,
    ensures
        ({
            let events = chunked_run(probe, lens).push(DownloadEvent::Ended);
            let whole = TransferProgress { transferred: total, total: Some(total) };
            &&& action_at(events, events.len() - 1) == (DownloadAction::Complete {
                progress: whole,
            })
            &&& state_after(events) == (DownloadState::Finished { progress: whole })
        }),
{
    let run = chunked_run(probe, lens);
    let events = run.push(DownloadEvent::Ended);
    lemma_known_length_counts_every_chunk(probe, total, lens);
    assert(events.drop_last() =~= run);
    assert(events.take(events.len() - 1) =~= run);
}

} // verus!
