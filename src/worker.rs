//! The control of the reader, decoder and encoder loops: what each does on
//! each event, and what it publishes downstream before it exits.

use vstd::prelude::*;

verus! {

/// What the input reader sees on one turn of its loop.
#[derive(Clone, Copy, Debug, PartialEq, Eq, Structural)]
pub enum ReaderEvent {
    /// Its cancellation token was found cancelled.
    Cancelled,
    /// A packet was read.
    Packet,
    /// End of stream, or a read error (treated alike).
    End,
}

/// What the reader does.
#[derive(Clone, Copy, Debug, PartialEq, Eq, Structural)]
pub enum ReaderAction {
    /// Publish the packet and go on reading.
    Publish,
    /// Publish end of stream and exit.
    PublishEofAndExit,
    /// Exit silently.
    Exit,
}

/// A cancelled reader exits without publishing; at end of stream (or on a
/// read error) it publishes end of stream and exits.
pub fn reader_step(ev: ReaderEvent) -> (r: ReaderAction)
    ensures
        r == match ev {
            ReaderEvent::Cancelled => ReaderAction::Exit,
            ReaderEvent::Packet => ReaderAction::Publish,
            ReaderEvent::End => ReaderAction::PublishEofAndExit,
        },
{
    match ev {
        ReaderEvent::Cancelled => ReaderAction::Exit,
        ReaderEvent::Packet => ReaderAction::Publish,
        ReaderEvent::End => ReaderAction::PublishEofAndExit,
    }
}

/// An item a worker publishes downstream.
#[derive(Clone, Copy, Debug, PartialEq, Eq, Structural)]
pub enum Published {
    Data,
    Eof,
}

/// What the reader publishes over a run of events, up to its exit.
pub open spec fn reader_run(evs: Seq<ReaderEvent>) -> Seq<Published>
    decreases evs.len(),
{
    if evs.len() == 0 {
        seq![]
    } else {
        match evs[0] {
            ReaderEvent::Cancelled => seq![],
            ReaderEvent::Packet => seq![Published::Data] + reader_run(evs.drop_first()),
            ReaderEvent::End => seq![Published::Eof],
        }
    }
}

/// Whether the run reaches end of stream before any cancellation.
pub open spec fn reaches_end(evs: Seq<ReaderEvent>) -> bool {
    exists|i: int|
        0 <= i < evs.len() && evs[i] == ReaderEvent::End && forall|j: int|
            0 <= j < i ==> evs[j] != ReaderEvent::Cancelled
}

/// The reader publishes end of stream exactly when it reaches the end before
/// being cancelled, and then as its last item; never more than once.
pub proof fn lemma_reader_eof(evs: Seq<ReaderEvent>)
    ensures
        reaches_end(evs) <==> (reader_run(evs).len() > 0 && reader_run(evs).last()
            == Published::Eof),
        forall|k: int|
            0 <= k < reader_run(evs).len() - 1 ==> #[trigger] reader_run(evs)[k] == Published::Data,
    decreases evs.len(),
{
    if evs.len() > 0 {
        let rest = evs.drop_first();
        lemma_reader_eof(rest);
        match evs[0] {
            ReaderEvent::Cancelled => {
                if reaches_end(evs) {
                    let i = choose|i: int|
                        0 <= i < evs.len() && evs[i] == ReaderEvent::End && forall|j: int|
                            0 <= j < i ==> evs[j] != ReaderEvent::Cancelled;
                    assert(i != 0);
                    assert(evs[0] != ReaderEvent::Cancelled);
                }
            },
            ReaderEvent::End => {
                assert(evs[0] == ReaderEvent::End);
                assert(reaches_end(evs)) by {
                    assert(forall|j: int| 0 <= j < 0 ==> evs[j] != ReaderEvent::Cancelled);
                }
            },
            ReaderEvent::Packet => {
                let r = reader_run(evs);
                assert(r == seq![Published::Data] + reader_run(rest));
                if reaches_end(evs) {
                    let i = choose|i: int|
                        0 <= i < evs.len() && evs[i] == ReaderEvent::End && forall|j: int|
                            0 <= j < i ==> evs[j] != ReaderEvent::Cancelled;
                    assert(i > 0);
                    assert(rest[i - 1] == ReaderEvent::End);
                    assert forall|j: int| 0 <= j < i - 1 implies rest[j] != ReaderEvent::Cancelled by {
                        assert(rest[j] == evs[j + 1]);
                    }
                    assert(reaches_end(rest));
                }
                if reaches_end(rest) {
                    let i = choose|i: int|
                        0 <= i < rest.len() && rest[i] == ReaderEvent::End && forall|j: int|
                            0 <= j < i ==> rest[j] != ReaderEvent::Cancelled;
                    assert(evs[i + 1] == ReaderEvent::End);
                    assert forall|j: int| 0 <= j < i + 1 implies evs[j] != ReaderEvent::Cancelled by {
                        if j > 0 {
                            assert(evs[j] == rest[j - 1]);
                        }
                    }
                    assert(reaches_end(evs));
                }
                assert forall|k: int| 0 <= k < r.len() - 1 implies #[trigger] r[k] == Published::Data by {
                    if k > 0 {
                        assert(r[k] == reader_run(rest)[k - 1]);
                    }
                }
            },
        }
    }
}

/// What a decoder or encoder loop sees on one turn.
#[derive(Clone, Copy, Debug, PartialEq, Eq, Structural)]
pub enum WorkerEvent {
    /// Its cancellation token was found cancelled.
    Cancelled,
    /// Nothing arrived within the receive timeout.
    Idle,
    /// A packet (decoder) or frame (encoder) arrived.
    Data,
    /// Upstream ended.
    Eof,
    /// The codec is in a state it cannot recover from.
    Fatal,
}

/// What a decoder or encoder loop does.
#[derive(Clone, Copy, Debug, PartialEq, Eq, Structural)]
pub enum WorkerAction {
    /// Wait for the next event.
    Wait,
    /// Submit the item, then publish every output that is ready.
    SubmitAndDrain,
    /// Flush the codec, publish what it still holds, publish end of stream
    /// and exit.
    FlushAndExit,
    /// Publish end of stream and exit.
    PublishEofAndExit,
}

/// The action a decoder or encoder loop takes on event `ev`.
pub open spec fn worker_step_spec(ev: WorkerEvent) -> WorkerAction {
    match ev {
        WorkerEvent::Idle => WorkerAction::Wait,
        WorkerEvent::Data => WorkerAction::SubmitAndDrain,
        WorkerEvent::Eof => WorkerAction::FlushAndExit,
        WorkerEvent::Cancelled | WorkerEvent::Fatal => WorkerAction::PublishEofAndExit,
    }
}

/// A decoder or encoder loop waits when idle, works on data, flushes at
/// end of stream, and otherwise (cancelled, or fatal codec error) exits;
/// it publishes end of stream whenever it exits.
pub fn worker_step(ev: WorkerEvent) -> (r: WorkerAction)
    ensures
        r == worker_step_spec(ev),
{
    match ev {
        WorkerEvent::Idle => WorkerAction::Wait,
        WorkerEvent::Data => WorkerAction::SubmitAndDrain,
        WorkerEvent::Eof => WorkerAction::FlushAndExit,
        WorkerEvent::Cancelled | WorkerEvent::Fatal => WorkerAction::PublishEofAndExit,
    }
}

/// Whether an action ends the loop.
pub open spec fn exits(a: WorkerAction) -> bool {
    a == WorkerAction::FlushAndExit || a == WorkerAction::PublishEofAndExit
}

/// How many end-of-stream markers a worker publishes over a run of events,
/// up to its exit (drained outputs are data, never end of stream).
pub open spec fn worker_eofs(evs: Seq<WorkerEvent>) -> nat
    decreases evs.len(),
{
    if evs.len() == 0 {
        0
    } else {
        if exits(worker_step_spec(evs[0])) {
            1
        } else {
            worker_eofs(evs.drop_first())
        }
    }
}

/// A decoder or encoder publishes end of stream exactly once over any run
/// that makes it exit (cancellation, end of stream or a fatal error), and
/// not at all while it runs.
pub proof fn lemma_worker_eof_once(evs: Seq<WorkerEvent>)
    ensures
        (exists|i: int|
            0 <= i < evs.len() && (#[trigger] evs[i] == WorkerEvent::Cancelled || evs[i]
                == WorkerEvent::Eof || evs[i] == WorkerEvent::Fatal)) ==> worker_eofs(evs) == 1,
        worker_eofs(evs) <= 1,
    decreases evs.len(),
{
    if evs.len() > 0 {
        let rest = evs.drop_first();
        lemma_worker_eof_once(rest);
        if exists|i: int|
            0 <= i < evs.len() && (#[trigger] evs[i] == WorkerEvent::Cancelled || evs[i]
                == WorkerEvent::Eof || evs[i] == WorkerEvent::Fatal) {
            let i = choose|i: int|
                0 <= i < evs.len() && (#[trigger] evs[i] == WorkerEvent::Cancelled || evs[i]
                    == WorkerEvent::Eof || evs[i] == WorkerEvent::Fatal);
            if i > 0 && (evs[0] == WorkerEvent::Idle || evs[0] == WorkerEvent::Data) {
                assert(rest[i - 1] == evs[i]);
            }
        }
    }
}

} // verus!
