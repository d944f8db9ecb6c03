//! The dynamic audio mixer's filter graph description and slot addressing.

use vstd::prelude::*;
use crate::text::{decimal_spec, u64_to_decimal};

verus! {

/// The name of the buffer source that feeds slot `i`.
pub open spec fn slot_name_spec(i: nat) -> Seq<char> {
    "in_"@ + decimal_spec(i)
}

/// The arguments of every slot's buffer source at sample rate `rate`: packed
/// 16-bit stereo, one tick per sample.
pub open spec fn source_args_spec(rate: nat) -> Seq<char> {
    "time_base=1/"@ + decimal_spec(rate) + ":sample_rate="@ + decimal_spec(rate)
        + ":sample_fmt=s16:channel_layout=stereo"@
}

/// The arguments of the mixing node for `n` inputs.
pub open spec fn amix_args_spec(n: nat) -> Seq<char> {
    "inputs="@ + decimal_spec(n) + ":duration=longest"@
}

fn concat3(a: &str, b: &str, c: &str) -> (r: String)
    ensures
        r@ == a@ + b@ + c@,
{
    let mut s = a.to_owned();
    s.append(b);
    s.append(c);
    s
}

/// The name of slot `i`'s buffer source.
pub fn slot_name(i: usize) -> (r: String)
    ensures
        r@ == slot_name_spec(i as nat),
{
    let mut s = "in_".to_owned();
    let d = u64_to_decimal(i as u64);
    s.append(d.as_str());
    s
}

/// The name of slot `slot` of a mixer with `slots` inputs; `None` when the
/// mixer has no such slot.
pub fn checked_slot_name(slot: usize, slots: usize) -> (r: Option<String>)
    ensures
        slot < slots ==> r.is_some() && r.unwrap()@ == slot_name_spec(slot as nat),
        slot >= slots ==> r.is_none(),
{
    if slot < slots {
        Some(slot_name(slot))
    } else {
        None
    }
}

/// The filter graph of a mixer: one buffer source per slot, named and
/// configured, and the mixing node's arguments.
pub struct MixerGraph {
    pub sources: Vec<(String, String)>,
    pub amix_args: String,
}

/// Describes the graph of a mixer with `slots` inputs at `sample_rate` Hz.
pub fn mixer_graph(slots: usize, sample_rate: u32) -> (r: MixerGraph)
    ensures
        r.sources@.len() == slots,
        forall|i: int|
            0 <= i < slots ==> (#[trigger] r.sources@[i]).0@ == slot_name_spec(i as nat)
                && r.sources@[i].1@ == source_args_spec(sample_rate as nat),
        r.amix_args@ == amix_args_spec(slots as nat),
{
    let rate = u64_to_decimal(sample_rate as u64);
    let mut sources: Vec<(String, String)> = Vec::new();
    let mut i: usize = 0;
    while i < slots
        invariant
            i <= slots,
            rate@ == decimal_spec(sample_rate as nat),
            sources@.len() == i,
            forall|j: int|
                0 <= j < i ==> (#[trigger] sources@[j]).0@ == slot_name_spec(j as nat)
                    && sources@[j].1@ == source_args_spec(sample_rate as nat),
        decreases slots - i,
    {
        let mut args = concat3("time_base=1/", rate.as_str(), ":sample_rate=");
        args.append(rate.as_str());
        args.append(":sample_fmt=s16:channel_layout=stereo");
        sources.push((slot_name(i), args));
        i = i + 1;
    }
    let n = u64_to_decimal(slots as u64);
    let amix_args = concat3("inputs=", n.as_str(), ":duration=longest");
    MixerGraph { sources, amix_args }
}

/// Which slots of a mixer have a source forwarding into them.
pub struct MixerSources {
    active: Vec<bool>,
}

impl MixerSources {
    /// For each slot, whether a source forwards into it.
    pub closed spec fn view_active(&self) -> Seq<bool> {
        self.active@
    }

    /// A table for `slots` slots, none of them fed.
    pub fn new(slots: usize) -> (r: MixerSources)
        ensures
            r.view_active() == Seq::new(slots as nat, |i: int| false),
    {
        let mut active: Vec<bool> = Vec::new();
        let mut i: usize = 0;
        while i < slots
            invariant
                i <= slots,
                active@ == Seq::new(i as nat, |k: int| false),
            decreases slots - i,
        {
            active.push(false);
            assert(active@ =~= Seq::new((i + 1) as nat, |k: int| false));
            i = i + 1;
        }
        MixerSources { active }
    }

    /// Feeds slot `slot` from a new source. `None` when the mixer has no such
    /// slot (nothing changes); otherwise whether a source already fed it, whose
    /// forwarding task the caller must cancel.
    pub fn add_source(&mut self, slot: usize) -> (r: Option<bool>)
        ensures
            slot >= old(self).view_active().len() ==> r.is_none() && final(self).view_active()
                == old(self).view_active(),
            slot < old(self).view_active().len() ==> r == Some(old(self).view_active()[slot as int])
                && final(self).view_active() == old(self).view_active().update(slot as int, true),
    {
        if slot >= self.active.len() {
            return None;
        }
        let was = self.active[slot];
        self.active.set(slot, true);
        Some(was)
    }

    /// Stops feeding slot `slot`; returns whether a source fed it (its
    /// forwarding task, and only that one, is to be cancelled).
    pub fn remove_source(&mut self, slot: usize) -> (r: bool)
        ensures
            slot >= old(self).view_active().len() ==> !r && final(self).view_active() == old(
                self,
            ).view_active(),
            slot < old(self).view_active().len() ==> r == old(self).view_active()[slot as int]
                && final(self).view_active() == old(self).view_active().update(slot as int, false),
    {
        if slot >= self.active.len() {
            return false;
        }
        let was = self.active[slot];
        self.active.set(slot, false);
        was
    }
}

/// What pulling from the mixer's output gave.
#[derive(Clone, Copy, Debug, PartialEq, Eq, Structural)]
pub enum PullResult {
    /// A mixed frame.
    Frame,
    /// No frame is ready yet (or the graph reached its end).
    Empty,
    /// The graph failed.
    Failed,
}

/// What the mixer's output poller does.
#[derive(Clone, Copy, Debug, PartialEq, Eq, Structural)]
pub enum PollAction {
    /// Publish the frame and pull again.
    Publish,
    /// Sleep a millisecond and pull again.
    SleepAndRetry,
    /// Stop polling.
    Exit,
}

/// The output poller stops when cancelled (checked before pulling) or when
/// the graph fails, publishes each frame, and retries after a short sleep
/// when none is ready.
pub fn poll_step(cancelled: bool, pulled: PullResult) -> (r: PollAction)
    ensures
        cancelled ==> r == PollAction::Exit,
        !cancelled ==> r == match pulled {
            PullResult::Frame => PollAction::Publish,
            PullResult::Empty => PollAction::SleepAndRetry,
            PullResult::Failed => PollAction::Exit,
        },
{
    if cancelled {
        return PollAction::Exit;
    }
    match pulled {
        PullResult::Frame => PollAction::Publish,
        PullResult::Empty => PollAction::SleepAndRetry,
        PullResult::Failed => PollAction::Exit,
    }
}

} // verus!
