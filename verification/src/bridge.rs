//! Sample stream bridge: variable-size resampled blocks in, one sample at
//! a time out.
//!
//! The bridge holds the current resampled block and a cursor. While the
//! cursor is inside the block, pulling returns the sample under it and
//! advances. When the block is spent the owner runs the decode loop and the
//! resampler once more and hands the next block in; when the decode loop
//! signals end of stream instead, the bridge ends — permanently, whatever
//! is offered later. It is consumed by exactly one owner, the output sink's
//! pull thread, for the lifetime of one session.

use vstd::prelude::*;

verus! {

/// Mathematical state of a bridge: the block as a sequence of
/// single-precision bit patterns, the cursor, and whether it has ended.
pub struct BridgeView {
    pub block: Seq<u32>,
    pub cursor: int,
    pub ended: bool,
}

/// The pull state of one session's sample stream.
pub struct SampleBridge {
    /// The resampled block being drained, as single-precision bit patterns.
    pub block: Vec<u32>,
    /// Index into `block` of the next sample to hand out.
    pub cursor: usize,
    /// Set once the decode loop has signalled end of stream; never cleared.
    pub ended: bool,
}

impl View for SampleBridge {
    type V = BridgeView;

    open spec fn view(&self) -> BridgeView {
        BridgeView { block: self.block@, cursor: self.cursor as int, ended: self.ended }
    }
}

/// Whether a pull on this state must be handed a refill to make progress.
pub open spec fn spec_needs_refill(v: BridgeView) -> bool {
    !v.ended && v.cursor >= v.block.len()
}

/// One pull of the bridge, `refill` being what the decode loop yielded if
/// the bridge asked for it: the state afterwards and the sample handed out.
///
/// An ended bridge stays exactly as it is and yields nothing, whatever is
/// offered — the end is permanent. A bridge with samples left under the
/// cursor yields the one under it and advances, leaving any offered refill
/// unused. A spent bridge installs the offered block and yields its first
/// sample — or nothing, for an offered empty block, the cursor having
/// passed it — and ends for good when the offer is `None`.
pub open spec fn spec_bridge_step(v: BridgeView, refill: Option<Seq<u32>>) -> (BridgeView, Option<
    u32,
>) {
    if v.ended {
        (v, None)
    } else if v.cursor < v.block.len() {
        (BridgeView { cursor: v.cursor + 1, ..v }, Some(v.block[v.cursor]))
    } else {
        match refill {
            None => (BridgeView { ended: true, ..v }, None),
            Some(next) => if next.len() == 0 {
                (BridgeView { block: next, cursor: 1, ..v }, None)
            } else {
                (BridgeView { block: next, cursor: 1, ..v }, Some(next[0]))
            },
        }
    }
}

impl SampleBridge {
    /// A fresh bridge: no block yet, so the first pull asks for a refill.
    pub fn new() -> (b: SampleBridge)
        ensures
            b@.block.len() == 0,
            b@.cursor == 0,
            !b@.ended,
            spec_needs_refill(b@),
    {
        SampleBridge { block: Vec::new(), cursor: 0, ended: false }
    }

    /// Whether the next pull must be handed a refill to make progress: the
    /// current block is spent and the stream has not ended.
    pub fn needs_refill(&self) -> (r: bool)
        ensures
            r == spec_needs_refill(self@),
    {
        !self.ended && self.cursor >= self.block.len()
    }

    /// Pull one sample. The owner passes the next decoded-and-resampled
    /// block (or `None` at end of stream) when [`Self::needs_refill`] said
    /// so, and `None` otherwise; an unneeded offer is left unused.
    pub fn next_sample(&mut self, refill: Option<Vec<u32>>) -> (r: Option<u32>)
        ensures
            ({
                let refill_view = match refill {
                    Some(v) => Some(v@),
                    None => None,
                };
                let stepped = spec_bridge_step(old(self)@, refill_view);
                (*final(self))@ == stepped.0 && r == stepped.1
            }),
            old(self)@.ended ==> r is None && *final(self) == *old(self),
    {
        if self.ended {
            return None;
        }
        if self.cursor < self.block.len() {
            let sample = self.block[self.cursor];
            self.cursor = self.cursor + 1;
            return Some(sample);
        }
        match refill {
            None => {
                self.ended = true;
                None
            },
            Some(next) => {
                let sample = if next.len() == 0 {
                    None
                } else {
                    Some(next[0])
                };
                self.block = next;
                self.cursor = 1;
                sample
            },
        }
    }
}

/// The end of the stream is permanent: however often an ended bridge is
/// pulled, and whatever it is offered, it stays ended and yields nothing.
pub proof fn lemma_end_is_permanent(v: BridgeView, refill: Option<Seq<u32>>)
    requires
        v.ended,
    ensures
        spec_bridge_step(v, refill) == (v, None::<u32>),
        spec_bridge_step(v, refill).0.ended,
{
}

/// The state a bridge is left in by a whole run of pulls, offered the
/// given refills one per pull.
pub open spec fn spec_bridge_run(v: BridgeView, refills: Seq<Option<Seq<u32>>>) -> BridgeView
    decreases refills.len(),
{
    if refills.len() == 0 {
        v
    } else {
        spec_bridge_run(spec_bridge_step(v, refills[0]).0, refills.skip(1))
    }
}

/// No run of pulls, however long and whatever it offers, moves an ended
/// bridge: once the decode loop has signalled end of stream, there are no
/// further samples, ever.
pub proof fn lemma_ended_bridge_stays_ended(v: BridgeView, refills: Seq<Option<Seq<u32>>>)
    requires
        v.ended,
    ensures
        spec_bridge_run(v, refills) == v,
    decreases refills.len(),
{
    if refills.len() > 0 {
        lemma_end_is_permanent(v, refills[0]);
        lemma_ended_bridge_stays_ended(v, refills.skip(1));
    }
}

} // verus!
