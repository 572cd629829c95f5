//! Packet decode loop: track selection, error policy and sample layout.
//!
//! The real loop pulls packets from a container reader bound to the live
//! stream and decodes them with a codec supplied by the probing library;
//! both are opaque handles doing blocking network reads, so the caller owns
//! them and reports each pull as a [`PacketEvent`]. Everything the loop
//! decides is verified here: which packets are discarded (every packet of
//! another track, silently), which errors are survived (a malformed packet
//! is skipped), which end it (the stream closing, an unsupported format),
//! and how a decoded planar buffer is laid out as one interleaved block.
//!
//! Samples are the bit patterns of single-precision numbers, channel-major
//! in the planar form and frame-major interleaved: frame `f` of channel `c`
//! lands at output index `f * channel_count + c`.

use vstd::arithmetic::div_mod::{
    lemma_fundamental_div_mod_converse_div,
    lemma_fundamental_div_mod_converse_mod,
};
use vstd::prelude::*;

verus! {

/// What decoding one packet's payload yields.
pub enum PcmResult {
    /// Planar single-precision PCM: one sample vector per channel.
    Planar(Vec<Vec<u32>>),
    /// A recoverable decode error: the packet is skipped, the loop goes on.
    Malformed,
    /// The decoded buffer is of a format the pipeline does not handle:
    /// the loop ends, as for any structural error.
    Unsupported,
}

/// One pull from the container reader.
pub enum PacketEvent {
    /// A packet arrived, carrying its track id and what its payload
    /// decodes to. The payload of a packet from a foreign track is never
    /// looked at.
    Audio { track_id: u32, pcm: PcmResult },
    /// The reader failed: the live stream ended or broke. The loop ends.
    ReadFailed,
}

/// Interleaving of a planar buffer, frame-major: sample `f` of channel `c`
/// lands at index `f * channels + c`.
pub open spec fn spec_interleave(planar: Seq<Seq<u32>>, frames: int) -> Seq<u32>
    recommends
        planar.len() >= 1,
{
    Seq::new(
        (frames * planar.len()) as nat,
        |i: int| planar[i % planar.len() as int][i / planar.len() as int],
    )
}

/// A planar buffer fit for a pipeline of `channels` channels: one sample
/// vector per channel, all of one length, with a total that fits the
/// machine's word.
pub open spec fn spec_planar_wf(planar: Seq<Seq<u32>>, channels: int) -> bool {
    &&& planar.len() == channels
    &&& channels >= 1
    &&& forall|c: int| 0 <= c < planar.len() ==> (#[trigger] planar[c]).len() == planar[0].len()
    &&& planar[0].len() * channels <= usize::MAX
}

/// Lay a planar buffer out as one interleaved sample vector.
pub fn interleave(planar: &Vec<Vec<u32>>) -> (r: Vec<u32>)
    requires
        spec_planar_wf(planar.deep_view(), planar@.len() as int),
    ensures
        r@ == spec_interleave(planar.deep_view(), planar@[0]@.len() as int),
        r@.len() == planar@[0]@.len() * planar@.len(),
        forall|f: int, c: int|
            0 <= f < planar@[0]@.len() && 0 <= c < planar@.len() ==> r@[f * planar@.len() + c]
                == planar@[c]@[f],
{
    let channels: usize = planar.len();
    let frames: usize = planar[0].len();
    let ghost dv = planar.deep_view();
    proof {
        assert forall|c: int| 0 <= c < channels implies (#[trigger] planar@[c])@.len()
            == frames by {
            assert(dv[c].len() == dv[0].len());
        }
    }
    let mut out: Vec<u32> = Vec::new();
    let mut f: usize = 0;
    while f < frames
        invariant
            f <= frames,
            channels == planar@.len(),
            channels >= 1,
            frames == planar@[0]@.len(),
            dv == planar.deep_view(),
            forall|c: int| 0 <= c < channels ==> (#[trigger] planar@[c])@.len() == frames,
            frames * channels <= usize::MAX,
            out@.len() == f * channels,
            forall|i: int|
                0 <= i < out@.len() ==> out@[i] == dv[i % channels as int][i / channels as int],
        decreases frames - f,
    {
        let mut c: usize = 0;
        proof {
            assert((f as int) * (channels as int) + channels as int <= (frames as int) * (
            channels as int)) by (nonlinear_arith)
                requires
                    f < frames,
                    channels >= 1,
            ;
        }
        while c < channels
            invariant
                c <= channels,
                f < frames,
                channels == planar@.len(),
                channels >= 1,
                frames == planar@[0]@.len(),
                dv == planar.deep_view(),
                forall|cc: int| 0 <= cc < channels ==> (#[trigger] planar@[cc])@.len() == frames,
                f * channels + channels <= frames * channels,
                frames * channels <= usize::MAX,
                out@.len() == f * channels + c,
                forall|i: int|
                    0 <= i < out@.len() ==> out@[i] == dv[i % channels as int][i / channels as int],
            decreases channels - c,
        {
            out.push(planar[c][f]);
            proof {
                let i: int = (f as int) * (channels as int) + (c as int);
                lemma_fundamental_div_mod_converse_div(i, channels as int, f as int, c as int);
                lemma_fundamental_div_mod_converse_mod(i, channels as int, f as int, c as int);
            }
            c = c + 1;
        }
        proof {
            assert(((f as int) + 1) * (channels as int) == (f as int) * (channels as int) + (
            channels as int)) by (nonlinear_arith);
        }
        f = f + 1;
    }
    proof {
        assert(out@ =~= spec_interleave(dv, frames as int));
        assert forall|ff: int, cc: int|
            0 <= ff < frames && 0 <= cc < channels implies out@[ff * channels + cc]
            == planar@[cc]@[ff] by {
            assert(0 <= ff * (channels as int) + cc < (frames as int) * (channels as int))
                by (nonlinear_arith)
                requires
                    0 <= ff < frames,
                    0 <= cc < channels,
            ;
            let i: int = ff * (channels as int) + cc;
            lemma_fundamental_div_mod_converse_div(i, channels as int, ff, cc);
            lemma_fundamental_div_mod_converse_mod(i, channels as int, ff, cc);
            assert(dv[cc][ff] == planar@[cc]@[ff]);
        }
    }
    out
}

/// What the decode loop does with one reader pull.
pub enum PacketAction {
    /// A packet of the selected track decoded: hand its interleaved
    /// samples on to the resampler.
    Deliver(Vec<u32>),
    /// Nothing usable, nothing fatal: pull the next packet.
    Skip,
    /// A structural event: the loop ends, signalling end of stream.
    Stop,
}

/// Decide one step of the decode loop. The owner of the reader pulls one
/// packet, reports it as an event, and does what the decision says: skip
/// to the next pull, stop for good, or deliver the interleaved samples.
///
/// A packet of a foreign track is always skipped, its payload unread; a
/// malformed packet of the selected track is skipped too. The reader
/// failing or an unsupported buffer on the selected track stops the loop.
pub fn packet_action(target_track: u32, channels: usize, event: PacketEvent) -> (r: PacketAction)
    requires
        match event {
            PacketEvent::Audio { track_id, pcm } => track_id == target_track ==> match pcm {
                PcmResult::Planar(planar) => spec_planar_wf(planar.deep_view(), channels as int),
                _ => true,
            },
            _ => true,
        },
    ensures
        match r {
            PacketAction::Stop => event matches PacketEvent::ReadFailed || (
            event matches PacketEvent::Audio { track_id, pcm } && track_id == target_track
                && pcm is Unsupported),
            PacketAction::Skip => event matches PacketEvent::Audio { track_id, pcm } && (track_id
                != target_track || pcm is Malformed),
            PacketAction::Deliver(b) => event matches PacketEvent::Audio { track_id, pcm }
                && track_id == target_track && (pcm matches PcmResult::Planar(planar) && b@
                == spec_interleave(planar.deep_view(), planar@[0]@.len() as int)),
        },
        event matches PacketEvent::Audio { track_id, .. } && track_id != target_track ==> r
            is Skip,
{
    match event {
        PacketEvent::ReadFailed => PacketAction::Stop,
        PacketEvent::Audio { track_id, pcm } => {
            if track_id != target_track {
                // A foreign track's packet: discarded, payload unread.
                PacketAction::Skip
            } else {
                match pcm {
                    PcmResult::Malformed => PacketAction::Skip,
                    PcmResult::Unsupported => PacketAction::Stop,
                    PcmResult::Planar(planar) => PacketAction::Deliver(interleave(&planar)),
                }
            }
        },
    }
}

/// What the decode loop yields from a finite trace of reader pulls, for
/// the selected track: the interleaved samples of the first packet of that
/// track whose payload decodes, or `None` when a structural event — the
/// reader failing or an unsupported buffer on the selected track — or the
/// end of the trace comes first. A packet of a foreign track is passed
/// over without its payload being looked at, as is a malformed packet of
/// the selected track.
pub open spec fn spec_next_block(target_track: u32, events: Seq<PacketEvent>) -> Option<Seq<u32>>
    decreases events.len(),
{
    if events.len() == 0 {
        None
    } else {
        match events[0] {
            PacketEvent::ReadFailed => None,
            PacketEvent::Audio { track_id, pcm } => {
                if track_id != target_track {
                    spec_next_block(target_track, events.skip(1))
                } else {
                    match pcm {
                        PcmResult::Malformed => spec_next_block(target_track, events.skip(1)),
                        PcmResult::Unsupported => None,
                        PcmResult::Planar(planar) => Some(
                            spec_interleave(planar.deep_view(), planar@[0]@.len() as int),
                        ),
                    }
                }
            },
        }
    }
}

/// Run the decode loop's selection over a finite trace of reader pulls.
/// Every planar payload of the selected track must fit the fixed channel
/// count of the session — the probing library guarantees as much for the
/// real loop.
pub fn next_block(target_track: u32, channels: usize, events: &Vec<PacketEvent>) -> (r: Option<
    Vec<u32>,
>)
    requires
        forall|j: int|
            0 <= j < events@.len() ==> match #[trigger] events@[j] {
                PacketEvent::Audio { track_id, pcm } => track_id == target_track ==> match pcm {
                    PcmResult::Planar(planar) => spec_planar_wf(
                        planar.deep_view(),
                        channels as int,
                    ),
                    _ => true,
                },
                _ => true,
            },
    ensures
        match r {
            Some(b) => spec_next_block(target_track, events@) == Some(b@),
            None => spec_next_block(target_track, events@) is None,
        },
{
    let n: usize = events.len();
    proof {
        assert(events@.skip(0) =~= events@);
    }
    let mut j: usize = 0;
    while j < n
        invariant
            j <= n,
            n == events@.len(),
            spec_next_block(target_track, events@) == spec_next_block(
                target_track,
                events@.skip(j as int),
            ),
            forall|jj: int|
                0 <= jj < events@.len() ==> match #[trigger] events@[jj] {
                    PacketEvent::Audio { track_id, pcm } => track_id == target_track
                        ==> match pcm {
                        PcmResult::Planar(planar) => spec_planar_wf(
                            planar.deep_view(),
                            channels as int,
                        ),
                        _ => true,
                    },
                    _ => true,
                },
        decreases n - j,
    {
        proof {
            assert(events@.skip(j as int)[0] == events@[j as int]);
        }
        match &events[j] {
            PacketEvent::ReadFailed => {
                return None;
            },
            PacketEvent::Audio { track_id, pcm } => {
                if *track_id != target_track {
                    // A foreign track's packet: discarded, payload unread.
                } else {
                    match pcm {
                        PcmResult::Malformed => {
                            // A recoverable decode error: skip this packet.
                        },
                        PcmResult::Unsupported => {
                            return None;
                        },
                        PcmResult::Planar(planar) => {
                            let block = interleave(planar);
                            proof {
                                assert(events@.skip(j as int).skip(1) =~= events@.skip(
                                    j as int + 1,
                                ));
                            }
                            return Some(block);
                        },
                    }
                }
            },
        }
        proof {
            assert(events@.skip(j as int).skip(1) =~= events@.skip(j as int + 1));
        }
        j = j + 1;
    }
    proof {
        assert(events@.skip(n as int) =~= Seq::<PacketEvent>::empty());
    }
    None
}

/// Packets of a foreign track never contribute: dropping any one of them
/// from the trace leaves the decode loop's outcome untouched.
pub proof fn lemma_foreign_track_never_contributes(
    target_track: u32,
    events: Seq<PacketEvent>,
    j: int,
)
    requires
        0 <= j < events.len(),
        events[j] matches PacketEvent::Audio { track_id, .. } && track_id != target_track,
    ensures
        spec_next_block(target_track, events.remove(j)) == spec_next_block(target_track, events),
    decreases j,
{
    if j == 0 {
        assert(events.remove(0) =~= events.skip(1));
    } else {
        let tail = events.skip(1);
        assert(tail[j - 1] == events[j]);
        assert(events.remove(j).len() == events.len() - 1);
        assert(events.remove(j)[0] == events[0]);
        assert(events.remove(j).skip(1) =~= tail.remove(j - 1));
        lemma_foreign_track_never_contributes(target_track, tail, j - 1);
    }
}

} // verus!
