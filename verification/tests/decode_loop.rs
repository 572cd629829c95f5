use radio_pipeline::decode::{
    interleave, next_block, packet_action, PacketAction, PacketEvent, PcmResult,
};

fn bits(values: &[f32]) -> Vec<u32> {
    values.iter().map(|v| v.to_bits()).collect()
}

fn planar_of(channels: &[&[f32]]) -> PcmResult {
    PcmResult::Planar(channels.iter().map(|c| bits(c)).collect())
}

#[test]
fn interleaving_is_frame_major() {
    let planar = vec![bits(&[1.0, 2.0, 3.0]), bits(&[4.0, 5.0, 6.0])];
    let out = interleave(&planar);
    assert_eq!(out, bits(&[1.0, 4.0, 2.0, 5.0, 3.0, 6.0]));
}

#[test]
fn interleaving_one_channel_is_the_channel() {
    let planar = vec![bits(&[0.5, -0.5, 0.25])];
    assert_eq!(interleave(&planar), bits(&[0.5, -0.5, 0.25]));
}

#[test]
fn foreign_track_packets_never_contribute() {
    // The foreign packet carries loud, distinctive samples; the selected
    // track's packet carries others. Only the latter may come out.
    let events = vec![
        PacketEvent::Audio { track_id: 7, pcm: planar_of(&[&[9.0, 9.0]]) },
        PacketEvent::Audio { track_id: 3, pcm: planar_of(&[&[0.1, 0.2]]) },
        PacketEvent::Audio { track_id: 7, pcm: planar_of(&[&[8.0, 8.0]]) },
    ];
    let block = next_block(3, 1, &events).expect("the matching packet must decode");
    assert_eq!(block, bits(&[0.1, 0.2]));
}

#[test]
fn malformed_packets_are_skipped() {
    let events = vec![
        PacketEvent::Audio { track_id: 3, pcm: PcmResult::Malformed },
        PacketEvent::Audio { track_id: 3, pcm: planar_of(&[&[0.5], &[0.7]]) },
    ];
    let block = next_block(3, 2, &events).expect("decoding must survive a malformed packet");
    assert_eq!(block, bits(&[0.5, 0.7]));
}

#[test]
fn unsupported_buffer_ends_the_stream() {
    let events = vec![
        PacketEvent::Audio { track_id: 3, pcm: PcmResult::Unsupported },
        PacketEvent::Audio { track_id: 3, pcm: planar_of(&[&[0.5]]) },
    ];
    assert!(next_block(3, 1, &events).is_none());
}

#[test]
fn reader_failure_ends_the_stream() {
    let events = vec![
        PacketEvent::ReadFailed,
        PacketEvent::Audio { track_id: 3, pcm: planar_of(&[&[0.5]]) },
    ];
    assert!(next_block(3, 1, &events).is_none());
    assert!(next_block(3, 1, &vec![]).is_none());
}

#[test]
fn foreign_malformed_packets_are_skipped_without_being_decoded() {
    // A foreign packet is discarded on its track id alone, whatever its
    // payload would decode to — even an unsupported buffer on a foreign
    // track must not end the stream.
    let events = vec![
        PacketEvent::Audio { track_id: 9, pcm: PcmResult::Unsupported },
        PacketEvent::Audio { track_id: 9, pcm: PcmResult::Malformed },
        PacketEvent::Audio { track_id: 3, pcm: planar_of(&[&[0.25, 0.75]]) },
    ];
    let block = next_block(3, 1, &events).expect("foreign packets must not end the stream");
    assert_eq!(block, bits(&[0.25, 0.75]));
}

#[test]
fn step_decisions_match_the_loop() {
    assert!(matches!(packet_action(3, 1, PacketEvent::ReadFailed), PacketAction::Stop));
    assert!(matches!(
        packet_action(3, 1, PacketEvent::Audio { track_id: 4, pcm: PcmResult::Unsupported }),
        PacketAction::Skip
    ));
    assert!(matches!(
        packet_action(3, 1, PacketEvent::Audio { track_id: 3, pcm: PcmResult::Malformed }),
        PacketAction::Skip
    ));
    assert!(matches!(
        packet_action(3, 1, PacketEvent::Audio { track_id: 3, pcm: PcmResult::Unsupported }),
        PacketAction::Stop
    ));
    match packet_action(3, 2, PacketEvent::Audio { track_id: 3, pcm: planar_of(&[&[1.0], &[2.0]]) })
    {
        PacketAction::Deliver(b) => assert_eq!(b, bits(&[1.0, 2.0])),
        _ => panic!("a decodable packet of the selected track must deliver"),
    }
}
