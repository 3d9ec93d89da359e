use vocoder_rs::messages::ProduceRequest;
use vocoder_rs::packets::{
    consume_step, produced_packet_count, silent_frame, ConsumeEvent, ConsumeStep, PacketEndpoint,
    PacketTally, VOICE_FRAME_BYTES,
};

fn run(endpoint: PacketEndpoint, packets: u32, error: Option<&str>) -> (bool, String) {
    let mut tally = PacketTally::new();
    for _ in 0..packets {
        match consume_step(endpoint, tally, ConsumeEvent::Received) {
            ConsumeStep::Continue(next) => tally = next,
            ConsumeStep::Reply(_) => panic!("a packet must not end the stream"),
        }
    }
    let last = match error {
        Some(e) => ConsumeEvent::Failed(e.to_string()),
        None => ConsumeEvent::Ended,
    };
    match consume_step(endpoint, tally, last) {
        ConsumeStep::Reply(reply) => (reply.success, reply.message),
        ConsumeStep::Continue(_) => panic!("the stream must be answered"),
    }
}

#[test]
fn tally_counts_packets() {
    let mut tally = PacketTally::new();
    assert_eq!(tally.received(), 0);
    for expected in 1..=12u32 {
        tally = match consume_step(PacketEndpoint::PacketService, tally, ConsumeEvent::Received) {
            ConsumeStep::Continue(next) => next,
            ConsumeStep::Reply(_) => panic!("unexpected reply"),
        };
        assert_eq!(tally.received(), expected);
    }
}

#[test]
fn ended_stream_reports_count() {
    assert_eq!(run(PacketEndpoint::VocoderService, 0, None), (true, "Successfully processed 0 packets".to_string()));
    assert_eq!(run(PacketEndpoint::VocoderService, 3, None), (true, "Successfully processed 3 packets".to_string()));
    assert_eq!(run(PacketEndpoint::PacketService, 105, None), (true, "PacketService: Processed 105 packets".to_string()));
    assert_eq!(run(PacketEndpoint::PacketService, 10, None), (true, "PacketService: Processed 10 packets".to_string()));
}

#[test]
fn failed_stream_reports_error() {
    assert_eq!(run(PacketEndpoint::VocoderService, 4, Some("broken pipe")),
        (false, "Error processing packets: broken pipe".to_string()));
    assert_eq!(run(PacketEndpoint::PacketService, 0, Some("reset")),
        (false, "Packet service error: reset".to_string()));
}

#[test]
fn produce_yields_at_least_one_packet() {
    assert_eq!(produced_packet_count(&ProduceRequest { max_packets: 0 }), 1);
    assert_eq!(produced_packet_count(&ProduceRequest { max_packets: -7 }), 1);
    assert_eq!(produced_packet_count(&ProduceRequest { max_packets: 1 }), 1);
    assert_eq!(produced_packet_count(&ProduceRequest { max_packets: 25 }), 25);
    assert_eq!(produced_packet_count(&ProduceRequest { max_packets: i32::MAX }), i32::MAX as usize);
}

#[test]
fn produced_frames_are_silent_and_numbered() {
    for i in [0usize, 1, 159, 1000] {
        let frame = silent_frame(i);
        assert_eq!(frame.data.len(), VOICE_FRAME_BYTES);
        assert_eq!(VOICE_FRAME_BYTES, 160);
        assert!(frame.data.iter().all(|b| *b == 0));
        assert_eq!(frame.sequence_number, i as i32);
    }
}
