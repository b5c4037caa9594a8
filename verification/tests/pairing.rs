use mazocarta::pairing::{
    build_transport_frames, decode_pair_payload, encode_pair_payload, parse_transport_frame, DecodedPairing, PairingBridge,
    TransportSubmitResult,
};

fn sample_offer_sdp() -> &'static str {
    "v=0\r\n\
o=- 111111111111111111 1 IN IP4 192.0.2.1\r\n\
s=-\r\n\
t=0 0\r\n\
a=group:BUNDLE 0\r\n\
a=extmap-allow-mixed\r\n\
a=msid-semantic: WMS\r\n\
m=application 9 UDP/DTLS/SCTP webrtc-datachannel\r\n\
c=IN IP4 0.0.0.0\r\n\
a=candidate:1111111111 1 udp 1111111111 192.0.2.55 55555 typ host generation 0 network-cost 10\r\n\
a=ice-ufrag:FAKE\r\n\
a=ice-pwd:FAKEICEPASSWORDFAKEICE0000\r\n\
a=ice-options:trickle\r\n\
a=fingerprint:sha-256 AA:AA:AA:AA:AA:AA:AA:AA:AA:AA:AA:AA:AA:AA:AA:AA:AA:AA:AA:AA:AA:AA:AA:AA:AA:AA:AA:AA:AA:AA:AA:AA\r\n\
a=setup:actpass\r\n\
a=mid:0\r\n\
a=sctp-port:5000\r\n\
a=max-message-size:262144\r\n"
}

fn submit_raw(bridge: &mut PairingBridge, raw: &str) -> Result<TransportSubmitResult, String> {
    bridge.input_buffer = raw.as_bytes().to_vec();
    bridge.submit_transport_text_from_buffer(raw.len())
}

#[test]
fn v1_pair_payload_round_trips_full_sdp() {
    let raw = ("mazocarta_offer", "ABCD1234", sample_offer_sdp());

    let encoded = encode_pair_payload(raw.0, raw.1, raw.2).expect("encode");
    assert!(encoded.starts_with("MZO1:ABCD1234:"));

    let payload = match decode_pair_payload(&encoded).expect("decode") {
        DecodedPairing::Code(payload) => payload,
        other => panic!("unexpected payload: {other:?}"),
    };
    assert_eq!(payload.kind, "mazocarta_offer");
    assert_eq!(payload.version, 1);
    assert_eq!(payload.invitation_id, "ABCD1234");
    assert_eq!(payload.description_type, "offer");
    assert_eq!(payload.sdp, sample_offer_sdp());
}

#[test]
fn transport_frames_reassemble_with_duplicates_and_out_of_order_frames() {
    let raw = ("mazocarta_offer", "ABCD1234", sample_offer_sdp());
    let encoded = encode_pair_payload(raw.0, raw.1, raw.2).expect("encode");
    let frames = build_transport_frames(&encoded, 24).expect("frames");
    assert!(frames.len() > 1);

    let mut bridge = PairingBridge::default();
    let mut order = vec![1usize, 0, 1];
    order.extend(2..frames.len());
    let mut last_result = None;
    for index in order {
        if index >= frames.len() {
            continue;
        }
        let result = submit_raw(&mut bridge, &frames[index]).expect("submit");
        last_result = Some(result);
    }
    match last_result.expect("result") {
        TransportSubmitResult::Complete => {
            assert_eq!(
                std::str::from_utf8(&bridge.output_buffer).expect("utf8"),
                encoded
            );
        }
        other => panic!("unexpected result: {other:?}"),
    }
}

#[test]
fn transport_assembly_survives_invalid_text_between_frames() {
    let raw = ("mazocarta_offer", "ABCD1234", sample_offer_sdp());
    let encoded = encode_pair_payload(raw.0, raw.1, raw.2).expect("encode");
    let frames = build_transport_frames(&encoded, 24).expect("frames");
    assert!(frames.len() > 1);

    let mut bridge = PairingBridge::default();
    assert!(matches!(
        submit_raw(&mut bridge, &frames[0]).expect("first frame"),
        TransportSubmitResult::Partial
    ));
    assert_eq!(bridge.transport_received_parts(), 1);
    assert_eq!(bridge.transport_total_parts(), frames.len());

    assert!(submit_raw(&mut bridge, "not a pairing code").is_err());
    assert_eq!(bridge.transport_received_parts(), 1);
    assert_eq!(bridge.transport_total_parts(), frames.len());

    assert!(submit_raw(&mut bridge, "MZQ1:malformed").is_err());
    assert_eq!(bridge.transport_received_parts(), 1);
    assert_eq!(bridge.transport_total_parts(), frames.len());

    let mut last_result = None;
    for frame in frames.iter().skip(1) {
        last_result = Some(submit_raw(&mut bridge, frame).expect("submit remaining"));
    }
    assert!(matches!(
        last_result.expect("result"),
        TransportSubmitResult::Complete
    ));
    assert_eq!(
        std::str::from_utf8(&bridge.output_buffer).expect("utf8"),
        encoded
    );
}

#[test]
fn transport_frame_from_new_invitation_restarts_assembly() {
    let first_raw = ("mazocarta_offer", "ABCD1234", sample_offer_sdp());
    let second_raw = ("mazocarta_offer", "WXYZ9876", sample_offer_sdp());
    let first_encoded = encode_pair_payload(first_raw.0, first_raw.1, first_raw.2).expect("encode first");
    let second_encoded = encode_pair_payload(second_raw.0, second_raw.1, second_raw.2).expect("encode second");
    let first_frames = build_transport_frames(&first_encoded, 24).expect("first frames");
    let second_frames = build_transport_frames(&second_encoded, 24).expect("second frames");
    assert!(first_frames.len() > 1);
    assert!(second_frames.len() > 1);

    let mut bridge = PairingBridge::default();
    assert!(matches!(
        submit_raw(&mut bridge, &first_frames[0]).expect("first frame"),
        TransportSubmitResult::Partial
    ));
    assert_eq!(bridge.transport_received_parts(), 1);
    assert_eq!(bridge.transport_total_parts(), first_frames.len());

    assert!(matches!(
        submit_raw(&mut bridge, &second_frames[0]).expect("new first frame"),
        TransportSubmitResult::Partial
    ));
    assert_eq!(bridge.transport_received_parts(), 1);
    assert_eq!(bridge.transport_total_parts(), second_frames.len());

    let mut last_result = None;
    for frame in second_frames.iter().skip(1) {
        last_result = Some(submit_raw(&mut bridge, frame).expect("submit second"));
    }
    assert!(matches!(
        last_result.expect("result"),
        TransportSubmitResult::Complete
    ));
    assert_eq!(
        std::str::from_utf8(&bridge.output_buffer).expect("utf8"),
        second_encoded
    );
}

#[test]
fn transport_frame_parser_restores_trailing_spaces_trimmed_by_decoders() {
    let frame = parse_transport_frame("MZQ1:ABCD1234:D:R:1:1:9:PAYLOAD:")
        .expect("parse")
        .expect("frame");

    assert_eq!(frame.invitation_id, "ABCD1234");
    assert_eq!(frame.kind, 'R');
    assert_eq!(frame.index, 1);
    assert_eq!(frame.count, 1);
    assert_eq!(frame.chunk, "PAYLOAD: ");
}

#[test]
fn transport_encoder_uses_length_guarded_frames() {
    let raw_code = "MZO1:ABCD1234:P:PAYLOAD: ";
    let frames = build_transport_frames(raw_code, 64).expect("frames");
    assert_eq!(frames.len(), 1);
    assert!(frames[0].starts_with("MZQ1:ABCD1234:D:O:1:1:25:"));

    let trimmed = frames[0].trim_end_matches(' ');
    let frame = parse_transport_frame(trimmed)
        .expect("parse")
        .expect("frame");
    assert_eq!(frame.chunk, raw_code);
}

#[test]
fn v1_answer_payload_round_trips_non_minimal_sdp() {
    let sdp = "v=0\r\no=- 1 1 IN IP4 192.0.2.1\r\ns=-\r\nt=0 0\r\nm=application 9 UDP/DTLS/SCTP other-kind\r\n";
    let payload = ("mazocarta_answer", "DEADBEEF", sdp);
    let encoded = encode_pair_payload(payload.0, payload.1, payload.2).expect("encode");
    assert!(encoded.starts_with("MZA1:DEADBEEF:"));
    let json = match decode_pair_payload(&encoded).expect("decode") {
        DecodedPairing::Code(payload) => payload,
        other => panic!("unexpected payload: {other:?}"),
    };
    assert_eq!(json.kind, "mazocarta_answer");
    assert_eq!(json.version, 1);
    assert_eq!(json.invitation_id, "DEADBEEF");
    assert_eq!(json.description_type, "answer");
    assert_eq!(json.sdp, sdp);
}


#[test]
fn base45_text_of_known_bytes() {
    let text: String = mazocarta::pairing::bytes_to_base45(b"AB").into_iter().collect();
    assert_eq!(text, "BB8");
    let text: String = mazocarta::pairing::bytes_to_base45(b"Hello!!").into_iter().collect();
    assert_eq!(text, "%69 VD92EX0");
    assert_eq!(mazocarta::pairing::base45_to_bytes("BB8"), Ok(b"AB".to_vec()));
}

#[test]
fn base45_round_trips_every_byte_pair() {
    for a in [0u8, 1, 44, 45, 200, 255] {
        for b in [0u8, 7, 128, 255] {
            let bytes = vec![a, b, a];
            let text: String = mazocarta::pairing::bytes_to_base45(&bytes).into_iter().collect();
            assert_eq!(mazocarta::pairing::base45_to_bytes(&text), Ok(bytes));
        }
    }
}

#[test]
fn base45_rejects_bad_text() {
    assert_eq!(mazocarta::pairing::base45_to_bytes("A"), Err("Invalid Base45 payload.".to_string()));
    assert_eq!(mazocarta::pairing::base45_to_bytes("ab"), Err("Invalid Base45 payload.".to_string()));
    assert_eq!(mazocarta::pairing::base45_to_bytes("GGW"), Err("Base45 payload overflow.".to_string()));
    assert_eq!(mazocarta::pairing::base45_to_bytes("::"), Err("Base45 payload overflow.".to_string()));
}

#[test]
fn encoding_trims_and_upper_cases_the_invitation_id() {
    let encoded = encode_pair_payload("mazocarta_answer", "  ab12 ", "x").expect("encode");
    assert!(encoded.starts_with("MZA1:AB12:P:"));
    assert_eq!(
        encode_pair_payload("mazocarta_answer", "   ", "x"),
        Err("Invalid pairing payload.".to_string())
    );
    assert_eq!(
        encode_pair_payload("other", "AB", "x"),
        Err("Invalid pairing payload.".to_string())
    );
}

#[test]
fn decoding_reports_each_failure() {
    assert_eq!(decode_pair_payload("\r\n"), Err("Missing pairing payload.".to_string()));
    assert_eq!(decode_pair_payload("MZO1"), Err("Unrecognized pairing payload.".to_string()));
    assert_eq!(decode_pair_payload("XXXX:ID:P:BB8"), Err("Unrecognized pairing payload.".to_string()));
    assert_eq!(decode_pair_payload("MZO1:ID:Q:BB8"), Err("Unsupported pairing payload codec.".to_string()));
    assert_eq!(decode_pair_payload("MZO1:ID:P:A"), Err("Invalid Base45 payload.".to_string()));
    assert_eq!(
        decode_pair_payload("MZO1:ID:Z:FGW"),
        Err("Compressed pairing code could not be restored.".to_string())
    );
    assert_eq!(decode_pair_payload("{not json"), Err("Invalid pairing payload.".to_string()));
    assert!(matches!(decode_pair_payload("{\"a\": 1}"), Ok(DecodedPairing::Json(_))));
}

#[test]
fn plain_code_decodes_to_its_payload() {
    match decode_pair_payload("\tMZO1:ID:P:BB8\n").expect("decode") {
        DecodedPairing::Code(payload) => {
            assert_eq!(payload.sdp, "AB");
            assert_eq!(payload.invitation_id, "ID");
            assert_eq!(payload.kind, "mazocarta_offer");
        }
        other => panic!("unexpected payload: {other:?}"),
    }
}

#[test]
fn malformed_frames_are_refused() {
    assert!(parse_transport_frame("hello").expect("not a frame").is_none());
    assert!(parse_transport_frame("MZQ1:ID:D:O:0:1:1:A").is_err());
    assert!(parse_transport_frame("MZQ1:ID:D:O:2:1:1:A").is_err());
    assert!(parse_transport_frame("MZQ1:ID:X:O:1:1:1:A").is_err());
    assert!(parse_transport_frame("MZQ1:ID:D:O:1:1:1:AB").is_err());
    assert!(parse_transport_frame("MZQ1::D:O:1:1:1:A").is_err());
    let frame = parse_transport_frame("MZQ1:ID:D:O:+1:1:3:A").expect("parse").expect("frame");
    assert_eq!(frame.index, 1);
    assert_eq!(frame.chunk, "A  ");
}

#[test]
fn every_frame_reads_back_and_the_chunks_rejoin_into_the_code() {
    let code = encode_pair_payload("mazocarta_offer", "room-7", sample_offer_sdp()).expect("encode");
    let frames = build_transport_frames(&code, 37).expect("frames");
    let count = frames.len();
    assert!(count > 1);
    let mut joined = String::new();
    for (k, text) in frames.iter().enumerate() {
        let frame = parse_transport_frame(text).expect("parse").expect("frame");
        assert_eq!(frame.invitation_id, "ROOM-7");
        assert_eq!(frame.kind, 'O');
        assert_eq!(frame.index, k + 1);
        assert_eq!(frame.count, count);
        joined.push_str(&frame.chunk);
    }
    assert_eq!(joined, code);
}

#[test]
fn a_repeated_frame_adds_nothing_and_the_last_missing_frame_completes_the_code() {
    let code = encode_pair_payload("mazocarta_offer", "room-8", sample_offer_sdp()).expect("encode");
    let frames = build_transport_frames(&code, 50).expect("frames");
    let count = frames.len();
    assert!(count > 2);
    let mut bridge = PairingBridge::default();
    assert_eq!(bridge.submit_transport_text(&frames[0]), Ok(TransportSubmitResult::Partial));
    assert_eq!(bridge.transport_received_parts(), 1);
    assert_eq!(bridge.transport_total_parts(), count);
    assert_eq!(bridge.submit_transport_text(&frames[0]), Ok(TransportSubmitResult::Partial));
    assert_eq!(bridge.transport_received_parts(), 1);
    let mut last = None;
    for text in frames[1..].iter().rev() {
        last = Some(bridge.submit_transport_text(text));
    }
    assert_eq!(last, Some(Ok(TransportSubmitResult::Complete)));
    assert_eq!(bridge.transport_received_parts(), count);
    assert!(bridge.assembly.is_none());
    assert!(bridge.decoded_payload.is_some());
    // A frame after completion starts a new assembly.
    assert_eq!(bridge.submit_transport_text(&frames[2]), Ok(TransportSubmitResult::Partial));
    assert_eq!(bridge.transport_received_parts(), 1);
}
