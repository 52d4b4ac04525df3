use gdl90::decoder::{DecodeResult, Gdl90Decoder};
use gdl90::error::Gdl90Error;
use gdl90::message::{Gdl90Message, Heartbeat};

#[test]
fn incomplete() {
    let mut decoder = Gdl90Decoder::new();
    let result = decoder.decode_bytes(&[0]);
    match result {
        DecodeResult::Incomplete => {
            assert!(true);
        }
        DecodeResult::Complete(_) => {
            assert!(false);
        }
    }
}

#[test]
fn heartbeat() {
    let mut decoder = Gdl90Decoder::new();
    let result =
        decoder.decode_bytes(&[0x7E, 0x00, 0x81, 0x41, 0xDB, 0xD0, 0x08, 0x02, 0xB3, 0x8B, 0x7E]);
    match result {
        DecodeResult::Incomplete => {
            assert!(false);
        }
        DecodeResult::Complete(messages) => {
            assert_eq!(messages.len(), 1);
            match &messages[0] {
                Ok(message) => match message {
                    Gdl90Message::Heartbeat(heartbeat) => {
                        let expected = Heartbeat::new(0x81, 0x41, 53467, 520);
                        assert_eq!(*heartbeat, expected);
                    }
                    _ => {
                        assert!(false);
                    }
                },
                Err(_) => assert!(false),
            }
        }
    }
}

#[test]
fn no_flag_stays_incomplete() {
    let mut decoder = Gdl90Decoder::new();
    // No 0x7E anywhere: nothing can complete, whatever else the bytes hold.
    let result = decoder.decode_bytes(&[0x00, 0x10, 0x20, 0x7D, 0x55, 0xFF, 0x01]);
    assert!(matches!(result, DecodeResult::Incomplete));
}

#[test]
fn byte_stuffing_round_trip() {
    // Heartbeat whose status bytes are the flag and escape values themselves,
    // sent stuffed as 0x7D followed by the byte XOR 0x20.
    let mut decoder = Gdl90Decoder::new();
    let result = decoder.decode_bytes(&[
        0x7E, 0x00, 0x7D, 0x5D, 0x7D, 0x5E, 0xDB, 0xD0, 0x08, 0x02, 0x00, 0x00, 0x7E,
    ]);
    match result {
        DecodeResult::Complete(messages) => {
            assert_eq!(messages.len(), 1);
            match &messages[0] {
                Ok(Gdl90Message::Heartbeat(h)) => {
                    assert_eq!(*h, Heartbeat::new(0x7D, 0x7E, 53467, 520));
                }
                _ => assert!(false),
            }
        }
        DecodeResult::Incomplete => assert!(false),
    }
}

#[test]
fn two_frames_in_one_call() {
    let mut decoder = Gdl90Decoder::new();
    // An unknown-type frame followed by a well-formed heartbeat: two outcomes
    // in arrival order, and the bad frame does not disturb the good one.
    let result = decoder.decode_bytes(&[
        0x7E, 0xFF, 0x01, 0x02, 0x03, 0x7E, //
        0x7E, 0x00, 0x81, 0x41, 0xDB, 0xD0, 0x08, 0x02, 0xB3, 0x8B, 0x7E,
    ]);
    match result {
        DecodeResult::Complete(messages) => {
            assert_eq!(messages.len(), 2);
            assert!(matches!(messages[0], Err(Gdl90Error::UnknownMessageType)));
            match &messages[1] {
                Ok(Gdl90Message::Heartbeat(h)) => {
                    assert_eq!(*h, Heartbeat::new(0x81, 0x41, 53467, 520));
                }
                _ => assert!(false),
            }
        }
        DecodeResult::Incomplete => assert!(false),
    }
}

#[test]
fn frame_split_across_calls() {
    let mut decoder = Gdl90Decoder::new();
    let first = decoder.decode_bytes(&[0x7E, 0x00, 0x81, 0x41]);
    assert!(matches!(first, DecodeResult::Incomplete));
    let second = decoder.decode_bytes(&[0xDB, 0xD0, 0x08, 0x02, 0xB3, 0x8B, 0x7E]);
    match second {
        DecodeResult::Complete(messages) => {
            assert_eq!(messages.len(), 1);
            match &messages[0] {
                Ok(Gdl90Message::Heartbeat(h)) => {
                    assert_eq!(*h, Heartbeat::new(0x81, 0x41, 53467, 520));
                }
                _ => assert!(false),
            }
        }
        DecodeResult::Incomplete => assert!(false),
    }
}

#[test]
fn frame_too_short_for_check_bytes() {
    let mut decoder = Gdl90Decoder::new();
    // Only one byte between the flags: nothing is left once the two frame
    // check bytes are dropped.
    let result = decoder.decode_bytes(&[0x7E, 0x00, 0x7E]);
    match result {
        DecodeResult::Complete(messages) => {
            assert_eq!(messages.len(), 1);
            assert!(matches!(messages[0], Err(Gdl90Error::InvalidMessage)));
        }
        DecodeResult::Incomplete => assert!(false),
    }
}

#[test]
fn wrong_heartbeat_length_is_invalid() {
    let mut decoder = Gdl90Decoder::new();
    // Type byte 0x00 but only four payload bytes before the check bytes.
    let result = decoder.decode_bytes(&[0x7E, 0x00, 0x81, 0x41, 0xDB, 0xD0, 0xB3, 0x8B, 0x7E]);
    match result {
        DecodeResult::Complete(messages) => {
            assert_eq!(messages.len(), 1);
            assert!(matches!(messages[0], Err(Gdl90Error::InvalidMessage)));
        }
        DecodeResult::Incomplete => assert!(false),
    }
}
