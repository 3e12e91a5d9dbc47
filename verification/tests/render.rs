use embedded_midi::{MidiMessage, MidiParser, MidiRenderer};

/// Renders each message in turn through one renderer and asserts that
/// exactly the expected bytes are produced, in order.
fn verify_writes(messages: &[MidiMessage], bytes: &[u8]) {
    let mut renderer = MidiRenderer::new();
    let mut written: Vec<u8> = Vec::new();
    let mut i: usize = 0;
    while i < messages.len() {
        let mut chunk = renderer.render(&messages[i]);
        written.append(&mut chunk);
        i += 1;
    }
    assert_eq!(bytes, written.as_slice());
}

#[test]
fn should_write_midi_message() {
    verify_writes(
        &[MidiMessage::NoteOn {
            channel: 0x02.into(),
            note: 0x76.into(),
            velocity: 0x34.into(),
        }],
        &[0x92, 0x76, 0x34],
    );
}

#[test]
fn should_use_running_status() {
    verify_writes(
        &[
            MidiMessage::NoteOn {
                channel: 0x02.into(),
                note: 0x76.into(),
                velocity: 0x34.into(),
            },
            MidiMessage::NoteOn {
                channel: 0x02.into(),
                note: 0x33.into(),
                velocity: 0x65.into(),
            },
        ],
        &[0x92, 0x76, 0x34, 0x33, 0x65],
    );
}

#[test]
fn should_not_use_running_status_across_channels() {
    verify_writes(
        &[
            MidiMessage::NoteOn {
                channel: 0x02.into(),
                note: 0x76.into(),
                velocity: 0x34.into(),
            },
            MidiMessage::NoteOn {
                channel: 0x03.into(),
                note: 0x33.into(),
                velocity: 0x65.into(),
            },
        ],
        &[0x92, 0x76, 0x34, 0x93, 0x33, 0x65],
    );
}

#[test]
fn should_not_use_running_status_across_message_types() {
    verify_writes(
        &[
            MidiMessage::NoteOn {
                channel: 0x02.into(),
                note: 0x76.into(),
                velocity: 0x34.into(),
            },
            MidiMessage::NoteOff {
                channel: 0x02.into(),
                note: 0x33.into(),
                velocity: 0x65.into(),
            },
        ],
        &[0x92, 0x76, 0x34, 0x82, 0x33, 0x65],
    );
}

#[test]
fn should_not_use_running_status_across_system_messages() {
    verify_writes(
        &[
            MidiMessage::NoteOn {
                channel: 0x02.into(),
                note: 0x76.into(),
                velocity: 0x34.into(),
            },
            MidiMessage::TuneRequest,
            MidiMessage::NoteOn {
                channel: 0x02.into(),
                note: 0x33.into(),
                velocity: 0x65.into(),
            },
        ],
        &[0x92, 0x76, 0x34, 0xf6, 0x92, 0x33, 0x65],
    );
}

#[test]
fn should_write_pitch_bend_lsb_first() {
    verify_writes(
        &[MidiMessage::PitchBendChange {
            channel: 0x03.into(),
            value: 0x2000u16.into(),
        }],
        &[0xe3, 0x00, 0x40],
    );
}

#[test]
fn should_write_song_position_lsb_first() {
    verify_writes(
        &[MidiMessage::SongPositionPointer {
            pointer: (0x12, 0x34).into(),
        }],
        &[0xf2, 0x34, 0x12],
    );
}

#[test]
fn should_write_realtime_as_single_byte() {
    verify_writes(&[MidiMessage::TimingClock], &[0xf8]);
    verify_writes(&[MidiMessage::Start], &[0xfa]);
    verify_writes(&[MidiMessage::Continue], &[0xfb]);
    verify_writes(&[MidiMessage::Stop], &[0xfc]);
    verify_writes(&[MidiMessage::ActiveSensing], &[0xfe]);
    verify_writes(&[MidiMessage::Reset], &[0xff]);
}

fn sample_messages() -> Vec<MidiMessage> {
    vec![
        MidiMessage::NoteOff {
            channel: 2.into(),
            note: 0x76.into(),
            velocity: 0x34.into(),
        },
        MidiMessage::NoteOn {
            channel: 15.into(),
            note: 0x00.into(),
            velocity: 0x7f.into(),
        },
        MidiMessage::KeyPressure {
            channel: 10.into(),
            note: 0x13.into(),
            value: 0x34.into(),
        },
        MidiMessage::ControlChange {
            channel: 3.into(),
            control: 0x3c.into(),
            value: 0x18.into(),
        },
        MidiMessage::ProgramChange {
            channel: 9.into(),
            program: 0x15.into(),
        },
        MidiMessage::ChannelPressure {
            channel: 6.into(),
            value: 0x77.into(),
        },
        MidiMessage::PitchBendChange {
            channel: 0.into(),
            value: 0x1234u16.into(),
        },
        MidiMessage::QuarterFrame {
            frame_data: 0x7a.into(),
        },
        MidiMessage::SongPositionPointer {
            pointer: 0x3fffu16.into(),
        },
        MidiMessage::SongSelect(0x09.into()),
        MidiMessage::TuneRequest,
        MidiMessage::EndOfExclusive,
        MidiMessage::TimingClock,
        MidiMessage::Start,
        MidiMessage::Continue,
        MidiMessage::Stop,
        MidiMessage::ActiveSensing,
        MidiMessage::Reset,
    ]
}

/// Parses every byte of `bytes` with a fresh parser and returns the
/// messages that come out.
fn parse_all(bytes: &[u8]) -> Vec<MidiMessage> {
    let mut parser = MidiParser::new();
    let mut events: Vec<MidiMessage> = Vec::new();
    let mut i: usize = 0;
    while i < bytes.len() {
        if let Some(message) = parser.parse_byte(bytes[i]) {
            events.push(message);
        }
        i += 1;
    }
    events
}

#[test]
fn should_round_trip_every_message_kind() {
    let messages = sample_messages();
    let mut i: usize = 0;
    while i < messages.len() {
        let mut renderer = MidiRenderer::new();
        let bytes = renderer.render(&messages[i]);
        let parsed = parse_all(bytes.as_slice());
        assert_eq!(parsed.as_slice(), &messages[i..i + 1]);
        i += 1;
    }
}

#[test]
fn should_parse_the_same_message_twice_identically() {
    let messages = sample_messages();
    let mut i: usize = 0;
    while i < messages.len() {
        let mut renderer = MidiRenderer::new();
        let bytes = renderer.render(&messages[i]);

        // Feed the wire form twice to one parser: same result both times.
        let mut parser = MidiParser::new();
        let mut first: Vec<MidiMessage> = Vec::new();
        let mut second: Vec<MidiMessage> = Vec::new();
        let mut j: usize = 0;
        while j < bytes.len() {
            if let Some(message) = parser.parse_byte(bytes[j]) {
                first.push(message);
            }
            j += 1;
        }
        j = 0;
        while j < bytes.len() {
            if let Some(message) = parser.parse_byte(bytes[j]) {
                second.push(message);
            }
            j += 1;
        }
        assert_eq!(first, second);
        assert_eq!(first.as_slice(), &messages[i..i + 1]);

        // And a second, fresh parser sees exactly the same result.
        let fresh = parse_all(bytes.as_slice());
        assert_eq!(fresh, first);
        i += 1;
    }
}
