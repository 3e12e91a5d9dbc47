use embedded_midi::{
    is_status_byte, is_system_message, split_message_and_channel, Channel, MidiMessage, MidiParser,
};

/// Feeds a slice of bytes to a fresh parser and asserts that exactly the
/// expected messages come out, in order.
fn assert_result(bytes: &[u8], expected_events: &[MidiMessage]) {
    let mut parser = MidiParser::new();
    let mut events: Vec<MidiMessage> = Vec::new();
    let mut i: usize = 0;
    while i < bytes.len() {
        if let Some(message) = parser.parse_byte(bytes[i]) {
            events.push(message);
        }
        i += 1;
    }
    assert_eq!(expected_events, events.as_slice());
}

#[test]
fn should_parse_status_byte() {
    assert!(is_status_byte(0x80u8));
    assert!(is_status_byte(0x94u8));
    assert!(!is_status_byte(0x00u8));
    assert!(!is_status_byte(0x78u8));
}

#[test]
fn should_parse_system_message() {
    assert!(is_system_message(0xf0));
    assert!(is_system_message(0xf4));
    assert!(!is_system_message(0x0f));
    assert!(!is_system_message(0x77));
}

#[test]
fn should_split_message_and_channel() {
    let (message, channel): (u8, Channel) = split_message_and_channel(0x91u8);
    assert_eq!(message, 0x90u8);
    assert_eq!(channel, 1.into());
}

#[test]
fn should_parse_note_off() {
    assert_result(
        &[0x82, 0x76, 0x34],
        &[MidiMessage::NoteOff {
            channel: 2.into(),
            note: 0x76.into(),
            velocity: 0x34.into(),
        }],
    );
}

#[test]
fn should_handle_note_off_running_state() {
    assert_result(
        &[
            0x82, 0x76, 0x34, // First note_off
            0x33, 0x65, // Second note_off without status byte
        ],
        &[
            MidiMessage::NoteOff {
                channel: 2.into(),
                note: 0x76.into(),
                velocity: 0x34.into(),
            },
            MidiMessage::NoteOff {
                channel: 2.into(),
                note: 0x33.into(),
                velocity: 0x65.into(),
            },
        ],
    );
}

#[test]
fn should_parse_note_on() {
    assert_result(
        &[0x91, 0x04, 0x34],
        &[MidiMessage::NoteOn {
            channel: 1.into(),
            note: 4.into(),
            velocity: 0x34.into(),
        }],
    );
}

#[test]
fn should_handle_note_on_running_state() {
    assert_result(
        &[
            0x92, 0x76, 0x34, // First note_on
            0x33, 0x65, // Second note on without status byte
        ],
        &[
            MidiMessage::NoteOn {
                channel: 2.into(),
                note: 0x76.into(),
                velocity: 0x34.into(),
            },
            MidiMessage::NoteOn {
                channel: 2.into(),
                note: 0x33.into(),
                velocity: 0x65.into(),
            },
        ],
    );
}

#[test]
fn should_parse_keypressure() {
    assert_result(
        &[0xAA, 0x13, 0x34],
        &[MidiMessage::KeyPressure {
            channel: 10.into(),
            note: 0x13.into(),
            value: 0x34.into(),
        }],
    );
}

#[test]
fn should_handle_keypressure_running_state() {
    assert_result(
        &[
            0xA8, 0x77, 0x03, // First key_pressure
            0x14, 0x56, // Second key_pressure without status byte
        ],
        &[
            MidiMessage::KeyPressure {
                channel: 8.into(),
                note: 0x77.into(),
                value: 0x03.into(),
            },
            MidiMessage::KeyPressure {
                channel: 8.into(),
                note: 0x14.into(),
                value: 0x56.into(),
            },
        ],
    );
}

#[test]
fn should_parse_control_change() {
    assert_result(
        &[0xB2, 0x76, 0x34],
        &[MidiMessage::ControlChange {
            channel: 2.into(),
            control: 0x76.into(),
            value: 0x34.into(),
        }],
    );
}

#[test]
fn should_parse_control_change_running_state() {
    assert_result(
        &[
            0xb3, 0x3C, 0x18, // First control change
            0x43, 0x01, // Second control change without status byte
        ],
        &[
            MidiMessage::ControlChange {
                channel: 3.into(),
                control: 0x3C.into(),
                value: 0x18.into(),
            },
            MidiMessage::ControlChange {
                channel: 3.into(),
                control: 0x43.into(),
                value: 0x01.into(),
            },
        ],
    );
}

#[test]
fn should_parse_program_change() {
    assert_result(
        &[0xC9, 0x15],
        &[MidiMessage::ProgramChange {
            channel: 9.into(),
            program: 0x15.into(),
        }],
    );
}

#[test]
fn should_parse_program_change_running_state() {
    assert_result(
        &[
            0xC3, 0x67, // First program change
            0x01, // Second program change without status byte
        ],
        &[
            MidiMessage::ProgramChange {
                channel: 3.into(),
                program: 0x67.into(),
            },
            MidiMessage::ProgramChange {
                channel: 3.into(),
                program: 0x01.into(),
            },
        ],
    );
}

#[test]
fn should_parse_channel_pressure() {
    assert_result(
        &[0xDD, 0x37],
        &[MidiMessage::ChannelPressure {
            channel: 13.into(),
            value: 0x37.into(),
        }],
    );
}

#[test]
fn should_parse_channel_pressure_running_state() {
    assert_result(
        &[
            0xD6, 0x77, // First channel pressure
            0x43, // Second channel pressure without status byte
        ],
        &[
            MidiMessage::ChannelPressure {
                channel: 6.into(),
                value: 0x77.into(),
            },
            MidiMessage::ChannelPressure {
                channel: 6.into(),
                value: 0x43.into(),
            },
        ],
    );
}

#[test]
fn should_parse_pitchbend() {
    // Bytes arrive least significant seven bits first: 0x14 is the low
    // half, 0x56 the high half.
    assert_result(
        &[0xE8, 0x14, 0x56],
        &[MidiMessage::PitchBendChange {
            channel: 8.into(),
            value: (0x56, 0x14).into(),
        }],
    );
}

#[test]
fn should_parse_pitchbend_running_state() {
    assert_result(
        &[
            0xE3, 0x3C, 0x18, // First pitchbend
            0x43, 0x01, // Second pitchbend without status byte
        ],
        &[
            MidiMessage::PitchBendChange {
                channel: 3.into(),
                value: (0x18, 0x3C).into(),
            },
            MidiMessage::PitchBendChange {
                channel: 3.into(),
                value: (0x01, 0x43).into(),
            },
        ],
    );
}

#[test]
fn should_parse_quarter_frame() {
    assert_result(
        &[0xf1, 0x7f],
        &[MidiMessage::QuarterFrame {
            frame_data: 0x7f.into(),
        }],
    );
}

#[test]
fn should_handle_quarter_frame_running_state() {
    assert_result(
        &[
            0xf1, 0x7f, // Send quarter frame
            0x56, // Only send data of next quarter frame
        ],
        &[
            MidiMessage::QuarterFrame {
                frame_data: 0x7f.into(),
            },
            MidiMessage::QuarterFrame {
                frame_data: 0x56.into(),
            },
        ],
    );
}

#[test]
fn should_parse_song_position_pointer() {
    // The pointer arrives least significant seven bits first.
    assert_result(
        &[0xf2, 0x7f, 0x68],
        &[MidiMessage::SongPositionPointer {
            pointer: (0x68, 0x7f).into(),
        }],
    );
}

#[test]
fn should_handle_song_position_pointer_running_state() {
    assert_result(
        &[
            0xf2, 0x7f, 0x68, // Send song position pointer
            0x23, 0x7b, // Only send data of next song position pointer
        ],
        &[
            MidiMessage::SongPositionPointer {
                pointer: (0x68, 0x7f).into(),
            },
            MidiMessage::SongPositionPointer {
                pointer: (0x7b, 0x23).into(),
            },
        ],
    );
}

#[test]
fn should_parse_song_select() {
    assert_result(&[0xf3, 0x09], &[MidiMessage::SongSelect(0x09.into())]);
}

#[test]
fn should_handle_song_select_running_state() {
    assert_result(
        &[
            0xf3, 0x09, // Send song select
            0x0a, // Only send data of next song select
        ],
        &[
            MidiMessage::SongSelect(0x09.into()),
            MidiMessage::SongSelect(0x0a.into()),
        ],
    );
}

#[test]
fn should_parse_tune_request() {
    assert_result(&[0xf6], &[MidiMessage::TuneRequest]);
}

#[test]
fn should_interrupt_parsing_for_tune_request() {
    assert_result(
        &[
            0x92, 0x76, // start note_on message
            0xf6, // interrupt with tune request
            0x34, // finish note on, this should be ignored
        ],
        &[MidiMessage::TuneRequest],
    );
}

#[test]
fn should_parse_end_exclusive() {
    assert_result(&[0xf7], &[MidiMessage::EndOfExclusive]);
}

#[test]
fn should_interrupt_parsing_for_end_of_exclusive() {
    assert_result(
        &[
            0x92, 0x76, // start note_on message
            0xf7, // interrupt with end of exclusive
            0x34, // finish note on, this should be ignored
        ],
        &[MidiMessage::EndOfExclusive],
    );
}

#[test]
fn should_interrupt_parsing_for_undefined_message() {
    assert_result(
        &[
            0x92, 0x76, // start note_on message
            0xf5, // interrupt with undefined message
            0x34, // finish note on, this should be ignored
        ],
        &[],
    );
}

#[test]
fn should_interrupt_parsing_for_exclusive_start() {
    assert_result(
        &[
            0x92, 0x76, // start note_on message
            0xf0, // interrupt with a system exclusive start
            0x34, // finish note on, this should be ignored
        ],
        &[],
    );
}

#[test]
fn should_parse_timingclock_message() {
    assert_result(&[0xf8], &[MidiMessage::TimingClock]);
}

#[test]
fn should_parse_timingclock_message_as_realtime() {
    assert_result(
        &[
            0xD6, // Start channel pressure event
            0xf8, // interrupt with midi timing clock
            0x77, // Finish channel pressure
        ],
        &[
            MidiMessage::TimingClock,
            MidiMessage::ChannelPressure {
                channel: 6.into(),
                value: 0x77.into(),
            },
        ],
    );
}

#[test]
fn should_parse_start_message() {
    assert_result(&[0xfa], &[MidiMessage::Start]);
}

#[test]
fn should_parse_start_message_as_realtime() {
    assert_result(
        &[
            0xD6, // Start channel pressure event
            0xfa, // interrupt with start
            0x77, // Finish channel pressure
        ],
        &[
            MidiMessage::Start,
            MidiMessage::ChannelPressure {
                channel: 6.into(),
                value: 0x77.into(),
            },
        ],
    );
}

#[test]
fn should_parse_continue_message() {
    assert_result(&[0xfb], &[MidiMessage::Continue]);
}

#[test]
fn should_parse_continue_message_as_realtime() {
    assert_result(
        &[
            0xD6, // Start channel pressure event
            0xfb, // interrupt with continue
            0x77, // Finish channel pressure
        ],
        &[
            MidiMessage::Continue,
            MidiMessage::ChannelPressure {
                channel: 6.into(),
                value: 0x77.into(),
            },
        ],
    );
}

#[test]
fn should_parse_stop_message() {
    assert_result(&[0xfc], &[MidiMessage::Stop]);
}

#[test]
fn should_parse_stop_message_as_realtime() {
    assert_result(
        &[
            0xD6, // Start channel pressure event
            0xfc, // interrupt with stop
            0x77, // Finish channel pressure
        ],
        &[
            MidiMessage::Stop,
            MidiMessage::ChannelPressure {
                channel: 6.into(),
                value: 0x77.into(),
            },
        ],
    );
}

#[test]
fn should_parse_activesensing_message() {
    assert_result(&[0xfe], &[MidiMessage::ActiveSensing]);
}

#[test]
fn should_parse_activesensing_message_as_realtime() {
    assert_result(
        &[
            0xD6, // Start channel pressure event
            0xfe, // interrupt with activesensing
            0x77, // Finish channel pressure
        ],
        &[
            MidiMessage::ActiveSensing,
            MidiMessage::ChannelPressure {
                channel: 6.into(),
                value: 0x77.into(),
            },
        ],
    );
}

#[test]
fn should_parse_reset_message() {
    assert_result(&[0xff], &[MidiMessage::Reset]);
}

#[test]
fn should_parse_reset_message_as_realtime() {
    assert_result(
        &[
            0xD6, // Start channel pressure event
            0xff, // interrupt with reset
            0x77, // Finish channel pressure
        ],
        &[
            MidiMessage::Reset,
            MidiMessage::ChannelPressure {
                channel: 6.into(),
                value: 0x77.into(),
            },
        ],
    );
}

#[test]
fn should_handle_reserved_realtime_transparently() {
    assert_result(
        &[
            0xD6, // Start channel pressure event
            0xf9, // reserved realtime code: emits nothing, disturbs nothing
            0xfd, // reserved realtime code: emits nothing, disturbs nothing
            0x77, // Finish channel pressure
        ],
        &[MidiMessage::ChannelPressure {
            channel: 6.into(),
            value: 0x77.into(),
        }],
    );
}

#[test]
fn should_ignore_incomplete_messages() {
    assert_result(
        &[
            0x92, 0x1b, // Start note off message
            0x82, 0x76, 0x34, // continue with a complete note on message
        ],
        &[MidiMessage::NoteOff {
            channel: 2.into(),
            note: 0x76.into(),
            velocity: 0x34.into(),
        }],
    );
}

#[test]
fn should_ignore_data_bytes_when_idle() {
    assert_result(&[0x12, 0x34, 0x77], &[]);
}
