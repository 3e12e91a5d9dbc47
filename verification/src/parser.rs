//! The incremental MIDI parser: a state machine fed one received byte at a
//! time, emitting a complete message whenever its last byte arrives.
//!
//! Malformed or truncated input never fails; it simply produces no message,
//! and the next status byte resynchronizes the stream.

use crate::midi::{Channel, Control, MidiMessage, Note, Program, QuarterFrame, Value14, Value7};
use vstd::prelude::*;

verus! {

/// What the parser remembers between bytes: which multi-byte message is in
/// progress and which of its data bytes have been collected so far.
#[derive(Clone, Copy, Debug, PartialEq, Eq)]
pub enum MidiParserState {
    /// Nothing in progress; data bytes are discarded until a status byte
    /// arrives.
    Idle,
    /// A note-on status byte arrived; awaiting the note number.
    NoteOnRecvd { channel: Channel },
    /// A note-on note number arrived; awaiting the velocity.
    NoteOnNoteRecvd { channel: Channel, note: Note },
    /// A note-off status byte arrived; awaiting the note number.
    NoteOffRecvd { channel: Channel },
    /// A note-off note number arrived; awaiting the velocity.
    NoteOffNoteRecvd { channel: Channel, note: Note },
    /// A key-pressure status byte arrived; awaiting the note number.
    KeyPressureRecvd { channel: Channel },
    /// A key-pressure note number arrived; awaiting the pressure value.
    KeyPressureNoteRecvd { channel: Channel, note: Note },
    /// A control-change status byte arrived; awaiting the controller number.
    ControlChangeRecvd { channel: Channel },
    /// A controller number arrived; awaiting the control value.
    ControlChangeControlRecvd { channel: Channel, control: Control },
    /// A program-change status byte arrived; awaiting the program number.
    ProgramChangeRecvd { channel: Channel },
    /// A channel-pressure status byte arrived; awaiting the pressure value.
    ChannelPressureRecvd { channel: Channel },
    /// A pitch-bend status byte arrived; awaiting the low seven bits.
    PitchBendRecvd { channel: Channel },
    /// The low seven bits of a pitch bend arrived; awaiting the high seven.
    PitchBendFirstByteRecvd { channel: Channel, byte1: u8 },
    /// A quarter-frame status byte arrived; awaiting its payload byte.
    QuarterFrameRecvd,
    /// A song-position status byte arrived; awaiting the low seven bits.
    SongPositionRecvd,
    /// The low seven bits of a song position arrived; awaiting the high
    /// seven.
    SongPositionLsbRecvd { lsb: u8 },
    /// A song-select status byte arrived; awaiting the song number.
    SongSelectRecvd,
}

impl MidiParserState {
    /// Every byte collected so far is a data byte and every channel is in
    /// range; `parse_byte` preserves this.
    pub open spec fn wf(self) -> bool {
        match self {
            MidiParserState::Idle => true,
            MidiParserState::NoteOnRecvd { channel } => channel.wf(),
            MidiParserState::NoteOnNoteRecvd { channel, note } => channel.wf() && note.wf(),
            MidiParserState::NoteOffRecvd { channel } => channel.wf(),
            MidiParserState::NoteOffNoteRecvd { channel, note } => channel.wf() && note.wf(),
            MidiParserState::KeyPressureRecvd { channel } => channel.wf(),
            MidiParserState::KeyPressureNoteRecvd { channel, note } => channel.wf() && note.wf(),
            MidiParserState::ControlChangeRecvd { channel } => channel.wf(),
            MidiParserState::ControlChangeControlRecvd { channel, control } => channel.wf()
                && control.wf(),
            MidiParserState::ProgramChangeRecvd { channel } => channel.wf(),
            MidiParserState::ChannelPressureRecvd { channel } => channel.wf(),
            MidiParserState::PitchBendRecvd { channel } => channel.wf(),
            MidiParserState::PitchBendFirstByteRecvd { channel, byte1 } => channel.wf() && byte1
                < 0x80,
            MidiParserState::QuarterFrameRecvd => true,
            MidiParserState::SongPositionRecvd => true,
            MidiParserState::SongPositionLsbRecvd { lsb } => lsb < 0x80,
            MidiParserState::SongSelectRecvd => true,
        }
    }
}

/// The step taken on a system common or realtime status byte (0xF0-0xFF).
///
/// Realtime bytes (0xF8 and up) emit immediately, or not at all for the
/// two reserved codes, and leave the in-progress state untouched. System
/// common bytes replace whatever was in progress: they either start
/// collecting their own data bytes, emit their dataless message at once,
/// or, for system exclusive framing and the undefined codes, reset to
/// idle.
pub open spec fn spec_parse_system_status(s: MidiParserState, byte: u8) -> (
    MidiParserState,
    Option<MidiMessage>,
) {
    if byte == 0xf0 {
        (MidiParserState::Idle, None)
    } else if byte == 0xf1 {
        (MidiParserState::QuarterFrameRecvd, None)
    } else if byte == 0xf2 {
        (MidiParserState::SongPositionRecvd, None)
    } else if byte == 0xf3 {
        (MidiParserState::SongSelectRecvd, None)
    } else if byte == 0xf6 {
        (MidiParserState::Idle, Some(MidiMessage::TuneRequest))
    } else if byte == 0xf7 {
        (MidiParserState::Idle, Some(MidiMessage::EndOfExclusive))
    } else if byte == 0xf8 {
        (s, Some(MidiMessage::TimingClock))
    } else if byte == 0xfa {
        (s, Some(MidiMessage::Start))
    } else if byte == 0xfb {
        (s, Some(MidiMessage::Continue))
    } else if byte == 0xfc {
        (s, Some(MidiMessage::Stop))
    } else if byte == 0xfe {
        (s, Some(MidiMessage::ActiveSensing))
    } else if byte == 0xff {
        (s, Some(MidiMessage::Reset))
    } else if byte == 0xf9 || byte == 0xfd {
        (s, None)
    } else {
        (MidiParserState::Idle, None)
    }
}

/// The step taken on a channel voice status byte (0x80-0xEF): start
/// collecting data bytes for the message type in the high nibble, on the
/// channel in the low nibble, discarding whatever was in progress.
pub open spec fn spec_parse_voice_status(s: MidiParserState, byte: u8) -> (
    MidiParserState,
    Option<MidiMessage>,
) {
    let kind: u8 = byte & 0xf0;
    let channel = Channel(byte & 0x0f);
    if kind == 0x80 {
        (MidiParserState::NoteOffRecvd { channel }, None)
    } else if kind == 0x90 {
        (MidiParserState::NoteOnRecvd { channel }, None)
    } else if kind == 0xa0 {
        (MidiParserState::KeyPressureRecvd { channel }, None)
    } else if kind == 0xb0 {
        (MidiParserState::ControlChangeRecvd { channel }, None)
    } else if kind == 0xc0 {
        (MidiParserState::ProgramChangeRecvd { channel }, None)
    } else if kind == 0xd0 {
        (MidiParserState::ChannelPressureRecvd { channel }, None)
    } else if kind == 0xe0 {
        (MidiParserState::PitchBendRecvd { channel }, None)
    } else {
        (s, None)
    }
}

/// The step taken on a data byte: complete the message in progress, keep
/// collecting, or discard the byte when nothing is in progress. After a
/// message completes, the state returns to awaiting the next data byte
/// group for the same status, which is what makes running status work on
/// the receive side. 14-bit values arrive least significant seven bits
/// first.
pub open spec fn spec_parse_data_byte(s: MidiParserState, byte: u8) -> (
    MidiParserState,
    Option<MidiMessage>,
) {
    match s {
        MidiParserState::Idle => (s, None),
        MidiParserState::NoteOnRecvd { channel } => (
            MidiParserState::NoteOnNoteRecvd { channel, note: Note(byte) },
            None,
        ),
        MidiParserState::NoteOnNoteRecvd { channel, note } => (
            MidiParserState::NoteOnRecvd { channel },
            Some(MidiMessage::NoteOn { channel, note, velocity: Value7(byte) }),
        ),
        MidiParserState::NoteOffRecvd { channel } => (
            MidiParserState::NoteOffNoteRecvd { channel, note: Note(byte) },
            None,
        ),
        MidiParserState::NoteOffNoteRecvd { channel, note } => (
            MidiParserState::NoteOffRecvd { channel },
            Some(MidiMessage::NoteOff { channel, note, velocity: Value7(byte) }),
        ),
        MidiParserState::KeyPressureRecvd { channel } => (
            MidiParserState::KeyPressureNoteRecvd { channel, note: Note(byte) },
            None,
        ),
        MidiParserState::KeyPressureNoteRecvd { channel, note } => (
            MidiParserState::KeyPressureRecvd { channel },
            Some(MidiMessage::KeyPressure { channel, note, value: Value7(byte) }),
        ),
        MidiParserState::ControlChangeRecvd { channel } => (
            MidiParserState::ControlChangeControlRecvd { channel, control: Control(byte) },
            None,
        ),
        MidiParserState::ControlChangeControlRecvd { channel, control } => (
            MidiParserState::ControlChangeRecvd { channel },
            Some(MidiMessage::ControlChange { channel, control, value: Value7(byte) }),
        ),
        MidiParserState::ProgramChangeRecvd { channel } => (
            s,
            Some(MidiMessage::ProgramChange { channel, program: Program(byte) }),
        ),
        MidiParserState::ChannelPressureRecvd { channel } => (
            s,
            Some(MidiMessage::ChannelPressure { channel, value: Value7(byte) }),
        ),
        MidiParserState::PitchBendRecvd { channel } => (
            MidiParserState::PitchBendFirstByteRecvd { channel, byte1: byte },
            None,
        ),
        MidiParserState::PitchBendFirstByteRecvd { channel, byte1 } => (
            MidiParserState::PitchBendRecvd { channel },
            Some(MidiMessage::PitchBendChange { channel, value: Value14(byte, byte1) }),
        ),
        MidiParserState::QuarterFrameRecvd => (
            s,
            Some(MidiMessage::QuarterFrame { frame_data: QuarterFrame(byte) }),
        ),
        MidiParserState::SongPositionRecvd => (
            MidiParserState::SongPositionLsbRecvd { lsb: byte },
            None,
        ),
        MidiParserState::SongPositionLsbRecvd { lsb } => (
            MidiParserState::SongPositionRecvd,
            Some(MidiMessage::SongPositionPointer { pointer: Value14(byte, lsb) }),
        ),
        MidiParserState::SongSelectRecvd => (s, Some(MidiMessage::SongSelect(Value7(byte)))),
    }
}

/// The parser's complete transition function: from the current state and
/// one arriving byte to the next state and the message completed by that
/// byte, if any.
pub open spec fn spec_parse_byte(s: MidiParserState, byte: u8) -> (
    MidiParserState,
    Option<MidiMessage>,
) {
    if byte < 0x80 {
        spec_parse_data_byte(s, byte)
    } else if byte < 0xf0 {
        spec_parse_voice_status(s, byte)
    } else {
        spec_parse_system_status(s, byte)
    }
}

/// The parser run over a whole byte sequence from a given state: the final
/// state and every message emitted along the way, in order.
pub open spec fn spec_parse_seq(s: MidiParserState, bytes: Seq<u8>) -> (
    MidiParserState,
    Seq<MidiMessage>,
)
    decreases bytes.len(),
{
    if bytes.len() == 0 {
        (s, Seq::empty())
    } else {
        let step = spec_parse_byte(s, bytes[0]);
        let rest = spec_parse_seq(step.0, bytes.drop_first());
        (
            rest.0,
            match step.1 {
                Some(m) => seq![m] + rest.1,
                None => rest.1,
            },
        )
    }
}

/// True of bytes with the most significant bit set, which mark the start
/// of a MIDI message.
pub fn is_status_byte(byte: u8) -> (r: bool)
    ensures
        r == (byte >= 0x80),
{
    proof {
        assert((byte & 0x80 == 0x80) == (byte >= 0x80)) by (bit_vector);
    }
    byte & 0x80 == 0x80
}

/// True of status bytes in the 0xF0 row: system common or system realtime
/// messages, which are not scoped to a channel.
pub fn is_system_message(byte: u8) -> (r: bool)
    ensures
        r == (byte >= 0xf0),
{
    proof {
        assert((byte & 0xf0 == 0xf0) == (byte >= 0xf0)) by (bit_vector);
    }
    byte & 0xf0 == 0xf0
}

/// Split a channel voice status byte into its message nibble and its
/// channel.
pub fn split_message_and_channel(byte: u8) -> (r: (u8, Channel))
    ensures
        r.0 == byte & 0xf0,
        r.1 == Channel(byte & 0x0f),
        r.1.wf(),
{
    proof {
        assert((byte & 0x0f) < 0x10) by (bit_vector);
    }
    (byte & 0xf0, Channel(byte & 0x0f))
}

/// State machine for parsing MIDI data; it can be fed bytes one by one,
/// and returns a parsed message whenever one is completed.
#[derive(Debug)]
pub struct MidiParser {
    /// The message in progress; owned by the parser, mutated on every byte.
    pub state: MidiParserState,
}

impl MidiParser {
    /// The parser state holds only range-checked bytes.
    pub open spec fn wf(self) -> bool {
        self.state.wf()
    }

    /// A fresh parser with nothing in progress.
    pub fn new() -> (r: Self)
        ensures
            r.state == MidiParserState::Idle,
    {
        MidiParser { state: MidiParserState::Idle }
    }

    /// Feed one received byte to the parser. When that byte completes a
    /// MIDI message the message is returned; otherwise the internal state
    /// is updated and `None` is returned. The step taken is exactly
    /// `spec_parse_byte`, and a well-formed parser stays well-formed and
    /// emits only well-formed messages.
    pub fn parse_byte(&mut self, byte: u8) -> (r: Option<MidiMessage>)
        ensures
            final(self).state == spec_parse_byte(old(self).state, byte).0,
            r == spec_parse_byte(old(self).state, byte).1,
            old(self).wf() ==> final(self).wf(),
            old(self).wf() ==> (r matches Some(m) ==> m.wf()),
    {
        if is_status_byte(byte) {
            if is_system_message(byte) {
                match byte {
                    0xf0 => {
                        // System exclusive start: payload bytes are not buffered
                        self.state = MidiParserState::Idle;
                        None
                    },
                    0xf1 => {
                        self.state = MidiParserState::QuarterFrameRecvd;
                        None
                    },
                    0xf2 => {
                        self.state = MidiParserState::SongPositionRecvd;
                        None
                    },
                    0xf3 => {
                        self.state = MidiParserState::SongSelectRecvd;
                        None
                    },
                    0xf6 => {
                        self.state = MidiParserState::Idle;
                        Some(MidiMessage::TuneRequest)
                    },
                    0xf7 => {
                        self.state = MidiParserState::Idle;
                        Some(MidiMessage::EndOfExclusive)
                    },
                    // System realtime bytes never disturb the state
                    0xf8 => Some(MidiMessage::TimingClock),
                    0xf9 => None,  // Reserved
                    0xfa => Some(MidiMessage::Start),
                    0xfb => Some(MidiMessage::Continue),
                    0xfc => Some(MidiMessage::Stop),
                    0xfd => None,  // Reserved
                    0xfe => Some(MidiMessage::ActiveSensing),
                    0xff => Some(MidiMessage::Reset),
                    _ => {
                        // Undefined system common codes 0xF4 and 0xF5
                        self.state = MidiParserState::Idle;
                        None
                    },
                }
            } else {
                let (message, channel): (u8, Channel) = split_message_and_channel(byte);
                match message {
                    0x80 => {
                        self.state = MidiParserState::NoteOffRecvd { channel };
                        None
                    },
                    0x90 => {
                        self.state = MidiParserState::NoteOnRecvd { channel };
                        None
                    },
                    0xa0 => {
                        self.state = MidiParserState::KeyPressureRecvd { channel };
                        None
                    },
                    0xb0 => {
                        self.state = MidiParserState::ControlChangeRecvd { channel };
                        None
                    },
                    0xc0 => {
                        self.state = MidiParserState::ProgramChangeRecvd { channel };
                        None
                    },
                    0xd0 => {
                        self.state = MidiParserState::ChannelPressureRecvd { channel };
                        None
                    },
                    0xe0 => {
                        self.state = MidiParserState::PitchBendRecvd { channel };
                        None
                    },
                    _ => None,
                }
            }
        } else {
            match self.state {
                MidiParserState::NoteOffRecvd { channel } => {
                    self.state = MidiParserState::NoteOffNoteRecvd { channel, note: Note(byte) };
                    None
                },
                MidiParserState::NoteOffNoteRecvd { channel, note } => {
                    self.state = MidiParserState::NoteOffRecvd { channel };
                    Some(MidiMessage::NoteOff { channel, note, velocity: Value7(byte) })
                },
                MidiParserState::NoteOnRecvd { channel } => {
                    self.state = MidiParserState::NoteOnNoteRecvd { channel, note: Note(byte) };
                    None
                },
                MidiParserState::NoteOnNoteRecvd { channel, note } => {
                    self.state = MidiParserState::NoteOnRecvd { channel };
                    Some(MidiMessage::NoteOn { channel, note, velocity: Value7(byte) })
                },
                MidiParserState::KeyPressureRecvd { channel } => {
                    self.state = MidiParserState::KeyPressureNoteRecvd {
                        channel,
                        note: Note(byte),
                    };
                    None
                },
                MidiParserState::KeyPressureNoteRecvd { channel, note } => {
                    self.state = MidiParserState::KeyPressureRecvd { channel };
                    Some(MidiMessage::KeyPressure { channel, note, value: Value7(byte) })
                },
                MidiParserState::ControlChangeRecvd { channel } => {
                    self.state = MidiParserState::ControlChangeControlRecvd {
                        channel,
                        control: Control(byte),
                    };
                    None
                },
                MidiParserState::ControlChangeControlRecvd { channel, control } => {
                    self.state = MidiParserState::ControlChangeRecvd { channel };
                    Some(MidiMessage::ControlChange { channel, control, value: Value7(byte) })
                },
                MidiParserState::ProgramChangeRecvd { channel } => {
                    Some(MidiMessage::ProgramChange { channel, program: Program(byte) })
                },
                MidiParserState::ChannelPressureRecvd { channel } => {
                    Some(MidiMessage::ChannelPressure { channel, value: Value7(byte) })
                },
                MidiParserState::PitchBendRecvd { channel } => {
                    self.state = MidiParserState::PitchBendFirstByteRecvd { channel, byte1: byte };
                    None
                },
                MidiParserState::PitchBendFirstByteRecvd { channel, byte1 } => {
                    self.state = MidiParserState::PitchBendRecvd { channel };
                    Some(MidiMessage::PitchBendChange { channel, value: Value14(byte, byte1) })
                },
                MidiParserState::QuarterFrameRecvd => {
                    Some(MidiMessage::QuarterFrame { frame_data: QuarterFrame(byte) })
                },
                MidiParserState::SongPositionRecvd => {
                    self.state = MidiParserState::SongPositionLsbRecvd { lsb: byte };
                    None
                },
                MidiParserState::SongPositionLsbRecvd { lsb } => {
                    self.state = MidiParserState::SongPositionRecvd;
                    Some(MidiMessage::SongPositionPointer { pointer: Value14(byte, lsb) })
                },
                MidiParserState::SongSelectRecvd => {
                    Some(MidiMessage::SongSelect(Value7(byte)))
                },
                MidiParserState::Idle => None,
            }
        }
    }
}

} // verus!
