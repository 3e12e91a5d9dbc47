//! The typed MIDI message model: bounded-range value types and the closed
//! set of MIDI 1.0 messages the codec understands.

use vstd::prelude::*;
use vstd::std_specs::convert::FromSpecImpl;

verus! {

/// A MIDI note number, where 0 corresponds to C-2 and 127 to G8 (C4 is 72).
#[derive(Clone, Copy, Debug, PartialEq, Eq)]
pub struct Note(pub u8);

impl Note {
    /// A note number fits in 7 bits.
    pub open spec fn wf(self) -> bool {
        self.0 < 0x80
    }
}

impl From<u8> for Note {
    fn from(note: u8) -> (r: Self) {
        Note(note & 0x7f)
    }
}

impl FromSpecImpl<u8> for Note {
    open spec fn obeys_from_spec() -> bool {
        true
    }

    open spec fn from_spec(v: u8) -> Note {
        Note(v & 0x7f)
    }
}

impl From<Note> for u8 {
    fn from(note: Note) -> (r: u8) {
        note.0
    }
}

impl FromSpecImpl<Note> for u8 {
    open spec fn obeys_from_spec() -> bool {
        true
    }

    open spec fn from_spec(v: Note) -> u8 {
        v.0
    }
}

/// A MIDI channel, 0 to 15, conventionally displayed as channels 1 to 16.
#[derive(Clone, Copy, Debug, PartialEq, Eq)]
pub struct Channel(pub u8);

impl Channel {
    /// A channel fits in 4 bits.
    pub open spec fn wf(self) -> bool {
        self.0 < 0x10
    }
}

impl From<u8> for Channel {
    fn from(channel: u8) -> (r: Self) {
        Channel(channel & 0x0f)
    }
}

impl FromSpecImpl<u8> for Channel {
    open spec fn obeys_from_spec() -> bool {
        true
    }

    open spec fn from_spec(v: u8) -> Channel {
        Channel(v & 0x0f)
    }
}

impl From<Channel> for u8 {
    fn from(channel: Channel) -> (r: u8) {
        channel.0
    }
}

impl FromSpecImpl<Channel> for u8 {
    open spec fn obeys_from_spec() -> bool {
        true
    }

    open spec fn from_spec(v: Channel) -> u8 {
        v.0
    }
}

/// A MIDI controller number.
#[derive(Clone, Copy, Debug, PartialEq, Eq)]
pub struct Control(pub u8);

impl Control {
    /// A controller number fits in 7 bits.
    pub open spec fn wf(self) -> bool {
        self.0 < 0x80
    }
}

impl From<u8> for Control {
    fn from(control: u8) -> (r: Self) {
        Control(control & 0x7f)
    }
}

impl FromSpecImpl<u8> for Control {
    open spec fn obeys_from_spec() -> bool {
        true
    }

    open spec fn from_spec(v: u8) -> Control {
        Control(v & 0x7f)
    }
}

impl From<Control> for u8 {
    fn from(control: Control) -> (r: u8) {
        control.0
    }
}

impl FromSpecImpl<Control> for u8 {
    open spec fn obeys_from_spec() -> bool {
        true
    }

    open spec fn from_spec(v: Control) -> u8 {
        v.0
    }
}

/// A MIDI program number; these usually correspond to presets on a device.
#[derive(Clone, Copy, Debug, PartialEq, Eq)]
pub struct Program(pub u8);

impl Program {
    /// A program number fits in 7 bits.
    pub open spec fn wf(self) -> bool {
        self.0 < 0x80
    }
}

impl From<u8> for Program {
    fn from(value: u8) -> (r: Self) {
        Program(value & 0x7f)
    }
}

impl FromSpecImpl<u8> for Program {
    open spec fn obeys_from_spec() -> bool {
        true
    }

    open spec fn from_spec(v: u8) -> Program {
        Program(v & 0x7f)
    }
}

impl From<Program> for u8 {
    fn from(program: Program) -> (r: u8) {
        program.0
    }
}

impl FromSpecImpl<Program> for u8 {
    open spec fn obeys_from_spec() -> bool {
        true
    }

    open spec fn from_spec(v: Program) -> u8 {
        v.0
    }
}

/// A generic 7-bit data value (velocity, pressure, a control value, ...);
/// the most significant bit is always 0.
#[derive(Clone, Copy, Debug, PartialEq, Eq)]
pub struct Value7(pub u8);

impl Value7 {
    /// A data value fits in 7 bits.
    pub open spec fn wf(self) -> bool {
        self.0 < 0x80
    }
}

impl From<u8> for Value7 {
    fn from(value: u8) -> (r: Self) {
        Value7(value & 0x7f)
    }
}

impl FromSpecImpl<u8> for Value7 {
    open spec fn obeys_from_spec() -> bool {
        true
    }

    open spec fn from_spec(v: u8) -> Value7 {
        Value7(v & 0x7f)
    }
}

impl From<Value7> for u8 {
    fn from(value: Value7) -> (r: u8) {
        value.0
    }
}

impl FromSpecImpl<Value7> for u8 {
    open spec fn obeys_from_spec() -> bool {
        true
    }

    open spec fn from_spec(v: Value7) -> u8 {
        v.0
    }
}

/// A 14-bit MIDI value stored as two 7-bit data values, most significant
/// seven bits first. On the wire the least significant byte travels first;
/// the combined integer is `msb * 128 + lsb`, 0 to 16383.
#[derive(Clone, Copy, Debug, PartialEq, Eq)]
pub struct Value14(pub u8, pub u8);

/// The two 7-bit halves of a 14-bit value, most significant half first.
pub open spec fn spec_split14(v: u16) -> Value14 {
    Value14(((v & 0x3f80) >> 7) as u8, (v & 0x007f) as u8)
}

/// The 14-bit integer carried by a `Value14`.
pub open spec fn spec_combine14(v: Value14) -> int {
    v.0 * 128 + v.1
}

impl Value14 {
    /// Both halves fit in 7 bits.
    pub open spec fn wf(self) -> bool {
        self.0 < 0x80 && self.1 < 0x80
    }

    /// The most significant seven bits.
    pub open spec fn msb(self) -> u8 {
        self.0
    }

    /// The least significant seven bits.
    pub open spec fn lsb(self) -> u8 {
        self.1
    }
}

impl From<(u8, u8)> for Value14 {
    fn from(value: (u8, u8)) -> (r: Self) {
        Value14(value.0 & 0x7f, value.1 & 0x7f)
    }
}

impl FromSpecImpl<(u8, u8)> for Value14 {
    open spec fn obeys_from_spec() -> bool {
        true
    }

    open spec fn from_spec(v: (u8, u8)) -> Value14 {
        Value14(v.0 & 0x7f, v.1 & 0x7f)
    }
}

impl From<Value14> for (u8, u8) {
    fn from(value: Value14) -> (r: (u8, u8)) {
        (value.0, value.1)
    }
}

impl FromSpecImpl<Value14> for (u8, u8) {
    open spec fn obeys_from_spec() -> bool {
        true
    }

    open spec fn from_spec(v: Value14) -> (u8, u8) {
        (v.0, v.1)
    }
}

impl From<u16> for Value14 {
    fn from(value: u16) -> (r: Self) {
        Value14(((value & 0x3f80) >> 7) as u8, (value & 0x007f) as u8)
    }
}

impl FromSpecImpl<u16> for Value14 {
    open spec fn obeys_from_spec() -> bool {
        true
    }

    open spec fn from_spec(v: u16) -> Value14 {
        spec_split14(v)
    }
}

impl From<Value14> for u16 {
    fn from(value: Value14) -> (r: u16) {
        (value.0 as u16) * 128 + value.1 as u16
    }
}

impl FromSpecImpl<Value14> for u16 {
    open spec fn obeys_from_spec() -> bool {
        true
    }

    open spec fn from_spec(v: Value14) -> u16 {
        spec_combine14(v) as u16
    }
}

/// Splitting a 14-bit integer into its two 7-bit halves and combining them
/// again yields the integer back, for every value 0 to 16383.
pub proof fn lemma_value14_round_trip(v: u16)
    requires
        v < 0x4000,
    ensures
        spec_combine14(spec_split14(v)) == v,
{
    assert((((v & 0x3f80) >> 7) as u8) * 128 + ((v & 0x007f) as u8) == v) by (bit_vector)
        requires
            v < 0x4000,
    ;
}

/// Combining the two 7-bit halves of a well-formed `Value14` and splitting
/// the result again yields the same halves back: the pair form and the
/// integer form carry exactly the same information.
pub proof fn lemma_value14_split_combine(x: Value14)
    requires
        x.wf(),
    ensures
        spec_split14(spec_combine14(x) as u16) == x,
{
    let a: u8 = x.0;
    let b: u8 = x.1;
    assert(((((a * 128 + b) as u16) & 0x3f80) >> 7) as u8 == a && (((a * 128 + b) as u16)
        & 0x007f) as u8 == b) by (bit_vector)
        requires
            a < 0x80 && b < 0x80,
    ;
}

/// The SMPTE frame rate announced in the hours-high quarter frame.
#[derive(Clone, Copy, Debug, PartialEq, Eq)]
pub enum SmpteType {
    /// 24 frames per second
    Frames24,
    /// 25 frames per second
    Frames25,
    /// 29.97 frames per second
    DropFrame30,
    /// 30 frames per second
    Frames30,
}

/// Which 4-bit slice of the MIDI time code a quarter frame carries. Eight
/// of these messages together encode one complete time code, one being
/// sent every quarter frame.
#[derive(Clone, Copy, Debug, PartialEq, Eq)]
pub enum QuarterFrameType {
    /// Frame count low nibble
    FramesLS,
    /// Frame count high nibble
    FramesMS,
    /// Seconds low nibble
    SecondsLS,
    /// Seconds high nibble
    SecondsMS,
    /// Minutes low nibble
    MinutesLS,
    /// Minutes high nibble
    MinutesMS,
    /// Hours low nibble
    HoursLS,
    /// Combined hours high nibble and SMPTE type
    HoursMS,
}

/// The raw 7-bit payload of a time code quarter frame: the slice selector
/// in bits 4 to 6 and the 4-bit slice value in bits 0 to 3.
#[derive(Clone, Copy, Debug, PartialEq, Eq)]
pub struct QuarterFrame(pub u8);

/// The slice selector encoded in bits 4 to 6 of a quarter frame payload.
pub open spec fn spec_frame_type(raw: u8) -> QuarterFrameType {
    let t: u8 = (raw >> 4) & 0x07;
    if t == 0 {
        QuarterFrameType::FramesLS
    } else if t == 1 {
        QuarterFrameType::FramesMS
    } else if t == 2 {
        QuarterFrameType::SecondsLS
    } else if t == 3 {
        QuarterFrameType::SecondsMS
    } else if t == 4 {
        QuarterFrameType::MinutesLS
    } else if t == 5 {
        QuarterFrameType::MinutesMS
    } else if t == 6 {
        QuarterFrameType::HoursLS
    } else {
        QuarterFrameType::HoursMS
    }
}

/// The SMPTE type encoded in bits 1 and 2 of an hours-high payload.
pub open spec fn spec_smpte_type(raw: u8) -> SmpteType {
    let t: u8 = (raw >> 1) & 0x03;
    if t == 0 {
        SmpteType::Frames24
    } else if t == 1 {
        SmpteType::Frames25
    } else if t == 2 {
        SmpteType::DropFrame30
    } else {
        SmpteType::Frames30
    }
}

impl QuarterFrame {
    /// The payload fits in 7 bits.
    pub open spec fn wf(self) -> bool {
        self.0 < 0x80
    }

    /// Which slice of the time code this quarter frame carries.
    pub fn frame_type(&self) -> (t: QuarterFrameType)
        ensures
            t == spec_frame_type(self.0),
    {
        let sel: u8 = (self.0 >> 4) & 0x07;
        if sel == 0 {
            QuarterFrameType::FramesLS
        } else if sel == 1 {
            QuarterFrameType::FramesMS
        } else if sel == 2 {
            QuarterFrameType::SecondsLS
        } else if sel == 3 {
            QuarterFrameType::SecondsMS
        } else if sel == 4 {
            QuarterFrameType::MinutesLS
        } else if sel == 5 {
            QuarterFrameType::MinutesMS
        } else if sel == 6 {
            QuarterFrameType::HoursLS
        } else {
            QuarterFrameType::HoursMS
        }
    }

    /// The 4-bit slice value carried in the low nibble of the payload.
    pub fn value(&self) -> (v: u8)
        ensures
            v == self.0 & 0x0f,
            v < 0x10,
    {
        proof {
            let raw: u8 = self.0;
            assert((raw & 0x0f) < 0x10) by (bit_vector);
        }
        self.0 & 0x0f
    }

    /// The SMPTE frame rate; meaningful when `frame_type` is `HoursMS`,
    /// whose slice value reserves bits 1 and 2 for it.
    pub fn smpte_type(&self) -> (t: SmpteType)
        ensures
            t == spec_smpte_type(self.0),
    {
        let sel: u8 = (self.0 >> 1) & 0x03;
        if sel == 0 {
            SmpteType::Frames24
        } else if sel == 1 {
            SmpteType::Frames25
        } else if sel == 2 {
            SmpteType::DropFrame30
        } else {
            SmpteType::Frames30
        }
    }
}

impl From<u8> for QuarterFrame {
    fn from(value: u8) -> (r: Self) {
        QuarterFrame(value & 0x7f)
    }
}

impl FromSpecImpl<u8> for QuarterFrame {
    open spec fn obeys_from_spec() -> bool {
        true
    }

    open spec fn from_spec(v: u8) -> QuarterFrame {
        QuarterFrame(v & 0x7f)
    }
}

impl From<QuarterFrame> for u8 {
    fn from(value: QuarterFrame) -> (r: u8) {
        value.0
    }
}

impl FromSpecImpl<QuarterFrame> for u8 {
    open spec fn obeys_from_spec() -> bool {
        true
    }

    open spec fn from_spec(v: QuarterFrame) -> u8 {
        v.0
    }
}

/// One complete MIDI 1.0 message, with every numeric field already
/// range-validated by its value type.
#[derive(Clone, Copy, Debug, PartialEq, Eq)]
pub enum MidiMessage {
    /// Note off
    NoteOff { channel: Channel, note: Note, velocity: Value7 },
    /// Note on
    NoteOn { channel: Channel, note: Note, velocity: Value7 },
    /// Polyphonic aftertouch
    KeyPressure { channel: Channel, note: Note, value: Value7 },
    /// Control change
    ControlChange { channel: Channel, control: Control, value: Value7 },
    /// Program change
    ProgramChange { channel: Channel, program: Program },
    /// Channel aftertouch
    ChannelPressure { channel: Channel, value: Value7 },
    /// Pitch bend
    PitchBendChange { channel: Channel, value: Value14 },
    /// MIDI time code quarter frame
    QuarterFrame { frame_data: QuarterFrame },
    /// Set the song position pointer
    SongPositionPointer { pointer: Value14 },
    /// Select which sequence or song is to be played
    SongSelect(Value7),
    /// Tune all oscillators
    TuneRequest,
    /// End of a system exclusive block
    EndOfExclusive,
    /// Timing tick
    TimingClock,
    /// Start the sequence
    Start,
    /// Continue the sequence
    Continue,
    /// Stop the sequence
    Stop,
    /// Active sensing
    ActiveSensing,
    /// Reset all receivers
    Reset,
}

impl MidiMessage {
    /// Every numeric field is within the range its value type demands.
    pub open spec fn wf(self) -> bool {
        match self {
            MidiMessage::NoteOff { channel, note, velocity } => channel.wf() && note.wf()
                && velocity.wf(),
            MidiMessage::NoteOn { channel, note, velocity } => channel.wf() && note.wf()
                && velocity.wf(),
            MidiMessage::KeyPressure { channel, note, value } => channel.wf() && note.wf()
                && value.wf(),
            MidiMessage::ControlChange { channel, control, value } => channel.wf() && control.wf()
                && value.wf(),
            MidiMessage::ProgramChange { channel, program } => channel.wf() && program.wf(),
            MidiMessage::ChannelPressure { channel, value } => channel.wf() && value.wf(),
            MidiMessage::PitchBendChange { channel, value } => channel.wf() && value.wf(),
            MidiMessage::QuarterFrame { frame_data } => frame_data.wf(),
            MidiMessage::SongPositionPointer { pointer } => pointer.wf(),
            MidiMessage::SongSelect(song) => song.wf(),
            _ => true,
        }
    }

    /// A channel voice message is scoped to one of the sixteen channels;
    /// only these take part in running status.
    pub open spec fn is_channel_voice(self) -> bool {
        match self {
            MidiMessage::NoteOff { .. } => true,
            MidiMessage::NoteOn { .. } => true,
            MidiMessage::KeyPressure { .. } => true,
            MidiMessage::ControlChange { .. } => true,
            MidiMessage::ProgramChange { .. } => true,
            MidiMessage::ChannelPressure { .. } => true,
            MidiMessage::PitchBendChange { .. } => true,
            _ => false,
        }
    }

    /// The status byte of the message: the message type in the high bits
    /// and, for channel voice messages, the channel in the low nibble.
    pub open spec fn spec_status_byte(self) -> u8 {
        match self {
            MidiMessage::NoteOff { channel, .. } => 0x80 | channel.0,
            MidiMessage::NoteOn { channel, .. } => 0x90 | channel.0,
            MidiMessage::KeyPressure { channel, .. } => 0xa0 | channel.0,
            MidiMessage::ControlChange { channel, .. } => 0xb0 | channel.0,
            MidiMessage::ProgramChange { channel, .. } => 0xc0 | channel.0,
            MidiMessage::ChannelPressure { channel, .. } => 0xd0 | channel.0,
            MidiMessage::PitchBendChange { channel, .. } => 0xe0 | channel.0,
            MidiMessage::QuarterFrame { .. } => 0xf1,
            MidiMessage::SongPositionPointer { .. } => 0xf2,
            MidiMessage::SongSelect(..) => 0xf3,
            MidiMessage::TuneRequest => 0xf6,
            MidiMessage::EndOfExclusive => 0xf7,
            MidiMessage::TimingClock => 0xf8,
            MidiMessage::Start => 0xfa,
            MidiMessage::Continue => 0xfb,
            MidiMessage::Stop => 0xfc,
            MidiMessage::ActiveSensing => 0xfe,
            MidiMessage::Reset => 0xff,
        }
    }

    /// The data bytes that follow the status byte, in wire order; 14-bit
    /// values travel least significant seven bits first.
    pub open spec fn spec_data_bytes(self) -> Seq<u8> {
        match self {
            MidiMessage::NoteOff { note, velocity, .. } => seq![note.0, velocity.0],
            MidiMessage::NoteOn { note, velocity, .. } => seq![note.0, velocity.0],
            MidiMessage::KeyPressure { note, value, .. } => seq![note.0, value.0],
            MidiMessage::ControlChange { control, value, .. } => seq![control.0, value.0],
            MidiMessage::ProgramChange { program, .. } => seq![program.0],
            MidiMessage::ChannelPressure { value, .. } => seq![value.0],
            MidiMessage::PitchBendChange { value, .. } => seq![value.lsb(), value.msb()],
            MidiMessage::QuarterFrame { frame_data } => seq![frame_data.0],
            MidiMessage::SongPositionPointer { pointer } => seq![pointer.lsb(), pointer.msb()],
            MidiMessage::SongSelect(song) => seq![song.0],
            _ => Seq::empty(),
        }
    }

    /// The full wire form of the message: its status byte followed by its
    /// data bytes.
    pub open spec fn spec_bytes(self) -> Seq<u8> {
        seq![self.spec_status_byte()] + self.spec_data_bytes()
    }
}

} // verus!
