//! Laws relating the renderer and the parser: the wire form of every
//! message parses back to exactly that message, running status elides
//! exactly the repeated channel voice status bytes, and realtime bytes are
//! transparent to the parser.

use crate::midi::MidiMessage;
use crate::parser::{spec_parse_byte, spec_parse_seq, MidiParserState};
use crate::render::{spec_render, spec_render_seq};
use vstd::prelude::*;

verus! {

/// A byte whose first parse step emits `m` parses, alone, to exactly `m`.
proof fn lemma_parse_seq_msg1(s: MidiParserState, b0: u8, m: MidiMessage)
    requires
        spec_parse_byte(s, b0).1 == Some(m),
    ensures
        spec_parse_seq(s, seq![b0]).1 =~= seq![m],
{
    let s1 = spec_parse_byte(s, b0).0;
    assert(seq![b0].drop_first() =~= Seq::<u8>::empty());
    assert(spec_parse_seq(s1, Seq::<u8>::empty()).1 =~= Seq::<MidiMessage>::empty());
}

/// Two bytes whose second parse step emits `m` parse to exactly `m`.
proof fn lemma_parse_seq_msg2(s: MidiParserState, b0: u8, b1: u8, m: MidiMessage)
    requires
        spec_parse_byte(s, b0).1 is None,
        spec_parse_byte(spec_parse_byte(s, b0).0, b1).1 == Some(m),
    ensures
        spec_parse_seq(s, seq![b0, b1]).1 =~= seq![m],
{
    assert(seq![b0, b1].drop_first() =~= seq![b1]);
    lemma_parse_seq_msg1(spec_parse_byte(s, b0).0, b1, m);
}

/// Three bytes whose third parse step emits `m` parse to exactly `m`.
proof fn lemma_parse_seq_msg3(s: MidiParserState, b0: u8, b1: u8, b2: u8, m: MidiMessage)
    requires
        spec_parse_byte(s, b0).1 is None,
        spec_parse_byte(spec_parse_byte(s, b0).0, b1).1 is None,
        spec_parse_byte(spec_parse_byte(spec_parse_byte(s, b0).0, b1).0, b2).1 == Some(m),
    ensures
        spec_parse_seq(s, seq![b0, b1, b2]).1 =~= seq![m],
{
    assert(seq![b0, b1, b2].drop_first() =~= seq![b1, b2]);
    lemma_parse_seq_msg2(spec_parse_byte(s, b0).0, b1, b2, m);
}

/// A channel voice status byte keeps its message nibble and its channel
/// nibble apart.
proof fn lemma_voice_status_byte(code: u8, c: u8)
    requires
        c < 0x10,
        code == 0x80 || code == 0x90 || code == 0xa0 || code == 0xb0 || code == 0xc0 || code
            == 0xd0 || code == 0xe0,
    ensures
        0x80 <= (code | c) < 0xf0,
        (code | c) & 0xf0 == code,
        (code | c) & 0x0f == c,
{
    assert(0x80 <= (code | c) < 0xf0 && (code | c) & 0xf0 == code && (code | c) & 0x0f == c)
        by (bit_vector)
        requires
            c < 0x10,
            code == 0x80 || code == 0x90 || code == 0xa0 || code == 0xb0 || code == 0xc0 || code
                == 0xd0 || code == 0xe0,
    ;
}

/// Feeding the full wire form of any well-formed message to the parser
/// yields exactly that message, whatever the parser was doing before: the
/// leading status byte resynchronizes the stream.
pub proof fn lemma_parse_of_message_bytes(s: MidiParserState, m: MidiMessage)
    requires
        m.wf(),
    ensures
        spec_parse_seq(s, m.spec_bytes()).1 =~= seq![m],
{
    match m {
        MidiMessage::NoteOff { channel, note, velocity } => {
            lemma_voice_status_byte(0x80, channel.0);
            let sb: u8 = 0x80 | channel.0;
            assert(m.spec_bytes() =~= seq![sb, note.0, velocity.0]);
            lemma_parse_seq_msg3(s, sb, note.0, velocity.0, m);
        },
        MidiMessage::NoteOn { channel, note, velocity } => {
            lemma_voice_status_byte(0x90, channel.0);
            let sb: u8 = 0x90 | channel.0;
            assert(m.spec_bytes() =~= seq![sb, note.0, velocity.0]);
            lemma_parse_seq_msg3(s, sb, note.0, velocity.0, m);
        },
        MidiMessage::KeyPressure { channel, note, value } => {
            lemma_voice_status_byte(0xa0, channel.0);
            let sb: u8 = 0xa0 | channel.0;
            assert(m.spec_bytes() =~= seq![sb, note.0, value.0]);
            lemma_parse_seq_msg3(s, sb, note.0, value.0, m);
        },
        MidiMessage::ControlChange { channel, control, value } => {
            lemma_voice_status_byte(0xb0, channel.0);
            let sb: u8 = 0xb0 | channel.0;
            assert(m.spec_bytes() =~= seq![sb, control.0, value.0]);
            lemma_parse_seq_msg3(s, sb, control.0, value.0, m);
        },
        MidiMessage::ProgramChange { channel, program } => {
            lemma_voice_status_byte(0xc0, channel.0);
            let sb: u8 = 0xc0 | channel.0;
            assert(m.spec_bytes() =~= seq![sb, program.0]);
            lemma_parse_seq_msg2(s, sb, program.0, m);
        },
        MidiMessage::ChannelPressure { channel, value } => {
            lemma_voice_status_byte(0xd0, channel.0);
            let sb: u8 = 0xd0 | channel.0;
            assert(m.spec_bytes() =~= seq![sb, value.0]);
            lemma_parse_seq_msg2(s, sb, value.0, m);
        },
        MidiMessage::PitchBendChange { channel, value } => {
            lemma_voice_status_byte(0xe0, channel.0);
            let sb: u8 = 0xe0 | channel.0;
            assert(m.spec_bytes() =~= seq![sb, value.1, value.0]);
            lemma_parse_seq_msg3(s, sb, value.1, value.0, m);
        },
        MidiMessage::QuarterFrame { frame_data } => {
            assert(m.spec_bytes() =~= seq![0xf1u8, frame_data.0]);
            lemma_parse_seq_msg2(s, 0xf1, frame_data.0, m);
        },
        MidiMessage::SongPositionPointer { pointer } => {
            assert(m.spec_bytes() =~= seq![0xf2u8, pointer.1, pointer.0]);
            lemma_parse_seq_msg3(s, 0xf2, pointer.1, pointer.0, m);
        },
        MidiMessage::SongSelect(song) => {
            assert(m.spec_bytes() =~= seq![0xf3u8, song.0]);
            lemma_parse_seq_msg2(s, 0xf3, song.0, m);
        },
        MidiMessage::TuneRequest => {
            assert(m.spec_bytes() =~= seq![0xf6u8]);
            lemma_parse_seq_msg1(s, 0xf6, m);
        },
        MidiMessage::EndOfExclusive => {
            assert(m.spec_bytes() =~= seq![0xf7u8]);
            lemma_parse_seq_msg1(s, 0xf7, m);
        },
        MidiMessage::TimingClock => {
            assert(m.spec_bytes() =~= seq![0xf8u8]);
            lemma_parse_seq_msg1(s, 0xf8, m);
        },
        MidiMessage::Start => {
            assert(m.spec_bytes() =~= seq![0xfau8]);
            lemma_parse_seq_msg1(s, 0xfa, m);
        },
        MidiMessage::Continue => {
            assert(m.spec_bytes() =~= seq![0xfbu8]);
            lemma_parse_seq_msg1(s, 0xfb, m);
        },
        MidiMessage::Stop => {
            assert(m.spec_bytes() =~= seq![0xfcu8]);
            lemma_parse_seq_msg1(s, 0xfc, m);
        },
        MidiMessage::ActiveSensing => {
            assert(m.spec_bytes() =~= seq![0xfeu8]);
            lemma_parse_seq_msg1(s, 0xfe, m);
        },
        MidiMessage::Reset => {
            assert(m.spec_bytes() =~= seq![0xffu8]);
            lemma_parse_seq_msg1(s, 0xff, m);
        },
    }
}

/// Rendering any well-formed message with no running status in effect and
/// feeding the produced bytes to a fresh parser yields exactly that
/// message back.
pub proof fn lemma_render_parse_round_trip(m: MidiMessage)
    requires
        m.wf(),
    ensures
        spec_parse_seq(MidiParserState::Idle, spec_render(None, m).0).1 =~= seq![m],
{
    assert(spec_render(None, m).0 == m.spec_bytes());
    lemma_parse_of_message_bytes(MidiParserState::Idle, m);
}

/// Feeding the wire form of a well-formed message and then feeding the
/// same bytes once more produces the same result both times: completing a
/// message leaves no state behind that changes how the same message
/// parses next.
pub proof fn lemma_parse_is_repeatable(s: MidiParserState, m: MidiMessage)
    requires
        m.wf(),
    ensures
        spec_parse_seq(s, m.spec_bytes()).1 =~= seq![m],
        spec_parse_seq(spec_parse_seq(s, m.spec_bytes()).0, m.spec_bytes()).1 =~= seq![m],
{
    lemma_parse_of_message_bytes(s, m);
    lemma_parse_of_message_bytes(spec_parse_seq(s, m.spec_bytes()).0, m);
}

/// A system realtime byte (0xF8 to 0xFF) never disturbs the message in
/// progress: the parser state after it is exactly the state before it.
pub proof fn lemma_realtime_transparency(s: MidiParserState, byte: u8)
    requires
        0xf8 <= byte,
    ensures
        spec_parse_byte(s, byte).0 == s,
{
}

/// A system common or undefined status byte (0xF0 to 0xF7) discards
/// whatever message was in progress: the step it causes does not depend
/// on the state the parser was in.
pub proof fn lemma_system_common_resets(s1: MidiParserState, s2: MidiParserState, byte: u8)
    requires
        0xf0 <= byte < 0xf8,
    ensures
        spec_parse_byte(s1, byte) == spec_parse_byte(s2, byte),
{
}

/// Of two channel voice messages rendered in sequence, the second sends
/// only its data bytes when it shares the first one's status byte, and is
/// sent in full otherwise.
pub proof fn lemma_running_status_pair(status: Option<u8>, m1: MidiMessage, m2: MidiMessage)
    requires
        m1.is_channel_voice(),
        m2.is_channel_voice(),
    ensures
        spec_render_seq(status, seq![m1, m2]) =~= spec_render(status, m1).0 + (
        if m1.spec_status_byte() == m2.spec_status_byte() {
            m2.spec_data_bytes()
        } else {
            m2.spec_bytes()
        }),
{
    assert(seq![m1, m2].drop_first() =~= seq![m2]);
    assert(seq![m2].drop_first() =~= Seq::<MidiMessage>::empty());
    let after1 = spec_render(status, m1).1;
    let after2 = spec_render(after1, m2).1;
    assert(spec_render_seq(after2, Seq::<MidiMessage>::empty()) =~= Seq::<u8>::empty());
    assert(spec_render_seq(after1, seq![m2]) =~= spec_render(after1, m2).0);
}

} // verus!
