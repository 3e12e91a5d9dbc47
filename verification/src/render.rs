//! The MIDI renderer: serializes typed messages into their minimal wire
//! bytes, tracking the last status byte written so that a repeated channel
//! voice status can be elided (running status).

use crate::midi::MidiMessage;
use vstd::prelude::*;

verus! {

/// The bytes a renderer whose last transmitted status is `status` emits
/// for `m`, paired with the last-status value after the write.
///
/// A channel voice message elides its status byte exactly when it equals
/// the previously transmitted one, and records it afterwards. Every other
/// message is sent in full and resets the recorded status, so running
/// status never crosses a system message boundary.
pub open spec fn spec_render(status: Option<u8>, m: MidiMessage) -> (Seq<u8>, Option<u8>) {
    if m.is_channel_voice() {
        let sb = m.spec_status_byte();
        (
            if status == Some(sb) {
                m.spec_data_bytes()
            } else {
                m.spec_bytes()
            },
            Some(sb),
        )
    } else {
        (m.spec_bytes(), None)
    }
}

/// The bytes emitted when rendering each message of `ms` in turn, starting
/// from last-status `status`.
pub open spec fn spec_render_seq(status: Option<u8>, ms: Seq<MidiMessage>) -> Seq<u8>
    decreases ms.len(),
{
    if ms.len() == 0 {
        Seq::empty()
    } else {
        let step = spec_render(status, ms[0]);
        step.0 + spec_render_seq(step.1, ms.drop_first())
    }
}

/// Stateful encoder turning messages into wire bytes. It owns the one
/// piece of encoder state MIDI has: the last status byte transmitted.
#[derive(Debug)]
pub struct MidiRenderer {
    /// The last status byte transmitted, used only to decide running
    /// status elision; `None` whenever the previous message was not a
    /// channel voice message.
    pub status: Option<u8>,
}

impl MidiRenderer {
    /// A fresh renderer that has transmitted nothing: the first channel
    /// voice message will always carry its status byte.
    pub fn new() -> (r: Self)
        ensures
            r.status == Option::<u8>::None,
    {
        MidiRenderer { status: None }
    }

    /// Start a channel voice message whose status byte is `sb`: append the
    /// status byte unless it matches the last one transmitted, and record
    /// it either way.
    fn begin_channel_voice(&mut self, sb: u8, out: &mut Vec<u8>)
        ensures
            final(self).status == Some(sb),
            final(out)@ == if old(self).status == Some(sb) {
                old(out)@
            } else {
                old(out)@.push(sb)
            },
    {
        let elide: bool = match self.status {
            Some(prev) => prev == sb,
            None => false,
        };
        if !elide {
            out.push(sb);
        }
        self.status = Some(sb);
    }

    /// Serialize one message into the bytes to hand to the transport, in
    /// wire order. The bytes and the updated last-status are exactly
    /// `spec_render` of the renderer's previous last-status and the
    /// message.
    pub fn render(&mut self, message: &MidiMessage) -> (bytes: Vec<u8>)
        ensures
            bytes@ == spec_render(old(self).status, *message).0,
            final(self).status == spec_render(old(self).status, *message).1,
    {
        let mut out: Vec<u8> = Vec::new();
        match *message {
            MidiMessage::NoteOff { channel, note, velocity } => {
                self.begin_channel_voice(0x80 | channel.0, &mut out);
                out.push(note.0);
                out.push(velocity.0);
            },
            MidiMessage::NoteOn { channel, note, velocity } => {
                self.begin_channel_voice(0x90 | channel.0, &mut out);
                out.push(note.0);
                out.push(velocity.0);
            },
            MidiMessage::KeyPressure { channel, note, value } => {
                self.begin_channel_voice(0xa0 | channel.0, &mut out);
                out.push(note.0);
                out.push(value.0);
            },
            MidiMessage::ControlChange { channel, control, value } => {
                self.begin_channel_voice(0xb0 | channel.0, &mut out);
                out.push(control.0);
                out.push(value.0);
            },
            MidiMessage::ProgramChange { channel, program } => {
                self.begin_channel_voice(0xc0 | channel.0, &mut out);
                out.push(program.0);
            },
            MidiMessage::ChannelPressure { channel, value } => {
                self.begin_channel_voice(0xd0 | channel.0, &mut out);
                out.push(value.0);
            },
            MidiMessage::PitchBendChange { channel, value } => {
                self.begin_channel_voice(0xe0 | channel.0, &mut out);
                out.push(value.1);
                out.push(value.0);
            },
            MidiMessage::QuarterFrame { frame_data } => {
                self.status = None;
                out.push(0xf1);
                out.push(frame_data.0);
            },
            MidiMessage::SongPositionPointer { pointer } => {
                self.status = None;
                out.push(0xf2);
                out.push(pointer.1);
                out.push(pointer.0);
            },
            MidiMessage::SongSelect(song) => {
                self.status = None;
                out.push(0xf3);
                out.push(song.0);
            },
            MidiMessage::TuneRequest => {
                self.status = None;
                out.push(0xf6);
            },
            MidiMessage::EndOfExclusive => {
                self.status = None;
                out.push(0xf7);
            },
            MidiMessage::TimingClock => {
                self.status = None;
                out.push(0xf8);
            },
            MidiMessage::Start => {
                self.status = None;
                out.push(0xfa);
            },
            MidiMessage::Continue => {
                self.status = None;
                out.push(0xfb);
            },
            MidiMessage::Stop => {
                self.status = None;
                out.push(0xfc);
            },
            MidiMessage::ActiveSensing => {
                self.status = None;
                out.push(0xfe);
            },
            MidiMessage::Reset => {
                self.status = None;
                out.push(0xff);
            },
        }
        out
    }
}

} // verus!
