//! A MIDI 1.0 byte-stream codec: a typed message model, an incremental
//! parser that consumes the wire stream one byte at a time, and a renderer
//! that serializes messages with running-status compression.
//!
//! The parser and renderer are pure state machines over plain bytes; feeding
//! them from a serial port (or any other transport) is left to the caller.

mod error;
mod midi;
mod parser;
mod render;
mod roundtrip;

pub use crate::error::MidiError;
pub use crate::midi::{
    lemma_value14_round_trip, lemma_value14_split_combine, spec_combine14, spec_frame_type,
    spec_smpte_type, spec_split14, Channel, Control, MidiMessage, Note, Program, QuarterFrame,
    QuarterFrameType, SmpteType, Value14, Value7,
};
pub use crate::parser::{
    is_status_byte, is_system_message, spec_parse_byte, spec_parse_data_byte, spec_parse_seq,
    spec_parse_system_status, spec_parse_voice_status, split_message_and_channel, MidiParser,
    MidiParserState,
};
pub use crate::render::{spec_render, spec_render_seq, MidiRenderer};
pub use crate::roundtrip::{
    lemma_parse_is_repeatable, lemma_parse_of_message_bytes, lemma_realtime_transparency,
    lemma_render_parse_round_trip, lemma_running_status_pair, lemma_system_common_resets,
};
