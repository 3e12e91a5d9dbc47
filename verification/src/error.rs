use vstd::prelude::*;

verus! {

/// Errors surfaced by a MIDI driver built on this codec.
///
/// The decoder itself never fails: malformed input simply produces no
/// message. The only failures a driver can see come from its byte
/// transport, carried here as `Serial`.
#[derive(Clone, Copy, Debug, PartialEq, Eq)]
pub enum MidiError<E> {
    /// The underlying byte transport failed.
    Serial(E),
    /// A received byte sequence could not be interpreted.
    ParseError,
}

} // verus!
