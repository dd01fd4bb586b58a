use vstd::prelude::*;

verus! {

/// Bit set by the host interface for a port that is an input.
pub const PORT_INPUT: i32 = 0x1;
/// Bit set by the host interface for a port that is an output.
pub const PORT_OUTPUT: i32 = 0x2;
/// Bit set by the host interface for a port that carries a single control value.
pub const PORT_CONTROL: i32 = 0x4;
/// Bit set by the host interface for a port that carries an audio buffer.
pub const PORT_AUDIO: i32 = 0x8;

/// Direction and kind of a declared port: the four valid combinations of
/// input/output with audio/control, plus a catch-all for a corrupted tag.
#[derive(Clone, Copy, PartialEq, Eq, Structural, Debug)]
pub enum PortKind {
    AudioInput,
    AudioOutput,
    ControlInput,
    ControlOutput,
    Invalid,
}

/// The host-interface bit set that encodes a port kind: the input or
/// output bit together with the audio or control bit.
pub open spec fn kind_bits(k: PortKind) -> i32 {
    match k {
        PortKind::AudioInput => 0x9,  // input | audio
        PortKind::AudioOutput => 0xA,  // output | audio
        PortKind::ControlInput => 0x5,  // input | control
        PortKind::ControlOutput => 0x6,  // output | control
        PortKind::Invalid => 0,
    }
}

/// Encodes a port kind as the host-interface bit set.
pub fn port_kind_bits(k: PortKind) -> (r: i32)
    ensures
        r == kind_bits(k),
{
    match k {
        PortKind::AudioInput => 0x9,
        PortKind::AudioOutput => 0xA,
        PortKind::ControlInput => 0x5,
        PortKind::ControlOutput => 0x6,
        PortKind::Invalid => 0,
    }
}

} // verus!
