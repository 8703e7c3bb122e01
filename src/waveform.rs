use vstd::prelude::*;

verus! {

/// The closed set of shapes an oscillator can produce.
#[derive(Clone, Copy, Debug, PartialEq, Eq, Structural)]
pub enum Waveform {
    Sine,
    Square,
    Sawtooth,
}

/// The waveform that an interop code stands for: `0` is sine, `1` square,
/// `2` sawtooth, and every other code falls back to sine.
pub open spec fn waveform_of_code(code: u32) -> Waveform {
    if code == 1 {
        Waveform::Square
    } else if code == 2 {
        Waveform::Sawtooth
    } else {
        Waveform::Sine
    }
}

/// Decodes the small-integer waveform code used across runtime boundaries.
pub fn waveform_from_code(code: u32) -> (w: Waveform)
    ensures
        w == waveform_of_code(code),
        code == 0 ==> w == Waveform::Sine,
        code == 1 ==> w == Waveform::Square,
        code == 2 ==> w == Waveform::Sawtooth,
        code > 2 ==> w == Waveform::Sine,
{
    match code {
        0 => Waveform::Sine,
        1 => Waveform::Square,
        2 => Waveform::Sawtooth,
        _ => Waveform::Sine,
    }
}

} // verus!
