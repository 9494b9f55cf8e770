use vstd::prelude::*;
use std::collections::HashMap;

verus! {

/// A SoundFont program loaded on a channel.
#[derive(Debug)]
pub struct Program {
    /// The path to the SoundFont file.
    pub path: String,
    /// The number of banks in the SoundFont.
    pub num_banks: usize,
    /// The index of the current bank.
    pub bank_index: usize,
    /// The number of the current bank.
    pub bank: u32,
    /// The number of presets in the current bank.
    pub num_presets: usize,
    /// The index of the current preset.
    pub preset_index: usize,
    /// The name of the current preset.
    pub preset_name: String,
    /// The default chorus of the program.
    pub chorus: u16,
    /// The default pan of the program.
    pub pan: i16,
    /// The default reverb of the program.
    pub reverb: u16,
}

/// The state of the synthesizer: a program per channel, and the master gain.
#[derive(Debug)]
pub struct SynthState {
    pub programs: HashMap<u8, Program>,
    pub gain: u8,
}

} // verus!
