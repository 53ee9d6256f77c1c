use vstd::prelude::*;

use crate::text::{chars_of, is_name};

verus! {

/// A MIDI channel message: a status byte followed by two data bytes.
#[derive(Clone, Copy, Debug, PartialEq, Eq, Structural)]
pub struct MidiMessage {
    pub status: u8,
    pub data_1: u8,
    pub data_2: u8,
}

/// Why a symbolic description could not be encoded.
#[derive(Clone, Copy, Debug, PartialEq, Eq, Structural)]
pub enum EncodeError {
    InvalidChannel,
    InvalidData2,
    UnknownStatusName,
}

/// The status value (message type, channel 0) that a symbolic name stands for.
pub open spec fn status_base(name: Seq<char>) -> Option<u8> {
    if name == "note_off"@ {
        Some(0x80u8)
    } else if name == "note_on"@ {
        Some(0x90u8)
    } else if name == "poly_key_pressure"@ {
        Some(0xA0u8)
    } else if name == "controller_change"@ {
        Some(0xB0u8)
    } else if name == "program_change"@ {
        Some(0xC0u8)
    } else if name == "channel_pressure"@ {
        Some(0xD0u8)
    } else if name == "pitch_bend"@ {
        Some(0xE0u8)
    } else {
        None
    }
}

/// Message types that carry a single data byte: their second data byte must be zero.
pub open spec fn single_data_byte(name: Seq<char>) -> bool {
    status_base(name) == Some(0xC0u8) || status_base(name) == Some(0xD0u8)
}

/// What encoding a symbolic description gives.
pub open spec fn describe(name: Seq<char>, channel: u8, data_1: u8, data_2: u8) -> Result<
    MidiMessage,
    EncodeError,
> {
    if channel > 15 {
        Err(EncodeError::InvalidChannel)
    } else {
        match status_base(name) {
            None => Err(EncodeError::UnknownStatusName),
            Some(base) => if single_data_byte(name) && data_2 != 0 {
                Err(EncodeError::InvalidData2)
            } else {
                Ok(MidiMessage { status: (base + channel) as u8, data_1, data_2 })
            },
        }
    }
}

/// Each of the seven message types, on each channel 0 to 15, encodes to a status byte
/// equal to its base value plus the channel (the two data bytes kept as given); any
/// channel from 16 up is refused as an invalid channel, whatever the name.
pub proof fn lemma_status_is_base_plus_channel(
    name: Seq<char>,
    channel: u8,
    data_1: u8,
    data_2: u8,
)
    ensures
        channel > 15 ==> describe(name, channel, data_1, data_2) == Err::<MidiMessage, EncodeError>(
            EncodeError::InvalidChannel,
        ),
        channel <= 15 && status_base(name) is Some && (!single_data_byte(name) || data_2 == 0)
            ==> describe(name, channel, data_1, data_2) == Ok::<MidiMessage, EncodeError>(
            MidiMessage { status: (status_base(name)->0 + channel) as u8, data_1, data_2 },
        ),
        channel <= 15 && status_base(name) is Some ==> status_base(name)->0 + channel <= 0xEF,
{
}

/// Program change and channel pressure, on a valid channel, succeed exactly when the
/// second data byte is zero; any other second data byte is refused as invalid.
pub proof fn lemma_single_data_byte_types(channel: u8, data_1: u8, data_2: u8)
    requires
        channel <= 15,
    ensures
        describe("program_change"@, channel, data_1, data_2) is Ok <==> data_2 == 0,
        describe("channel_pressure"@, channel, data_1, data_2) is Ok <==> data_2 == 0,
        data_2 != 0 ==> describe("program_change"@, channel, data_1, data_2) == Err::<
            MidiMessage,
            EncodeError,
        >(EncodeError::InvalidData2),
        data_2 != 0 ==> describe("channel_pressure"@, channel, data_1, data_2) == Err::<
            MidiMessage,
            EncodeError,
        >(EncodeError::InvalidData2),
{
    reveal_strlit("note_off");
    reveal_strlit("note_on");
    reveal_strlit("poly_key_pressure");
    reveal_strlit("controller_change");
    reveal_strlit("program_change");
    reveal_strlit("channel_pressure");
    assert("program_change"@[0] != "note_off"@[0]);
    assert("program_change"@[0] != "controller_change"@[0]);
    assert("program_change"@[1] != "poly_key_pressure"@[1]);
    assert("channel_pressure"@[0] != "note_off"@[0]);
    assert("channel_pressure"@[0] != "poly_key_pressure"@[0]);
    assert("channel_pressure"@[1] != "controller_change"@[1]);
    assert("channel_pressure"@[0] != "program_change"@[0]);
    assert(status_base("program_change"@) == Some(0xC0u8));
    assert(status_base("channel_pressure"@) == Some(0xD0u8));
}

impl MidiMessage {
    /// Builds a message from raw bytes as they are, with no check at all.
    pub fn from_bytes(status: u8, data_1: u8, data_2: u8) -> (r: Result<MidiMessage, EncodeError>)
        ensures
            r == Ok::<MidiMessage, EncodeError>(MidiMessage { status, data_1, data_2 }),
    {
        Ok(MidiMessage { status, data_1, data_2 })
    }

    /// Encodes a message of the named type on `channel`.
    pub fn from_description(status: &str, channel: u8, data_1: u8, data_2: u8) -> (r: Result<
        MidiMessage,
        EncodeError,
    >)
        ensures
            r == describe(status@, channel, data_1, data_2),
    {
        if channel > 15 {
            return Err(EncodeError::InvalidChannel);
        }
        let name = chars_of(status);
        let base: u8;
        if is_name(&name, "note_off") {
            base = 0x80;
        } else if is_name(&name, "note_on") {
            base = 0x90;
        } else if is_name(&name, "poly_key_pressure") {
            base = 0xA0;
        } else if is_name(&name, "controller_change") {
            base = 0xB0;
        } else if is_name(&name, "program_change") {
            if data_2 != 0 {
                return Err(EncodeError::InvalidData2);
            }
            base = 0xC0;
        } else if is_name(&name, "channel_pressure") {
            if data_2 != 0 {
                return Err(EncodeError::InvalidData2);
            }
            base = 0xD0;
        } else if is_name(&name, "pitch_bend") {
            base = 0xE0;
        } else {
            return Err(EncodeError::UnknownStatusName);
        }
        Ok(MidiMessage { status: base + channel, data_1, data_2 })
    }
}

} // verus!
