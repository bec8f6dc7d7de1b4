//! The Flags AD structure.

use vstd::prelude::*;
use crate::gap::adv_struct::DecodeError;

verus! {

/// What a device says of how it can be discovered and of classic Bluetooth.
#[derive(Debug, Clone, Copy, PartialEq, Eq, Structural)]
pub struct Flags {
    /// Device operating in LE Limited Discoverable mode.
    ///
    /// Either this or `le_general_disc` must be set for the device to be discoverable.
    /// Note that "Broadcast Mode" still works with undiscoverable devices, since it doesn't need
    /// discovery or connections.
    pub le_limited_disc: bool,
    /// Device operating in LE General Discoverable mode.
    ///
    /// Either this or `le_limited_disc` must be set for the device to be discoverable.
    /// Note that "Broadcast Mode" still works with undiscoverable devices, since it doesn't need
    /// discovery or connections.
    pub le_general_disc: bool,
    /// Indicate if the device that sent this `Flags` value supports BR/EDR (aka "Classic Bluetooth").
    pub br_edr_not_supported: bool,
    /// Not used by devices that only do LE.
    pub simultaneous_le_bredr_capable_controller: bool,
}

/// A flag as a number.
pub open spec fn spec_flag(flag: bool) -> int {
    if flag {
        1
    } else {
        0
    }
}

fn flag_bit(flag: bool) -> (bit: u8)
    ensures
        bit == spec_flag(flag),
{
    if flag {
        1
    } else {
        0
    }
}

impl Flags {
    /// The AD type of this structure.
    pub const AD_TYPE: u8 = 0x01;

    /// The flags as one byte: bit 0 LE limited discoverable, bit 1 LE
    /// general discoverable, bit 2 BR/EDR not supported, bit 3 simultaneous
    /// LE and BR/EDR in the controller.
    pub open spec fn spec_byte(&self) -> u8 {
        (spec_flag(self.le_limited_disc) + 2 * spec_flag(self.le_general_disc) + 4 * spec_flag(
            self.br_edr_not_supported,
        ) + 8 * spec_flag(self.simultaneous_le_bredr_capable_controller)) as u8
    }

    /// The flags that the low four bits of a byte hold.
    pub open spec fn spec_parse_byte(byte: u8) -> Flags {
        Flags {
            le_limited_disc: byte % 2 == 1,
            le_general_disc: byte / 2 % 2 == 1,
            br_edr_not_supported: byte / 4 % 2 == 1,
            simultaneous_le_bredr_capable_controller: byte / 8 % 2 == 1,
        }
    }

    /// The Flags AD structure without its length: the AD type and the byte
    /// of flags.
    pub open spec fn spec_bytes(&self) -> Seq<u8> {
        seq![0x01u8, self.spec_byte()]
    }

    /// The flags that an AD type and a byte of flags hold.
    pub open spec fn spec_parse(bytes: Seq<u8>) -> Result<Flags, DecodeError> {
        if bytes.len() < 2 {
            Err(DecodeError::InvalidLength)
        } else if bytes[0] != 0x01 {
            Err(DecodeError::InvalidType)
        } else {
            Ok(Flags::spec_parse_byte(bytes[1]))
        }
    }

    /// Flags of a device that cannot be discovered.
    pub fn non_discoverable() -> (flags: Self)
        ensures
            flags == (Flags {
                le_limited_disc: false,
                le_general_disc: false,
                br_edr_not_supported: true,
                simultaneous_le_bredr_capable_controller: false,
            }),
    {
        Self {
            le_limited_disc: false,
            le_general_disc: false,
            br_edr_not_supported: true,
            simultaneous_le_bredr_capable_controller: false,
        }
    }

    /// Returns flags suitable for discoverable devices that want to establish a connection.
    ///
    /// The created `Flags` value specifies that this device is not BR/EDR (classic Bluetooth)
    /// capable and is in General Discoverable mode.
    pub fn discoverable() -> (flags: Self)
        ensures
            flags == (Flags {
                le_limited_disc: false,
                le_general_disc: true,
                br_edr_not_supported: true,
                simultaneous_le_bredr_capable_controller: false,
            }),
    {
        Self {
            le_limited_disc: false,
            le_general_disc: true,
            br_edr_not_supported: true,
            simultaneous_le_bredr_capable_controller: false,
        }
    }

    /// Returns flags suitable for non-connectable devices that just broadcast advertising packets.
    ///
    /// Creates a `Flags` value that specifies that BR/EDR (classic Bluetooth) is not supported and
    /// that this device is not discoverable.
    pub fn broadcast() -> (flags: Self)
        ensures
            flags == (Flags {
                le_limited_disc: false,
                le_general_disc: false,
                br_edr_not_supported: true,
                simultaneous_le_bredr_capable_controller: false,
            }),
    {
        Self {
            le_limited_disc: false,
            le_general_disc: false,
            br_edr_not_supported: true,
            simultaneous_le_bredr_capable_controller: false,
        }
    }

    /// The flags as one byte.
    pub fn byte(&self) -> (byte: u8)
        ensures
            byte == self.spec_byte(),
    {
        let limited: u8 = flag_bit(self.le_limited_disc);
        let general: u8 = flag_bit(self.le_general_disc);
        let classic: u8 = flag_bit(self.br_edr_not_supported);
        let both: u8 = flag_bit(self.simultaneous_le_bredr_capable_controller);
        assert(limited | general << 1 | classic << 2 | both << 3 == limited + 2 * general + 4
            * classic + 8 * both) by (bit_vector)
            requires
                limited <= 1,
                general <= 1,
                classic <= 1,
                both <= 1,
        ;
        limited | general << 1 | classic << 2 | both << 3
    }

    /// Writes the AD type and the byte of flags to the start of `dest` and
    /// returns the number of bytes written, two.
    pub fn bytes(&self, dest: &mut [u8]) -> (len: usize)
        requires
            old(dest)@.len() >= 2,
        ensures
            len == 2,
            final(dest)@ == old(dest)@.update(0, 0x01u8).update(1, self.spec_byte()),
    {
        dest[0] = Self::AD_TYPE;
        dest[1] = self.byte();
        2
    }

    /// The flags that the low four bits of a byte hold.
    pub fn parse_byte(byte: u8) -> (flags: Self)
        ensures
            flags == Flags::spec_parse_byte(byte),
    {
        assert((byte & 0b0000_0001 != 0) == (byte % 2 == 1)) by (bit_vector);
        assert((byte & 0b0000_0010 != 0) == (byte / 2 % 2 == 1)) by (bit_vector);
        assert((byte & 0b0000_0100 != 0) == (byte / 4 % 2 == 1)) by (bit_vector);
        assert((byte & 0b0000_1000 != 0) == (byte / 8 % 2 == 1)) by (bit_vector);
        Self {
            le_limited_disc: byte & 0b0000_0001 != 0,
            le_general_disc: byte & 0b0000_0010 != 0,
            br_edr_not_supported: byte & 0b0000_0100 != 0,
            simultaneous_le_bredr_capable_controller: byte & 0b0000_1000 != 0,
        }
    }

    /// Reads the AD type and the byte of flags at the start of `bytes`.
    pub fn parse(bytes: &[u8]) -> (flags: Result<Self, DecodeError>)
        ensures
            flags == Flags::spec_parse(bytes@),
    {
        if bytes.len() < 2 {
            return Err(DecodeError::InvalidLength);
        }
        if bytes[0] != Self::AD_TYPE {
            return Err(DecodeError::InvalidType);
        }
        Ok(Self::parse_byte(bytes[1]))
    }
}

/// Flags come back unchanged from their byte, and the low four bits of a
/// byte come back unchanged from its flags.
pub proof fn lemma_flags_round_trip(flags: Flags, byte: u8)
    ensures
        Flags::spec_parse_byte(flags.spec_byte()) == flags,
        Flags::spec_parse(flags.spec_bytes()) == Ok::<Flags, DecodeError>(flags),
        Flags::spec_parse_byte(byte).spec_byte() == byte % 16,
        flags.spec_byte() < 16,
{
    let limited = spec_flag(flags.le_limited_disc) as u8;
    let general = spec_flag(flags.le_general_disc) as u8;
    let classic = spec_flag(flags.br_edr_not_supported) as u8;
    let both = spec_flag(flags.simultaneous_le_bredr_capable_controller) as u8;
    assert({
        let value = (limited + 2 * general + 4 * classic + 8 * both) as u8;
        &&& value < 16
        &&& value % 2 == limited
        &&& value / 2 % 2 == general
        &&& value / 4 % 2 == classic
        &&& value / 8 % 2 == both
    }) by (bit_vector)
        requires
            limited <= 1,
            general <= 1,
            classic <= 1,
            both <= 1,
    ;
    assert(byte % 2 + 2 * (byte / 2 % 2) + 4 * (byte / 4 % 2) + 8 * (byte / 8 % 2) == byte % 16)
        by (bit_vector);
}

} // verus!
