//! What the link layer asks of a radio.
//!
//! BLE packet format for the LE uncoded PHYs:
//!
//! ```text
//! +----------+----------------+------------------+----------+-----------------------+
//! | Preamble | Access address | PDU              | CRC      | Constant tone         |
//! | (1-2 B)  | (4 B)          | (2-258 B)        | (3 B)    | extension (16-160 us) |
//! +----------+----------------+------------------+----------+-----------------------+
//! ```
//!
//! A PDU of the advertising physical channel has a header of two bytes, flags
//! and length, and a payload. A PDU of the data physical channel may have a
//! third header byte. The length counts the payload, not the header. Every
//! field is sent least significant bit first.

use vstd::prelude::*;
use crate::ll::address::{Address, AddressView};
use crate::phy::channel::Channel;

verus! {

/// Maximum PDU length
pub const MAX_PDU_LENGTH: usize = 258;

/// For BLE the CRC polynomial is `x^24 + x^10 + x^9 + x^6 + x^4 + x^3 + x + 1`
pub const CRC_POLY: u32 = 0b00000001_00000000_00000110_01011011;

/// BLE PHY
#[derive(Clone, Copy, Debug, PartialEq, Eq, Structural)]
pub enum Mode {
    /// 1 Mbit/s BLE with 1 byte preamble
    Ble1mbit,
    /// 2 Mbit/s BLE with 2 byte preamble
    Ble2mbit,
}

/// Represents the size of the header
// The header of a data physical channel PDU may need an extra byte for the
// CTEInfo. That byte is no part of the payload.
#[derive(Clone, Copy, Debug, PartialEq, Eq, Structural)]
pub enum HeaderSize {
    TwoBytes,
    ThreeBytes,
}

/// How far a power that a radio supports lies from the power asked for, in
/// dB.
pub open spec fn spec_power_distance(level: i8, power_db: i8) -> int {
    if level >= power_db {
        level - power_db
    } else {
        power_db - level
    }
}

/// Whether `level` is the power that a radio takes when `power_db` is asked
/// of it: of the powers that it supports, the one nearest to what was asked
/// for, and of two that are as near, the higher.
pub open spec fn spec_is_nearest_tx_power(level: i8, power_db: i8, supported: Seq<i8>) -> bool {
    &&& supported.contains(level)
    &&& forall|i: int|
        0 <= i < supported.len() ==> {
            ||| spec_power_distance(level, power_db) < spec_power_distance(
                #[trigger] supported[i],
                power_db,
            )
            ||| spec_power_distance(level, power_db) == spec_power_distance(
                supported[i],
                power_db,
            ) && level >= supported[i]
        }
}

/// The power that a radio takes, of those that it supports, when `power_db`
/// is asked of it: the nearest, and so its lowest or highest for a power out
/// of its range.
pub fn nearest_tx_power(power_db: i8, supported: &[i8]) -> (level: i8)
    requires
        supported@.len() > 0,
    ensures
        spec_is_nearest_tx_power(level, power_db, supported@),
{
    let mut level: i8 = supported[0];
    let mut i: usize = 1;
    assert(supported@.subrange(0, 1)[0] == level);
    while i < supported.len()
        invariant
            1 <= i <= supported@.len(),
            spec_is_nearest_tx_power(level, power_db, supported@.subrange(0, i as int)),
        decreases supported@.len() - i,
    {
        let other: i8 = supported[i];
        let best: i16 = if level >= power_db {
            level as i16 - power_db as i16
        } else {
            power_db as i16 - level as i16
        };
        let distance: i16 = if other >= power_db {
            other as i16 - power_db as i16
        } else {
            power_db as i16 - other as i16
        };
        let ghost before = level;
        if distance < best || (distance == best && other > level) {
            level = other;
        }
        proof {
            let seen = supported@.subrange(0, i as int);
            let more = supported@.subrange(0, i + 1);
            assert(forall|j: int| 0 <= j < i ==> more[j] == seen[j]);
            assert(more[i as int] == other);
            if level == other {
                assert(more.contains(level));
            } else {
                let j = choose|j: int| 0 <= j < seen.len() && seen[j] == before;
                assert(more[j] == level);
            }
        }
        i += 1;
    }
    assert(supported@.subrange(0, i as int) =~= supported@);
    level
}

/// No two powers are the nearest to what was asked for.
pub proof fn lemma_nearest_tx_power_unique(a: i8, b: i8, power_db: i8, supported: Seq<i8>)
    requires
        spec_is_nearest_tx_power(a, power_db, supported),
        spec_is_nearest_tx_power(b, power_db, supported),
    ensures
        a == b,
{
    let i = choose|i: int| 0 <= i < supported.len() && supported[i] == a;
    let j = choose|j: int| 0 <= j < supported.len() && supported[j] == b;
    assert(supported[i] == a && supported[j] == b);
}

/// What a radio has been set to. A setting that was never made is `None`.
pub struct RadioSettings {
    pub mode: Option<Mode>,
    pub tx_power: Option<i8>,
    pub header_size: Option<HeaderSize>,
    pub access_address: Option<u32>,
    pub channel: Option<Channel>,
    pub crc_poly: Option<u32>,
    pub crc_init: Option<u32>,
}

/// The radio that the link layer drives.
///
/// Every setter is to be called while the radio is disabled, not in the
/// middle of a transmission. Each changes the one setting that it names and
/// leaves the others as they are.
pub trait Radio {
    /// What the radio was last set to.
    spec fn settings(&self) -> RadioSettings;

    /// Set the radio mode and respective preamble length
    fn set_mode(&mut self, mode: Mode)
        ensures
            final(self).settings() == (RadioSettings { mode: Some(mode), ..old(self).settings() }),
    ;

    /// Set the radio tx power, in dBm: the radio takes the nearest power
    /// that it supports, and its lowest or highest for one out of its range
    fn set_tx_power(&mut self, power_db: i8)
        ensures
            final(self).settings() == (RadioSettings {
                tx_power: Some(power_db),
                ..old(self).settings()
            }),
    ;

    /// Set the header size, 2 or 3 bytes
    fn set_header_size(&mut self, header_size: HeaderSize)
        ensures
            final(self).settings() == (RadioSettings {
                header_size: Some(header_size),
                ..old(self).settings()
            }),
    ;

    /// Set the access address, the 4 bytes after the preamble
    fn set_access_address(&mut self, access_address: u32)
        ensures
            final(self).settings() == (RadioSettings {
                access_address: Some(access_address),
                ..old(self).settings()
            }),
    ;

    /// Set the channel: its frequency and its whitening
    fn set_channel(&mut self, channel: Channel)
        ensures
            final(self).settings() == (RadioSettings {
                channel: Some(channel),
                ..old(self).settings()
            }),
    ;

    /// Set the CRC polynomial
    fn set_crc_poly(&mut self, crc_poly: u32)
        ensures
            final(self).settings() == (RadioSettings {
                crc_poly: Some(crc_poly),
                ..old(self).settings()
            }),
    ;

    /// Set the CRC init value
    fn set_crc_init(&mut self, crc_init: u32)
        ensures
            final(self).settings() == (RadioSettings {
                crc_init: Some(crc_init),
                ..old(self).settings()
            }),
    ;

    /// The address that the device was given when it was made.
    spec fn spec_device_address(&self) -> AddressView;

    /// The address that the device was given when it was made.
    fn device_address(&self) -> (address: Address)
        ensures
            address@ == self.spec_device_address(),
    ;
}

} // verus!
