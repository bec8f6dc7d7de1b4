//! Physical layer.

pub mod channel;
pub mod radio;

pub use crate::phy::channel::{
    AdvertisingChannel, Channel, ChannelTrait, DataChannel, PrimaryAdvertisingChannel,
    UnknownChannel,
};
pub use crate::phy::radio::{
    nearest_tx_power, HeaderSize, Mode, Radio, RadioSettings, CRC_POLY, MAX_PDU_LENGTH,
};

use vstd::prelude::*;

verus! {

/// The access address of every advertising physical channel PDU.
pub const ADV_ADDRESS: u32 = 0x8E_89_BE_D6;

/// BLE advertising CRC initial value, 24 bits: the shift register is preset
/// with 0x555555 for every advertising physical channel PDU.
pub const ADV_CRC_INIT: u32 = 0x555555;

} // verus!
