//! Bluetooth Low Energy legacy advertising: the PDUs of the advertising
//! physical channel, the advertising data of the generic access profile, and
//! the link layer that advertises them.

pub mod adv_pdu;
pub mod buffer;
pub mod gap;
pub mod ll;
pub mod phy;

pub use crate::gap::{AdvData, Broadcaster, DecodeError, Flags};
pub use crate::ll::Address;
