//! Advertising physical channel PDU
//!
//! ```text
//!  LSB                                                          MSB
//! +----------+---------+---------+---------+---------+----------+---------------------+
//! | PDU Type | RFU     | ChSel   | TxAdd   | RxAdd   | Length   |                     |
//! | (4 bits) | (1 bit) | (1 bit) | (1 bit) | (1 bit) | (8 bits) |                     |
//! +----------+---------+---------+---------+---------+----------+---------------------+
//! |                     HEADER (16 bits)                        |       Payload       |
//! +-------------------------------------------------------------+---------------------+
//! ```
//!
//! The ChSel, TxAdd and RxAdd fields of the header hold information that is
//! specific to the PDU type. Where a PDU type does not use one of them, the
//! field is reserved for future use.

pub mod header;
pub mod pdu;
