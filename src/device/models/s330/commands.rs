//! PN53x command buffers of the S330.

use vstd::prelude::*;

use crate::device::models::s330::rcs956::builders::{
    build_deselect, build_get_version, build_in_list_passive_target, build_rf_off, build_rf_on,
};

verus! {

/// RF field on: `D4 32 01 01`.
pub fn rcs956_rf_on() -> (r: Vec<u8>)
    ensures
        r@ == seq![0xd4u8, 0x32u8, 0x01u8, 0x01u8],
{
    build_rf_on()
}

/// RF field off: `D4 32 01 00`.
pub fn rcs956_rf_off() -> (r: Vec<u8>)
    ensures
        r@ == seq![0xd4u8, 0x32u8, 0x01u8, 0x00u8],
{
    build_rf_off()
}

/// GetFirmwareVersion: `D4 02`.
pub fn rcs956_get_version() -> (r: Vec<u8>)
    ensures
        r@ == seq![0xd4u8, 0x02u8],
{
    build_get_version()
}

/// Deselect: `D4 44 01`.
pub fn rcs956_deselect() -> (r: Vec<u8>)
    ensures
        r@ == seq![0xd4u8, 0x44u8, 0x01u8],
{
    build_deselect()
}

/// InListPassiveTarget: `D4 4A <max_targets> <brty>`.
pub fn rcs956_in_list_passive_target(max_targets: u8, brty: u8) -> (r: Vec<u8>)
    ensures
        r@ == seq![0xd4u8, 0x4au8, max_targets, brty],
{
    build_in_list_passive_target(max_targets, brty)
}

/// InListPassiveTarget for one Type-A target: `D4 4A 01 00`.
pub fn rcs956_in_list_passive_target_default() -> (r: Vec<u8>)
    ensures
        r@ == seq![0xd4u8, 0x4au8, 0x01u8, 0x00u8],
{
    build_in_list_passive_target(1, 0)
}

} // verus!
