//! PN53x command buffers used by the S330.

use vstd::prelude::*;

verus! {

/// RF field on: `D4 32 01 01`.
pub fn build_rf_on() -> (r: Vec<u8>)
    ensures
        r@ == seq![0xd4u8, 0x32u8, 0x01u8, 0x01u8],
{
    let r = vec![0xd4u8, 0x32, 0x01, 0x01];
    proof {
        assert(r@ =~= seq![0xd4u8, 0x32u8, 0x01u8, 0x01u8]);
    }
    r
}

/// RF field off: `D4 32 01 00`.
pub fn build_rf_off() -> (r: Vec<u8>)
    ensures
        r@ == seq![0xd4u8, 0x32u8, 0x01u8, 0x00u8],
{
    let r = vec![0xd4u8, 0x32, 0x01, 0x00];
    proof {
        assert(r@ =~= seq![0xd4u8, 0x32u8, 0x01u8, 0x00u8]);
    }
    r
}

/// GetFirmwareVersion: `D4 02`.
pub fn build_get_version() -> (r: Vec<u8>)
    ensures
        r@ == seq![0xd4u8, 0x02u8],
{
    let r = vec![0xd4u8, 0x02];
    proof {
        assert(r@ =~= seq![0xd4u8, 0x02u8]);
    }
    r
}

/// Deselect target 1: `D4 44 01`.
pub fn build_deselect() -> (r: Vec<u8>)
    ensures
        r@ == seq![0xd4u8, 0x44u8, 0x01u8],
{
    let r = vec![0xd4u8, 0x44, 0x01];
    proof {
        assert(r@ =~= seq![0xd4u8, 0x44u8, 0x01u8]);
    }
    r
}

/// InListPassiveTarget: `D4 4A <max_targets> <brty>`.
pub fn build_in_list_passive_target(max_targets: u8, brty: u8) -> (r: Vec<u8>)
    ensures
        r@ == seq![0xd4u8, 0x4au8, max_targets, brty],
{
    let r = vec![0xd4u8, 0x4a, max_targets, brty];
    proof {
        assert(r@ =~= seq![0xd4u8, 0x4au8, max_targets, brty]);
    }
    r
}

} // verus!
