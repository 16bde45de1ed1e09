//! The fixed allow-list of (vendor, product) identifier pairs that name the
//! supported USB Ethernet controllers.

use vstd::prelude::*;

verus! {

/// The allow-list as a predicate: true exactly on the supported pairs.
pub open spec fn spec_is_supported_product(vid: u16, pid: u16) -> bool {
    ||| vid == 0x0bda && (pid == 0x8050 || pid == 0x8053 || pid == 0x8152
        || pid == 0x8153 || pid == 0x8155 || pid == 0x8156)
    ||| vid == 0x045e && (pid == 0x07ab || pid == 0x07c6 || pid == 0x0927 || pid == 0x0c5e)
    ||| vid == 0x0419 && pid == 0xa101
    ||| vid == 0x17ef && (pid == 0x304f || pid == 0x3054 || pid == 0x3062
        || pid == 0x3069 || pid == 0x3082 || pid == 0x7205 || pid == 0x720c
        || pid == 0x7214 || pid == 0x721e || pid == 0xa387)
    ||| vid == 0x13b1 && pid == 0x0041
    ||| vid == 0x0955 && pid == 0x09ff
    ||| vid == 0x2357 && pid == 0x0601
    ||| vid == 0x2001 && pid == 0xb301
    ||| vid == 0x0b05 && pid == 0x1976
}

/// True iff the (vendor, product) pair names a supported controller.
pub fn is_supported_product(vid: u16, pid: u16) -> (r: bool)
    ensures
        r == spec_is_supported_product(vid, pid),
{
    match vid {
        0x0bda => pid == 0x8050 || pid == 0x8053 || pid == 0x8152
            || pid == 0x8153 || pid == 0x8155 || pid == 0x8156,
        0x045e => pid == 0x07ab || pid == 0x07c6 || pid == 0x0927 || pid == 0x0c5e,
        0x0419 => pid == 0xa101,
        0x17ef => pid == 0x304f || pid == 0x3054 || pid == 0x3062
            || pid == 0x3069 || pid == 0x3082 || pid == 0x7205 || pid == 0x720c
            || pid == 0x7214 || pid == 0x721e || pid == 0xa387,
        0x13b1 => pid == 0x0041,
        0x0955 => pid == 0x09ff,
        0x2357 => pid == 0x0601,
        0x2001 => pid == 0xb301,
        0x0b05 => pid == 0x1976,
        _ => false,
    }
}

} // verus!
