//! The fixed key-derivation table. Its values are a compatibility constant of
//! the on-disk format: they must never be computed or altered at runtime.

use vstd::prelude::*;

verus! {

pub const COURSE_KEY_TABLE: [u32; 64] = [
    0x7AB1C9D2, 0xCA750936, 0x3003E59C, 0x06A42C4C, 0x50D4FB9A, 0x7D58FAB9, 0x9E7D6E96, 0x30E0F347,
    0x589222A9, 0x86EFF3F6, 0x9D9875C8, 0x60D7D425, 0x31F5B961, 0x55A594A4, 0x7E4D7E37, 0xE8A91A4A,
    0x29196557, 0x0D82A254, 0x7ADA064C, 0x55D50CDA, 0x569FE682, 0x94C07D0C, 0x170FAD83, 0x64F0B0EF,
    0x39704144, 0x94F9E70D, 0xBE787A0E, 0x8E9F8417, 0x9CDB7B55, 0x9A48D777, 0xB4AE95C4, 0x5A2E4A1A,
    0x0BA1E1E2, 0x1F2954DC, 0x46F23A27, 0xF1AB2B4F, 0x12EEBF93, 0x5D42A06E, 0x2BB5032D, 0xADE8325C,
    0x4A9A564D, 0x2A4A8B23, 0xB92CD4B8, 0xBC10E3D2, 0x6A764A93, 0xCF9C18B7, 0x391A86D8, 0xD60417A9,
    0xE4053A1F, 0x9E819632, 0x480E7009, 0xAFA41C62, 0x56C41DC2, 0x128BCB2F, 0xD164399B, 0x426A0B16,
    0x346625FC, 0x12021AC1, 0x60DEB703, 0x2A06C1D2, 0x63B8EEE2, 0x91D88CD8, 0x0EFFD65C, 0x4EBF4224,
];

} // verus!
