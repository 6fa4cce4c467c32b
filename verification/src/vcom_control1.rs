//! Parameter block of the `vcom-control1` command: the VCOMH and VCOML voltage
//! levels.

use vstd::prelude::*;

use crate::bits::extract_field;
use crate::bits::field_get;
use crate::bits::field_set;
use crate::bits::insert_field;
use crate::error::CodecError;

verus! {

/// The documented codes of the `VcomhV` field.
#[derive(Copy, Clone, Debug, PartialEq, Eq, Structural)]
pub enum VcomhV {
    N2o700,
    N2o725,
    N2o750,
    N2o775,
    N2o800,
    N2o825,
    N2o850,
    N2o875,
    N2o900,
    N2o925,
    N2o950,
    N2o975,
    N3o000,
    N3o025,
    N3o050,
    N3o075,
    N3o100,
    N3o125,
    N3o150,
    N3o175,
    N3o200,
    N3o225,
    N3o250,
    N3o275,
    N3o300,
    N3o325,
    N3o350,
    N3o375,
    N3o400,
    N3o425,
    N3o450,
    N3o475,
    N3o500,
    N3o525,
    N3o550,
    N3o575,
    N3o600,
    N3o625,
    N3o650,
    N3o675,
    N3o700,
    N3o725,
    N3o750,
    N3o775,
    N3o800,
    N3o825,
    N3o850,
    N3o875,
    N3o900,
    N3o925,
    N3o950,
    N3o975,
    N4o000,
    N4o025,
    N4o050,
    N4o075,
    N4o100,
    N4o125,
    N4o150,
    N4o175,
    N4o200,
    N4o225,
    N4o250,
    N4o275,
    N4o300,
    N4o325,
    N4o350,
    N4o375,
    N4o400,
    N4o425,
    N4o450,
    N4o475,
    N4o500,
    N4o525,
    N4o550,
    N4o575,
    N4o600,
    N4o625,
    N4o650,
    N4o675,
    N4o700,
    N4o725,
    N4o750,
    N4o775,
    N4o800,
    N4o825,
    N4o850,
    N4o875,
    N4o900,
    N4o925,
    N4o950,
    N4o975,
    N5o000,
    N5o025,
    N5o050,
    N5o075,
    N5o100,
    N5o125,
    N5o150,
    N5o175,
    N5o200,
    N5o225,
    N5o250,
    N5o275,
    N5o300,
    N5o325,
    N5o350,
    N5o375,
    N5o400,
    N5o425,
    N5o450,
    N5o475,
    N5o500,
    N5o525,
    N5o550,
    N5o575,
    N5o600,
    N5o625,
    N5o650,
    N5o675,
    N5o700,
    N5o725,
    N5o750,
    N5o775,
    N5o800,
    N5o825,
    N5o850,
    N5o875,
}

impl VcomhV {
    /// The wire code of this variant.
    pub open spec fn spec_code(self) -> u8 {
        match self {
            VcomhV::N2o700 => 0x00,
            VcomhV::N2o725 => 0x01,
            VcomhV::N2o750 => 0x02,
            VcomhV::N2o775 => 0x03,
            VcomhV::N2o800 => 0x04,
            VcomhV::N2o825 => 0x05,
            VcomhV::N2o850 => 0x06,
            VcomhV::N2o875 => 0x07,
            VcomhV::N2o900 => 0x08,
            VcomhV::N2o925 => 0x09,
            VcomhV::N2o950 => 0x0A,
            VcomhV::N2o975 => 0x0B,
            VcomhV::N3o000 => 0x0C,
            VcomhV::N3o025 => 0x0D,
            VcomhV::N3o050 => 0x0E,
            VcomhV::N3o075 => 0x0F,
            VcomhV::N3o100 => 0x10,
            VcomhV::N3o125 => 0x11,
            VcomhV::N3o150 => 0x12,
            VcomhV::N3o175 => 0x13,
            VcomhV::N3o200 => 0x14,
            VcomhV::N3o225 => 0x15,
            VcomhV::N3o250 => 0x16,
            VcomhV::N3o275 => 0x17,
            VcomhV::N3o300 => 0x18,
            VcomhV::N3o325 => 0x19,
            VcomhV::N3o350 => 0x1A,
            VcomhV::N3o375 => 0x1B,
            VcomhV::N3o400 => 0x1C,
            VcomhV::N3o425 => 0x1D,
            VcomhV::N3o450 => 0x1E,
            VcomhV::N3o475 => 0x1F,
            VcomhV::N3o500 => 0x20,
            VcomhV::N3o525 => 0x21,
            VcomhV::N3o550 => 0x22,
            VcomhV::N3o575 => 0x23,
            VcomhV::N3o600 => 0x24,
            VcomhV::N3o625 => 0x25,
            VcomhV::N3o650 => 0x26,
            VcomhV::N3o675 => 0x27,
            VcomhV::N3o700 => 0x28,
            VcomhV::N3o725 => 0x29,
            VcomhV::N3o750 => 0x2A,
            VcomhV::N3o775 => 0x2B,
            VcomhV::N3o800 => 0x2C,
            VcomhV::N3o825 => 0x2D,
            VcomhV::N3o850 => 0x2E,
            VcomhV::N3o875 => 0x2F,
            VcomhV::N3o900 => 0x30,
            VcomhV::N3o925 => 0x31,
            VcomhV::N3o950 => 0x32,
            VcomhV::N3o975 => 0x33,
            VcomhV::N4o000 => 0x34,
            VcomhV::N4o025 => 0x35,
            VcomhV::N4o050 => 0x36,
            VcomhV::N4o075 => 0x37,
            VcomhV::N4o100 => 0x38,
            VcomhV::N4o125 => 0x39,
            VcomhV::N4o150 => 0x3A,
            VcomhV::N4o175 => 0x3B,
            VcomhV::N4o200 => 0x3C,
            VcomhV::N4o225 => 0x3D,
            VcomhV::N4o250 => 0x3E,
            VcomhV::N4o275 => 0x3F,
            VcomhV::N4o300 => 0x40,
            VcomhV::N4o325 => 0x41,
            VcomhV::N4o350 => 0x42,
            VcomhV::N4o375 => 0x43,
            VcomhV::N4o400 => 0x44,
            VcomhV::N4o425 => 0x45,
            VcomhV::N4o450 => 0x46,
            VcomhV::N4o475 => 0x47,
            VcomhV::N4o500 => 0x48,
            VcomhV::N4o525 => 0x49,
            VcomhV::N4o550 => 0x4A,
            VcomhV::N4o575 => 0x4B,
            VcomhV::N4o600 => 0x4C,
            VcomhV::N4o625 => 0x4D,
            VcomhV::N4o650 => 0x4E,
            VcomhV::N4o675 => 0x4F,
            VcomhV::N4o700 => 0x50,
            VcomhV::N4o725 => 0x51,
            VcomhV::N4o750 => 0x52,
            VcomhV::N4o775 => 0x53,
            VcomhV::N4o800 => 0x54,
            VcomhV::N4o825 => 0x55,
            VcomhV::N4o850 => 0x56,
            VcomhV::N4o875 => 0x57,
            VcomhV::N4o900 => 0x58,
            VcomhV::N4o925 => 0x59,
            VcomhV::N4o950 => 0x5A,
            VcomhV::N4o975 => 0x5B,
            VcomhV::N5o000 => 0x5C,
            VcomhV::N5o025 => 0x5D,
            VcomhV::N5o050 => 0x5E,
            VcomhV::N5o075 => 0x5F,
            VcomhV::N5o100 => 0x60,
            VcomhV::N5o125 => 0x61,
            VcomhV::N5o150 => 0x62,
            VcomhV::N5o175 => 0x63,
            VcomhV::N5o200 => 0x64,
            VcomhV::N5o225 => 0x65,
            VcomhV::N5o250 => 0x66,
            VcomhV::N5o275 => 0x67,
            VcomhV::N5o300 => 0x68,
            VcomhV::N5o325 => 0x69,
            VcomhV::N5o350 => 0x6A,
            VcomhV::N5o375 => 0x6B,
            VcomhV::N5o400 => 0x6C,
            VcomhV::N5o425 => 0x6D,
            VcomhV::N5o450 => 0x6E,
            VcomhV::N5o475 => 0x6F,
            VcomhV::N5o500 => 0x70,
            VcomhV::N5o525 => 0x71,
            VcomhV::N5o550 => 0x72,
            VcomhV::N5o575 => 0x73,
            VcomhV::N5o600 => 0x74,
            VcomhV::N5o625 => 0x75,
            VcomhV::N5o650 => 0x76,
            VcomhV::N5o675 => 0x77,
            VcomhV::N5o700 => 0x78,
            VcomhV::N5o725 => 0x79,
            VcomhV::N5o750 => 0x7A,
            VcomhV::N5o775 => 0x7B,
            VcomhV::N5o800 => 0x7C,
            VcomhV::N5o825 => 0x7D,
            VcomhV::N5o850 => 0x7E,
            VcomhV::N5o875 => 0x7F,
        }
    }

    /// The variant for a wire code, or a decode error for a code outside
    /// the documented mapping.
    pub open spec fn spec_decode(code: u8) -> Result<VcomhV, CodecError> {
        if code == 0x00 {
            Ok(VcomhV::N2o700)
        } else if code == 0x01 {
            Ok(VcomhV::N2o725)
        } else if code == 0x02 {
            Ok(VcomhV::N2o750)
        } else if code == 0x03 {
            Ok(VcomhV::N2o775)
        } else if code == 0x04 {
            Ok(VcomhV::N2o800)
        } else if code == 0x05 {
            Ok(VcomhV::N2o825)
        } else if code == 0x06 {
            Ok(VcomhV::N2o850)
        } else if code == 0x07 {
            Ok(VcomhV::N2o875)
        } else if code == 0x08 {
            Ok(VcomhV::N2o900)
        } else if code == 0x09 {
            Ok(VcomhV::N2o925)
        } else if code == 0x0A {
            Ok(VcomhV::N2o950)
        } else if code == 0x0B {
            Ok(VcomhV::N2o975)
        } else if code == 0x0C {
            Ok(VcomhV::N3o000)
        } else if code == 0x0D {
            Ok(VcomhV::N3o025)
        } else if code == 0x0E {
            Ok(VcomhV::N3o050)
        } else if code == 0x0F {
            Ok(VcomhV::N3o075)
        } else if code == 0x10 {
            Ok(VcomhV::N3o100)
        } else if code == 0x11 {
            Ok(VcomhV::N3o125)
        } else if code == 0x12 {
            Ok(VcomhV::N3o150)
        } else if code == 0x13 {
            Ok(VcomhV::N3o175)
        } else if code == 0x14 {
            Ok(VcomhV::N3o200)
        } else if code == 0x15 {
            Ok(VcomhV::N3o225)
        } else if code == 0x16 {
            Ok(VcomhV::N3o250)
        } else if code == 0x17 {
            Ok(VcomhV::N3o275)
        } else if code == 0x18 {
            Ok(VcomhV::N3o300)
        } else if code == 0x19 {
            Ok(VcomhV::N3o325)
        } else if code == 0x1A {
            Ok(VcomhV::N3o350)
        } else if code == 0x1B {
            Ok(VcomhV::N3o375)
        } else if code == 0x1C {
            Ok(VcomhV::N3o400)
        } else if code == 0x1D {
            Ok(VcomhV::N3o425)
        } else if code == 0x1E {
            Ok(VcomhV::N3o450)
        } else if code == 0x1F {
            Ok(VcomhV::N3o475)
        } else if code == 0x20 {
            Ok(VcomhV::N3o500)
        } else if code == 0x21 {
            Ok(VcomhV::N3o525)
        } else if code == 0x22 {
            Ok(VcomhV::N3o550)
        } else if code == 0x23 {
            Ok(VcomhV::N3o575)
        } else if code == 0x24 {
            Ok(VcomhV::N3o600)
        } else if code == 0x25 {
            Ok(VcomhV::N3o625)
        } else if code == 0x26 {
            Ok(VcomhV::N3o650)
        } else if code == 0x27 {
            Ok(VcomhV::N3o675)
        } else if code == 0x28 {
            Ok(VcomhV::N3o700)
        } else if code == 0x29 {
            Ok(VcomhV::N3o725)
        } else if code == 0x2A {
            Ok(VcomhV::N3o750)
        } else if code == 0x2B {
            Ok(VcomhV::N3o775)
        } else if code == 0x2C {
            Ok(VcomhV::N3o800)
        } else if code == 0x2D {
            Ok(VcomhV::N3o825)
        } else if code == 0x2E {
            Ok(VcomhV::N3o850)
        } else if code == 0x2F {
            Ok(VcomhV::N3o875)
        } else if code == 0x30 {
            Ok(VcomhV::N3o900)
        } else if code == 0x31 {
            Ok(VcomhV::N3o925)
        } else if code == 0x32 {
            Ok(VcomhV::N3o950)
        } else if code == 0x33 {
            Ok(VcomhV::N3o975)
        } else if code == 0x34 {
            Ok(VcomhV::N4o000)
        } else if code == 0x35 {
            Ok(VcomhV::N4o025)
        } else if code == 0x36 {
            Ok(VcomhV::N4o050)
        } else if code == 0x37 {
            Ok(VcomhV::N4o075)
        } else if code == 0x38 {
            Ok(VcomhV::N4o100)
        } else if code == 0x39 {
            Ok(VcomhV::N4o125)
        } else if code == 0x3A {
            Ok(VcomhV::N4o150)
        } else if code == 0x3B {
            Ok(VcomhV::N4o175)
        } else if code == 0x3C {
            Ok(VcomhV::N4o200)
        } else if code == 0x3D {
            Ok(VcomhV::N4o225)
        } else if code == 0x3E {
            Ok(VcomhV::N4o250)
        } else if code == 0x3F {
            Ok(VcomhV::N4o275)
        } else if code == 0x40 {
            Ok(VcomhV::N4o300)
        } else if code == 0x41 {
            Ok(VcomhV::N4o325)
        } else if code == 0x42 {
            Ok(VcomhV::N4o350)
        } else if code == 0x43 {
            Ok(VcomhV::N4o375)
        } else if code == 0x44 {
            Ok(VcomhV::N4o400)
        } else if code == 0x45 {
            Ok(VcomhV::N4o425)
        } else if code == 0x46 {
            Ok(VcomhV::N4o450)
        } else if code == 0x47 {
            Ok(VcomhV::N4o475)
        } else if code == 0x48 {
            Ok(VcomhV::N4o500)
        } else if code == 0x49 {
            Ok(VcomhV::N4o525)
        } else if code == 0x4A {
            Ok(VcomhV::N4o550)
        } else if code == 0x4B {
            Ok(VcomhV::N4o575)
        } else if code == 0x4C {
            Ok(VcomhV::N4o600)
        } else if code == 0x4D {
            Ok(VcomhV::N4o625)
        } else if code == 0x4E {
            Ok(VcomhV::N4o650)
        } else if code == 0x4F {
            Ok(VcomhV::N4o675)
        } else if code == 0x50 {
            Ok(VcomhV::N4o700)
        } else if code == 0x51 {
            Ok(VcomhV::N4o725)
        } else if code == 0x52 {
            Ok(VcomhV::N4o750)
        } else if code == 0x53 {
            Ok(VcomhV::N4o775)
        } else if code == 0x54 {
            Ok(VcomhV::N4o800)
        } else if code == 0x55 {
            Ok(VcomhV::N4o825)
        } else if code == 0x56 {
            Ok(VcomhV::N4o850)
        } else if code == 0x57 {
            Ok(VcomhV::N4o875)
        } else if code == 0x58 {
            Ok(VcomhV::N4o900)
        } else if code == 0x59 {
            Ok(VcomhV::N4o925)
        } else if code == 0x5A {
            Ok(VcomhV::N4o950)
        } else if code == 0x5B {
            Ok(VcomhV::N4o975)
        } else if code == 0x5C {
            Ok(VcomhV::N5o000)
        } else if code == 0x5D {
            Ok(VcomhV::N5o025)
        } else if code == 0x5E {
            Ok(VcomhV::N5o050)
        } else if code == 0x5F {
            Ok(VcomhV::N5o075)
        } else if code == 0x60 {
            Ok(VcomhV::N5o100)
        } else if code == 0x61 {
            Ok(VcomhV::N5o125)
        } else if code == 0x62 {
            Ok(VcomhV::N5o150)
        } else if code == 0x63 {
            Ok(VcomhV::N5o175)
        } else if code == 0x64 {
            Ok(VcomhV::N5o200)
        } else if code == 0x65 {
            Ok(VcomhV::N5o225)
        } else if code == 0x66 {
            Ok(VcomhV::N5o250)
        } else if code == 0x67 {
            Ok(VcomhV::N5o275)
        } else if code == 0x68 {
            Ok(VcomhV::N5o300)
        } else if code == 0x69 {
            Ok(VcomhV::N5o325)
        } else if code == 0x6A {
            Ok(VcomhV::N5o350)
        } else if code == 0x6B {
            Ok(VcomhV::N5o375)
        } else if code == 0x6C {
            Ok(VcomhV::N5o400)
        } else if code == 0x6D {
            Ok(VcomhV::N5o425)
        } else if code == 0x6E {
            Ok(VcomhV::N5o450)
        } else if code == 0x6F {
            Ok(VcomhV::N5o475)
        } else if code == 0x70 {
            Ok(VcomhV::N5o500)
        } else if code == 0x71 {
            Ok(VcomhV::N5o525)
        } else if code == 0x72 {
            Ok(VcomhV::N5o550)
        } else if code == 0x73 {
            Ok(VcomhV::N5o575)
        } else if code == 0x74 {
            Ok(VcomhV::N5o600)
        } else if code == 0x75 {
            Ok(VcomhV::N5o625)
        } else if code == 0x76 {
            Ok(VcomhV::N5o650)
        } else if code == 0x77 {
            Ok(VcomhV::N5o675)
        } else if code == 0x78 {
            Ok(VcomhV::N5o700)
        } else if code == 0x79 {
            Ok(VcomhV::N5o725)
        } else if code == 0x7A {
            Ok(VcomhV::N5o750)
        } else if code == 0x7B {
            Ok(VcomhV::N5o775)
        } else if code == 0x7C {
            Ok(VcomhV::N5o800)
        } else if code == 0x7D {
            Ok(VcomhV::N5o825)
        } else if code == 0x7E {
            Ok(VcomhV::N5o850)
        } else if code == 0x7F {
            Ok(VcomhV::N5o875)
        } else {
            Err(CodecError::UnrecognizedCode { code })
        }
    }

    /// The wire code of this variant.
    #[verifier::rlimit(100)]
    pub fn code(self) -> (r: u8)
        ensures
            r == self.spec_code(),
    {
        match self {
            VcomhV::N2o700 => 0x00,
            VcomhV::N2o725 => 0x01,
            VcomhV::N2o750 => 0x02,
            VcomhV::N2o775 => 0x03,
            VcomhV::N2o800 => 0x04,
            VcomhV::N2o825 => 0x05,
            VcomhV::N2o850 => 0x06,
            VcomhV::N2o875 => 0x07,
            VcomhV::N2o900 => 0x08,
            VcomhV::N2o925 => 0x09,
            VcomhV::N2o950 => 0x0A,
            VcomhV::N2o975 => 0x0B,
            VcomhV::N3o000 => 0x0C,
            VcomhV::N3o025 => 0x0D,
            VcomhV::N3o050 => 0x0E,
            VcomhV::N3o075 => 0x0F,
            VcomhV::N3o100 => 0x10,
            VcomhV::N3o125 => 0x11,
            VcomhV::N3o150 => 0x12,
            VcomhV::N3o175 => 0x13,
            VcomhV::N3o200 => 0x14,
            VcomhV::N3o225 => 0x15,
            VcomhV::N3o250 => 0x16,
            VcomhV::N3o275 => 0x17,
            VcomhV::N3o300 => 0x18,
            VcomhV::N3o325 => 0x19,
            VcomhV::N3o350 => 0x1A,
            VcomhV::N3o375 => 0x1B,
            VcomhV::N3o400 => 0x1C,
            VcomhV::N3o425 => 0x1D,
            VcomhV::N3o450 => 0x1E,
            VcomhV::N3o475 => 0x1F,
            VcomhV::N3o500 => 0x20,
            VcomhV::N3o525 => 0x21,
            VcomhV::N3o550 => 0x22,
            VcomhV::N3o575 => 0x23,
            VcomhV::N3o600 => 0x24,
            VcomhV::N3o625 => 0x25,
            VcomhV::N3o650 => 0x26,
            VcomhV::N3o675 => 0x27,
            VcomhV::N3o700 => 0x28,
            VcomhV::N3o725 => 0x29,
            VcomhV::N3o750 => 0x2A,
            VcomhV::N3o775 => 0x2B,
            VcomhV::N3o800 => 0x2C,
            VcomhV::N3o825 => 0x2D,
            VcomhV::N3o850 => 0x2E,
            VcomhV::N3o875 => 0x2F,
            VcomhV::N3o900 => 0x30,
            VcomhV::N3o925 => 0x31,
            VcomhV::N3o950 => 0x32,
            VcomhV::N3o975 => 0x33,
            VcomhV::N4o000 => 0x34,
            VcomhV::N4o025 => 0x35,
            VcomhV::N4o050 => 0x36,
            VcomhV::N4o075 => 0x37,
            VcomhV::N4o100 => 0x38,
            VcomhV::N4o125 => 0x39,
            VcomhV::N4o150 => 0x3A,
            VcomhV::N4o175 => 0x3B,
            VcomhV::N4o200 => 0x3C,
            VcomhV::N4o225 => 0x3D,
            VcomhV::N4o250 => 0x3E,
            VcomhV::N4o275 => 0x3F,
            VcomhV::N4o300 => 0x40,
            VcomhV::N4o325 => 0x41,
            VcomhV::N4o350 => 0x42,
            VcomhV::N4o375 => 0x43,
            VcomhV::N4o400 => 0x44,
            VcomhV::N4o425 => 0x45,
            VcomhV::N4o450 => 0x46,
            VcomhV::N4o475 => 0x47,
            VcomhV::N4o500 => 0x48,
            VcomhV::N4o525 => 0x49,
            VcomhV::N4o550 => 0x4A,
            VcomhV::N4o575 => 0x4B,
            VcomhV::N4o600 => 0x4C,
            VcomhV::N4o625 => 0x4D,
            VcomhV::N4o650 => 0x4E,
            VcomhV::N4o675 => 0x4F,
            VcomhV::N4o700 => 0x50,
            VcomhV::N4o725 => 0x51,
            VcomhV::N4o750 => 0x52,
            VcomhV::N4o775 => 0x53,
            VcomhV::N4o800 => 0x54,
            VcomhV::N4o825 => 0x55,
            VcomhV::N4o850 => 0x56,
            VcomhV::N4o875 => 0x57,
            VcomhV::N4o900 => 0x58,
            VcomhV::N4o925 => 0x59,
            VcomhV::N4o950 => 0x5A,
            VcomhV::N4o975 => 0x5B,
            VcomhV::N5o000 => 0x5C,
            VcomhV::N5o025 => 0x5D,
            VcomhV::N5o050 => 0x5E,
            VcomhV::N5o075 => 0x5F,
            VcomhV::N5o100 => 0x60,
            VcomhV::N5o125 => 0x61,
            VcomhV::N5o150 => 0x62,
            VcomhV::N5o175 => 0x63,
            VcomhV::N5o200 => 0x64,
            VcomhV::N5o225 => 0x65,
            VcomhV::N5o250 => 0x66,
            VcomhV::N5o275 => 0x67,
            VcomhV::N5o300 => 0x68,
            VcomhV::N5o325 => 0x69,
            VcomhV::N5o350 => 0x6A,
            VcomhV::N5o375 => 0x6B,
            VcomhV::N5o400 => 0x6C,
            VcomhV::N5o425 => 0x6D,
            VcomhV::N5o450 => 0x6E,
            VcomhV::N5o475 => 0x6F,
            VcomhV::N5o500 => 0x70,
            VcomhV::N5o525 => 0x71,
            VcomhV::N5o550 => 0x72,
            VcomhV::N5o575 => 0x73,
            VcomhV::N5o600 => 0x74,
            VcomhV::N5o625 => 0x75,
            VcomhV::N5o650 => 0x76,
            VcomhV::N5o675 => 0x77,
            VcomhV::N5o700 => 0x78,
            VcomhV::N5o725 => 0x79,
            VcomhV::N5o750 => 0x7A,
            VcomhV::N5o775 => 0x7B,
            VcomhV::N5o800 => 0x7C,
            VcomhV::N5o825 => 0x7D,
            VcomhV::N5o850 => 0x7E,
            VcomhV::N5o875 => 0x7F,
        }
    }

    /// Decode a wire code; a code outside the documented mapping is a
    /// recoverable error, never coerced to a variant.
    #[verifier::rlimit(100)]
    pub fn from_code(code: u8) -> (r: Result<VcomhV, CodecError>)
        ensures
            r == Self::spec_decode(code),
    {
        match code {
            0x00 => Ok(VcomhV::N2o700),
            0x01 => Ok(VcomhV::N2o725),
            0x02 => Ok(VcomhV::N2o750),
            0x03 => Ok(VcomhV::N2o775),
            0x04 => Ok(VcomhV::N2o800),
            0x05 => Ok(VcomhV::N2o825),
            0x06 => Ok(VcomhV::N2o850),
            0x07 => Ok(VcomhV::N2o875),
            0x08 => Ok(VcomhV::N2o900),
            0x09 => Ok(VcomhV::N2o925),
            0x0A => Ok(VcomhV::N2o950),
            0x0B => Ok(VcomhV::N2o975),
            0x0C => Ok(VcomhV::N3o000),
            0x0D => Ok(VcomhV::N3o025),
            0x0E => Ok(VcomhV::N3o050),
            0x0F => Ok(VcomhV::N3o075),
            0x10 => Ok(VcomhV::N3o100),
            0x11 => Ok(VcomhV::N3o125),
            0x12 => Ok(VcomhV::N3o150),
            0x13 => Ok(VcomhV::N3o175),
            0x14 => Ok(VcomhV::N3o200),
            0x15 => Ok(VcomhV::N3o225),
            0x16 => Ok(VcomhV::N3o250),
            0x17 => Ok(VcomhV::N3o275),
            0x18 => Ok(VcomhV::N3o300),
            0x19 => Ok(VcomhV::N3o325),
            0x1A => Ok(VcomhV::N3o350),
            0x1B => Ok(VcomhV::N3o375),
            0x1C => Ok(VcomhV::N3o400),
            0x1D => Ok(VcomhV::N3o425),
            0x1E => Ok(VcomhV::N3o450),
            0x1F => Ok(VcomhV::N3o475),
            0x20 => Ok(VcomhV::N3o500),
            0x21 => Ok(VcomhV::N3o525),
            0x22 => Ok(VcomhV::N3o550),
            0x23 => Ok(VcomhV::N3o575),
            0x24 => Ok(VcomhV::N3o600),
            0x25 => Ok(VcomhV::N3o625),
            0x26 => Ok(VcomhV::N3o650),
            0x27 => Ok(VcomhV::N3o675),
            0x28 => Ok(VcomhV::N3o700),
            0x29 => Ok(VcomhV::N3o725),
            0x2A => Ok(VcomhV::N3o750),
            0x2B => Ok(VcomhV::N3o775),
            0x2C => Ok(VcomhV::N3o800),
            0x2D => Ok(VcomhV::N3o825),
            0x2E => Ok(VcomhV::N3o850),
            0x2F => Ok(VcomhV::N3o875),
            0x30 => Ok(VcomhV::N3o900),
            0x31 => Ok(VcomhV::N3o925),
            0x32 => Ok(VcomhV::N3o950),
            0x33 => Ok(VcomhV::N3o975),
            0x34 => Ok(VcomhV::N4o000),
            0x35 => Ok(VcomhV::N4o025),
            0x36 => Ok(VcomhV::N4o050),
            0x37 => Ok(VcomhV::N4o075),
            0x38 => Ok(VcomhV::N4o100),
            0x39 => Ok(VcomhV::N4o125),
            0x3A => Ok(VcomhV::N4o150),
            0x3B => Ok(VcomhV::N4o175),
            0x3C => Ok(VcomhV::N4o200),
            0x3D => Ok(VcomhV::N4o225),
            0x3E => Ok(VcomhV::N4o250),
            0x3F => Ok(VcomhV::N4o275),
            0x40 => Ok(VcomhV::N4o300),
            0x41 => Ok(VcomhV::N4o325),
            0x42 => Ok(VcomhV::N4o350),
            0x43 => Ok(VcomhV::N4o375),
            0x44 => Ok(VcomhV::N4o400),
            0x45 => Ok(VcomhV::N4o425),
            0x46 => Ok(VcomhV::N4o450),
            0x47 => Ok(VcomhV::N4o475),
            0x48 => Ok(VcomhV::N4o500),
            0x49 => Ok(VcomhV::N4o525),
            0x4A => Ok(VcomhV::N4o550),
            0x4B => Ok(VcomhV::N4o575),
            0x4C => Ok(VcomhV::N4o600),
            0x4D => Ok(VcomhV::N4o625),
            0x4E => Ok(VcomhV::N4o650),
            0x4F => Ok(VcomhV::N4o675),
            0x50 => Ok(VcomhV::N4o700),
            0x51 => Ok(VcomhV::N4o725),
            0x52 => Ok(VcomhV::N4o750),
            0x53 => Ok(VcomhV::N4o775),
            0x54 => Ok(VcomhV::N4o800),
            0x55 => Ok(VcomhV::N4o825),
            0x56 => Ok(VcomhV::N4o850),
            0x57 => Ok(VcomhV::N4o875),
            0x58 => Ok(VcomhV::N4o900),
            0x59 => Ok(VcomhV::N4o925),
            0x5A => Ok(VcomhV::N4o950),
            0x5B => Ok(VcomhV::N4o975),
            0x5C => Ok(VcomhV::N5o000),
            0x5D => Ok(VcomhV::N5o025),
            0x5E => Ok(VcomhV::N5o050),
            0x5F => Ok(VcomhV::N5o075),
            0x60 => Ok(VcomhV::N5o100),
            0x61 => Ok(VcomhV::N5o125),
            0x62 => Ok(VcomhV::N5o150),
            0x63 => Ok(VcomhV::N5o175),
            0x64 => Ok(VcomhV::N5o200),
            0x65 => Ok(VcomhV::N5o225),
            0x66 => Ok(VcomhV::N5o250),
            0x67 => Ok(VcomhV::N5o275),
            0x68 => Ok(VcomhV::N5o300),
            0x69 => Ok(VcomhV::N5o325),
            0x6A => Ok(VcomhV::N5o350),
            0x6B => Ok(VcomhV::N5o375),
            0x6C => Ok(VcomhV::N5o400),
            0x6D => Ok(VcomhV::N5o425),
            0x6E => Ok(VcomhV::N5o450),
            0x6F => Ok(VcomhV::N5o475),
            0x70 => Ok(VcomhV::N5o500),
            0x71 => Ok(VcomhV::N5o525),
            0x72 => Ok(VcomhV::N5o550),
            0x73 => Ok(VcomhV::N5o575),
            0x74 => Ok(VcomhV::N5o600),
            0x75 => Ok(VcomhV::N5o625),
            0x76 => Ok(VcomhV::N5o650),
            0x77 => Ok(VcomhV::N5o675),
            0x78 => Ok(VcomhV::N5o700),
            0x79 => Ok(VcomhV::N5o725),
            0x7A => Ok(VcomhV::N5o750),
            0x7B => Ok(VcomhV::N5o775),
            0x7C => Ok(VcomhV::N5o800),
            0x7D => Ok(VcomhV::N5o825),
            0x7E => Ok(VcomhV::N5o850),
            0x7F => Ok(VcomhV::N5o875),
            _ => Err(CodecError::UnrecognizedCode { code }),
        }
    }

    /// Decoding a variant's own code yields that variant back.
    #[verifier::rlimit(100)]
    pub proof fn lemma_code_roundtrip(self)
        ensures
            Self::spec_decode(self.spec_code()) == Ok::<VcomhV, CodecError>(self),
    {
    }
}

/// The documented codes of the `VcomlV` field.
#[derive(Copy, Clone, Debug, PartialEq, Eq, Structural)]
pub enum VcomlV {
    NNeg2o500,
    NNeg2o475,
    NNeg2o450,
    NNeg2o425,
    NNeg2o400,
    NNeg2o375,
    NNeg2o350,
    NNeg2o325,
    NNeg2o300,
    NNeg2o275,
    NNeg2o250,
    NNeg2o225,
    NNeg2o200,
    NNeg2o175,
    NNeg2o150,
    NNeg2o125,
    NNeg2o100,
    NNeg2o075,
    NNeg2o050,
    NNeg2o025,
    NNeg2o000,
    NNeg1o975,
    NNeg1o950,
    NNeg1o925,
    NNeg1o900,
    NNeg1o875,
    NNeg1o850,
    NNeg1o825,
    NNeg1o800,
    NNeg1o775,
    NNeg1o750,
    NNeg1o725,
    NNeg1o700,
    NNeg1o675,
    NNeg1o650,
    NNeg1o625,
    NNeg1o600,
    NNeg1o575,
    NNeg1o550,
    NNeg1o525,
    NNeg1o500,
    NNeg1o475,
    NNeg1o450,
    NNeg1o425,
    NNeg1o400,
    NNeg1o375,
    NNeg1o350,
    NNeg1o325,
    NNeg1o300,
    NNeg1o275,
    NNeg1o250,
    NNeg1o225,
    NNeg1o200,
    NNeg1o175,
    NNeg1o150,
    NNeg1o125,
    NNeg1o100,
    NNeg1o075,
    NNeg1o050,
    NNeg1o025,
    NNeg1o000,
    NNeg0o975,
    NNeg0o950,
    NNeg0o925,
    NNeg0o900,
    NNeg0o875,
    NNeg0o850,
    NNeg0o825,
    NNeg0o800,
    NNeg0o775,
    NNeg0o750,
    NNeg0o725,
    NNeg0o700,
    NNeg0o675,
    NNeg0o650,
    NNeg0o625,
    NNeg0o600,
    NNeg0o575,
    NNeg0o550,
    NNeg0o525,
    NNeg0o500,
    NNeg0o475,
    NNeg0o450,
    NNeg0o425,
    NNeg0o400,
    NNeg0o375,
    NNeg0o350,
    NNeg0o325,
    NNeg0o300,
    NNeg0o275,
    NNeg0o250,
    NNeg0o225,
    NNeg0o200,
    NNeg0o175,
    NNeg0o150,
    NNeg0o125,
    NNeg0o100,
    NNeg0o075,
    NNeg0o050,
    NNeg0o025,
    N0,
}

impl VcomlV {
    /// The wire code of this variant.
    pub open spec fn spec_code(self) -> u8 {
        match self {
            VcomlV::NNeg2o500 => 0x00,
            VcomlV::NNeg2o475 => 0x01,
            VcomlV::NNeg2o450 => 0x02,
            VcomlV::NNeg2o425 => 0x03,
            VcomlV::NNeg2o400 => 0x04,
            VcomlV::NNeg2o375 => 0x05,
            VcomlV::NNeg2o350 => 0x06,
            VcomlV::NNeg2o325 => 0x07,
            VcomlV::NNeg2o300 => 0x08,
            VcomlV::NNeg2o275 => 0x09,
            VcomlV::NNeg2o250 => 0x0A,
            VcomlV::NNeg2o225 => 0x0B,
            VcomlV::NNeg2o200 => 0x0C,
            VcomlV::NNeg2o175 => 0x0D,
            VcomlV::NNeg2o150 => 0x0E,
            VcomlV::NNeg2o125 => 0x0F,
            VcomlV::NNeg2o100 => 0x10,
            VcomlV::NNeg2o075 => 0x11,
            VcomlV::NNeg2o050 => 0x12,
            VcomlV::NNeg2o025 => 0x13,
            VcomlV::NNeg2o000 => 0x14,
            VcomlV::NNeg1o975 => 0x15,
            VcomlV::NNeg1o950 => 0x16,
            VcomlV::NNeg1o925 => 0x17,
            VcomlV::NNeg1o900 => 0x18,
            VcomlV::NNeg1o875 => 0x19,
            VcomlV::NNeg1o850 => 0x1A,
            VcomlV::NNeg1o825 => 0x1B,
            VcomlV::NNeg1o800 => 0x1C,
            VcomlV::NNeg1o775 => 0x1D,
            VcomlV::NNeg1o750 => 0x1E,
            VcomlV::NNeg1o725 => 0x1F,
            VcomlV::NNeg1o700 => 0x20,
            VcomlV::NNeg1o675 => 0x21,
            VcomlV::NNeg1o650 => 0x22,
            VcomlV::NNeg1o625 => 0x23,
            VcomlV::NNeg1o600 => 0x24,
            VcomlV::NNeg1o575 => 0x25,
            VcomlV::NNeg1o550 => 0x26,
            VcomlV::NNeg1o525 => 0x27,
            VcomlV::NNeg1o500 => 0x28,
            VcomlV::NNeg1o475 => 0x29,
            VcomlV::NNeg1o450 => 0x2A,
            VcomlV::NNeg1o425 => 0x2B,
            VcomlV::NNeg1o400 => 0x2C,
            VcomlV::NNeg1o375 => 0x2D,
            VcomlV::NNeg1o350 => 0x2E,
            VcomlV::NNeg1o325 => 0x2F,
            VcomlV::NNeg1o300 => 0x30,
            VcomlV::NNeg1o275 => 0x31,
            VcomlV::NNeg1o250 => 0x32,
            VcomlV::NNeg1o225 => 0x33,
            VcomlV::NNeg1o200 => 0x34,
            VcomlV::NNeg1o175 => 0x35,
            VcomlV::NNeg1o150 => 0x36,
            VcomlV::NNeg1o125 => 0x37,
            VcomlV::NNeg1o100 => 0x38,
            VcomlV::NNeg1o075 => 0x39,
            VcomlV::NNeg1o050 => 0x3A,
            VcomlV::NNeg1o025 => 0x3B,
            VcomlV::NNeg1o000 => 0x3C,
            VcomlV::NNeg0o975 => 0x3D,
            VcomlV::NNeg0o950 => 0x3E,
            VcomlV::NNeg0o925 => 0x3F,
            VcomlV::NNeg0o900 => 0x40,
            VcomlV::NNeg0o875 => 0x41,
            VcomlV::NNeg0o850 => 0x42,
            VcomlV::NNeg0o825 => 0x43,
            VcomlV::NNeg0o800 => 0x44,
            VcomlV::NNeg0o775 => 0x45,
            VcomlV::NNeg0o750 => 0x46,
            VcomlV::NNeg0o725 => 0x47,
            VcomlV::NNeg0o700 => 0x48,
            VcomlV::NNeg0o675 => 0x49,
            VcomlV::NNeg0o650 => 0x4A,
            VcomlV::NNeg0o625 => 0x4B,
            VcomlV::NNeg0o600 => 0x4C,
            VcomlV::NNeg0o575 => 0x4D,
            VcomlV::NNeg0o550 => 0x4E,
            VcomlV::NNeg0o525 => 0x4F,
            VcomlV::NNeg0o500 => 0x50,
            VcomlV::NNeg0o475 => 0x51,
            VcomlV::NNeg0o450 => 0x52,
            VcomlV::NNeg0o425 => 0x53,
            VcomlV::NNeg0o400 => 0x54,
            VcomlV::NNeg0o375 => 0x55,
            VcomlV::NNeg0o350 => 0x56,
            VcomlV::NNeg0o325 => 0x57,
            VcomlV::NNeg0o300 => 0x58,
            VcomlV::NNeg0o275 => 0x59,
            VcomlV::NNeg0o250 => 0x5A,
            VcomlV::NNeg0o225 => 0x5B,
            VcomlV::NNeg0o200 => 0x5C,
            VcomlV::NNeg0o175 => 0x5D,
            VcomlV::NNeg0o150 => 0x5E,
            VcomlV::NNeg0o125 => 0x5F,
            VcomlV::NNeg0o100 => 0x60,
            VcomlV::NNeg0o075 => 0x61,
            VcomlV::NNeg0o050 => 0x62,
            VcomlV::NNeg0o025 => 0x63,
            VcomlV::N0 => 0x64,
        }
    }

    /// The variant for a wire code, or a decode error for a code outside
    /// the documented mapping.
    pub open spec fn spec_decode(code: u8) -> Result<VcomlV, CodecError> {
        if code == 0x00 {
            Ok(VcomlV::NNeg2o500)
        } else if code == 0x01 {
            Ok(VcomlV::NNeg2o475)
        } else if code == 0x02 {
            Ok(VcomlV::NNeg2o450)
        } else if code == 0x03 {
            Ok(VcomlV::NNeg2o425)
        } else if code == 0x04 {
            Ok(VcomlV::NNeg2o400)
        } else if code == 0x05 {
            Ok(VcomlV::NNeg2o375)
        } else if code == 0x06 {
            Ok(VcomlV::NNeg2o350)
        } else if code == 0x07 {
            Ok(VcomlV::NNeg2o325)
        } else if code == 0x08 {
            Ok(VcomlV::NNeg2o300)
        } else if code == 0x09 {
            Ok(VcomlV::NNeg2o275)
        } else if code == 0x0A {
            Ok(VcomlV::NNeg2o250)
        } else if code == 0x0B {
            Ok(VcomlV::NNeg2o225)
        } else if code == 0x0C {
            Ok(VcomlV::NNeg2o200)
        } else if code == 0x0D {
            Ok(VcomlV::NNeg2o175)
        } else if code == 0x0E {
            Ok(VcomlV::NNeg2o150)
        } else if code == 0x0F {
            Ok(VcomlV::NNeg2o125)
        } else if code == 0x10 {
            Ok(VcomlV::NNeg2o100)
        } else if code == 0x11 {
            Ok(VcomlV::NNeg2o075)
        } else if code == 0x12 {
            Ok(VcomlV::NNeg2o050)
        } else if code == 0x13 {
            Ok(VcomlV::NNeg2o025)
        } else if code == 0x14 {
            Ok(VcomlV::NNeg2o000)
        } else if code == 0x15 {
            Ok(VcomlV::NNeg1o975)
        } else if code == 0x16 {
            Ok(VcomlV::NNeg1o950)
        } else if code == 0x17 {
            Ok(VcomlV::NNeg1o925)
        } else if code == 0x18 {
            Ok(VcomlV::NNeg1o900)
        } else if code == 0x19 {
            Ok(VcomlV::NNeg1o875)
        } else if code == 0x1A {
            Ok(VcomlV::NNeg1o850)
        } else if code == 0x1B {
            Ok(VcomlV::NNeg1o825)
        } else if code == 0x1C {
            Ok(VcomlV::NNeg1o800)
        } else if code == 0x1D {
            Ok(VcomlV::NNeg1o775)
        } else if code == 0x1E {
            Ok(VcomlV::NNeg1o750)
        } else if code == 0x1F {
            Ok(VcomlV::NNeg1o725)
        } else if code == 0x20 {
            Ok(VcomlV::NNeg1o700)
        } else if code == 0x21 {
            Ok(VcomlV::NNeg1o675)
        } else if code == 0x22 {
            Ok(VcomlV::NNeg1o650)
        } else if code == 0x23 {
            Ok(VcomlV::NNeg1o625)
        } else if code == 0x24 {
            Ok(VcomlV::NNeg1o600)
        } else if code == 0x25 {
            Ok(VcomlV::NNeg1o575)
        } else if code == 0x26 {
            Ok(VcomlV::NNeg1o550)
        } else if code == 0x27 {
            Ok(VcomlV::NNeg1o525)
        } else if code == 0x28 {
            Ok(VcomlV::NNeg1o500)
        } else if code == 0x29 {
            Ok(VcomlV::NNeg1o475)
        } else if code == 0x2A {
            Ok(VcomlV::NNeg1o450)
        } else if code == 0x2B {
            Ok(VcomlV::NNeg1o425)
        } else if code == 0x2C {
            Ok(VcomlV::NNeg1o400)
        } else if code == 0x2D {
            Ok(VcomlV::NNeg1o375)
        } else if code == 0x2E {
            Ok(VcomlV::NNeg1o350)
        } else if code == 0x2F {
            Ok(VcomlV::NNeg1o325)
        } else if code == 0x30 {
            Ok(VcomlV::NNeg1o300)
        } else if code == 0x31 {
            Ok(VcomlV::NNeg1o275)
        } else if code == 0x32 {
            Ok(VcomlV::NNeg1o250)
        } else if code == 0x33 {
            Ok(VcomlV::NNeg1o225)
        } else if code == 0x34 {
            Ok(VcomlV::NNeg1o200)
        } else if code == 0x35 {
            Ok(VcomlV::NNeg1o175)
        } else if code == 0x36 {
            Ok(VcomlV::NNeg1o150)
        } else if code == 0x37 {
            Ok(VcomlV::NNeg1o125)
        } else if code == 0x38 {
            Ok(VcomlV::NNeg1o100)
        } else if code == 0x39 {
            Ok(VcomlV::NNeg1o075)
        } else if code == 0x3A {
            Ok(VcomlV::NNeg1o050)
        } else if code == 0x3B {
            Ok(VcomlV::NNeg1o025)
        } else if code == 0x3C {
            Ok(VcomlV::NNeg1o000)
        } else if code == 0x3D {
            Ok(VcomlV::NNeg0o975)
        } else if code == 0x3E {
            Ok(VcomlV::NNeg0o950)
        } else if code == 0x3F {
            Ok(VcomlV::NNeg0o925)
        } else if code == 0x40 {
            Ok(VcomlV::NNeg0o900)
        } else if code == 0x41 {
            Ok(VcomlV::NNeg0o875)
        } else if code == 0x42 {
            Ok(VcomlV::NNeg0o850)
        } else if code == 0x43 {
            Ok(VcomlV::NNeg0o825)
        } else if code == 0x44 {
            Ok(VcomlV::NNeg0o800)
        } else if code == 0x45 {
            Ok(VcomlV::NNeg0o775)
        } else if code == 0x46 {
            Ok(VcomlV::NNeg0o750)
        } else if code == 0x47 {
            Ok(VcomlV::NNeg0o725)
        } else if code == 0x48 {
            Ok(VcomlV::NNeg0o700)
        } else if code == 0x49 {
            Ok(VcomlV::NNeg0o675)
        } else if code == 0x4A {
            Ok(VcomlV::NNeg0o650)
        } else if code == 0x4B {
            Ok(VcomlV::NNeg0o625)
        } else if code == 0x4C {
            Ok(VcomlV::NNeg0o600)
        } else if code == 0x4D {
            Ok(VcomlV::NNeg0o575)
        } else if code == 0x4E {
            Ok(VcomlV::NNeg0o550)
        } else if code == 0x4F {
            Ok(VcomlV::NNeg0o525)
        } else if code == 0x50 {
            Ok(VcomlV::NNeg0o500)
        } else if code == 0x51 {
            Ok(VcomlV::NNeg0o475)
        } else if code == 0x52 {
            Ok(VcomlV::NNeg0o450)
        } else if code == 0x53 {
            Ok(VcomlV::NNeg0o425)
        } else if code == 0x54 {
            Ok(VcomlV::NNeg0o400)
        } else if code == 0x55 {
            Ok(VcomlV::NNeg0o375)
        } else if code == 0x56 {
            Ok(VcomlV::NNeg0o350)
        } else if code == 0x57 {
            Ok(VcomlV::NNeg0o325)
        } else if code == 0x58 {
            Ok(VcomlV::NNeg0o300)
        } else if code == 0x59 {
            Ok(VcomlV::NNeg0o275)
        } else if code == 0x5A {
            Ok(VcomlV::NNeg0o250)
        } else if code == 0x5B {
            Ok(VcomlV::NNeg0o225)
        } else if code == 0x5C {
            Ok(VcomlV::NNeg0o200)
        } else if code == 0x5D {
            Ok(VcomlV::NNeg0o175)
        } else if code == 0x5E {
            Ok(VcomlV::NNeg0o150)
        } else if code == 0x5F {
            Ok(VcomlV::NNeg0o125)
        } else if code == 0x60 {
            Ok(VcomlV::NNeg0o100)
        } else if code == 0x61 {
            Ok(VcomlV::NNeg0o075)
        } else if code == 0x62 {
            Ok(VcomlV::NNeg0o050)
        } else if code == 0x63 {
            Ok(VcomlV::NNeg0o025)
        } else if code == 0x64 {
            Ok(VcomlV::N0)
        } else {
            Err(CodecError::UnrecognizedCode { code })
        }
    }

    /// The wire code of this variant.
    #[verifier::rlimit(100)]
    pub fn code(self) -> (r: u8)
        ensures
            r == self.spec_code(),
    {
        match self {
            VcomlV::NNeg2o500 => 0x00,
            VcomlV::NNeg2o475 => 0x01,
            VcomlV::NNeg2o450 => 0x02,
            VcomlV::NNeg2o425 => 0x03,
            VcomlV::NNeg2o400 => 0x04,
            VcomlV::NNeg2o375 => 0x05,
            VcomlV::NNeg2o350 => 0x06,
            VcomlV::NNeg2o325 => 0x07,
            VcomlV::NNeg2o300 => 0x08,
            VcomlV::NNeg2o275 => 0x09,
            VcomlV::NNeg2o250 => 0x0A,
            VcomlV::NNeg2o225 => 0x0B,
            VcomlV::NNeg2o200 => 0x0C,
            VcomlV::NNeg2o175 => 0x0D,
            VcomlV::NNeg2o150 => 0x0E,
            VcomlV::NNeg2o125 => 0x0F,
            VcomlV::NNeg2o100 => 0x10,
            VcomlV::NNeg2o075 => 0x11,
            VcomlV::NNeg2o050 => 0x12,
            VcomlV::NNeg2o025 => 0x13,
            VcomlV::NNeg2o000 => 0x14,
            VcomlV::NNeg1o975 => 0x15,
            VcomlV::NNeg1o950 => 0x16,
            VcomlV::NNeg1o925 => 0x17,
            VcomlV::NNeg1o900 => 0x18,
            VcomlV::NNeg1o875 => 0x19,
            VcomlV::NNeg1o850 => 0x1A,
            VcomlV::NNeg1o825 => 0x1B,
            VcomlV::NNeg1o800 => 0x1C,
            VcomlV::NNeg1o775 => 0x1D,
            VcomlV::NNeg1o750 => 0x1E,
            VcomlV::NNeg1o725 => 0x1F,
            VcomlV::NNeg1o700 => 0x20,
            VcomlV::NNeg1o675 => 0x21,
            VcomlV::NNeg1o650 => 0x22,
            VcomlV::NNeg1o625 => 0x23,
            VcomlV::NNeg1o600 => 0x24,
            VcomlV::NNeg1o575 => 0x25,
            VcomlV::NNeg1o550 => 0x26,
            VcomlV::NNeg1o525 => 0x27,
            VcomlV::NNeg1o500 => 0x28,
            VcomlV::NNeg1o475 => 0x29,
            VcomlV::NNeg1o450 => 0x2A,
            VcomlV::NNeg1o425 => 0x2B,
            VcomlV::NNeg1o400 => 0x2C,
            VcomlV::NNeg1o375 => 0x2D,
            VcomlV::NNeg1o350 => 0x2E,
            VcomlV::NNeg1o325 => 0x2F,
            VcomlV::NNeg1o300 => 0x30,
            VcomlV::NNeg1o275 => 0x31,
            VcomlV::NNeg1o250 => 0x32,
            VcomlV::NNeg1o225 => 0x33,
            VcomlV::NNeg1o200 => 0x34,
            VcomlV::NNeg1o175 => 0x35,
            VcomlV::NNeg1o150 => 0x36,
            VcomlV::NNeg1o125 => 0x37,
            VcomlV::NNeg1o100 => 0x38,
            VcomlV::NNeg1o075 => 0x39,
            VcomlV::NNeg1o050 => 0x3A,
            VcomlV::NNeg1o025 => 0x3B,
            VcomlV::NNeg1o000 => 0x3C,
            VcomlV::NNeg0o975 => 0x3D,
            VcomlV::NNeg0o950 => 0x3E,
            VcomlV::NNeg0o925 => 0x3F,
            VcomlV::NNeg0o900 => 0x40,
            VcomlV::NNeg0o875 => 0x41,
            VcomlV::NNeg0o850 => 0x42,
            VcomlV::NNeg0o825 => 0x43,
            VcomlV::NNeg0o800 => 0x44,
            VcomlV::NNeg0o775 => 0x45,
            VcomlV::NNeg0o750 => 0x46,
            VcomlV::NNeg0o725 => 0x47,
            VcomlV::NNeg0o700 => 0x48,
            VcomlV::NNeg0o675 => 0x49,
            VcomlV::NNeg0o650 => 0x4A,
            VcomlV::NNeg0o625 => 0x4B,
            VcomlV::NNeg0o600 => 0x4C,
            VcomlV::NNeg0o575 => 0x4D,
            VcomlV::NNeg0o550 => 0x4E,
            VcomlV::NNeg0o525 => 0x4F,
            VcomlV::NNeg0o500 => 0x50,
            VcomlV::NNeg0o475 => 0x51,
            VcomlV::NNeg0o450 => 0x52,
            VcomlV::NNeg0o425 => 0x53,
            VcomlV::NNeg0o400 => 0x54,
            VcomlV::NNeg0o375 => 0x55,
            VcomlV::NNeg0o350 => 0x56,
            VcomlV::NNeg0o325 => 0x57,
            VcomlV::NNeg0o300 => 0x58,
            VcomlV::NNeg0o275 => 0x59,
            VcomlV::NNeg0o250 => 0x5A,
            VcomlV::NNeg0o225 => 0x5B,
            VcomlV::NNeg0o200 => 0x5C,
            VcomlV::NNeg0o175 => 0x5D,
            VcomlV::NNeg0o150 => 0x5E,
            VcomlV::NNeg0o125 => 0x5F,
            VcomlV::NNeg0o100 => 0x60,
            VcomlV::NNeg0o075 => 0x61,
            VcomlV::NNeg0o050 => 0x62,
            VcomlV::NNeg0o025 => 0x63,
            VcomlV::N0 => 0x64,
        }
    }

    /// Decode a wire code; a code outside the documented mapping is a
    /// recoverable error, never coerced to a variant.
    #[verifier::rlimit(100)]
    pub fn from_code(code: u8) -> (r: Result<VcomlV, CodecError>)
        ensures
            r == Self::spec_decode(code),
    {
        match code {
            0x00 => Ok(VcomlV::NNeg2o500),
            0x01 => Ok(VcomlV::NNeg2o475),
            0x02 => Ok(VcomlV::NNeg2o450),
            0x03 => Ok(VcomlV::NNeg2o425),
            0x04 => Ok(VcomlV::NNeg2o400),
            0x05 => Ok(VcomlV::NNeg2o375),
            0x06 => Ok(VcomlV::NNeg2o350),
            0x07 => Ok(VcomlV::NNeg2o325),
            0x08 => Ok(VcomlV::NNeg2o300),
            0x09 => Ok(VcomlV::NNeg2o275),
            0x0A => Ok(VcomlV::NNeg2o250),
            0x0B => Ok(VcomlV::NNeg2o225),
            0x0C => Ok(VcomlV::NNeg2o200),
            0x0D => Ok(VcomlV::NNeg2o175),
            0x0E => Ok(VcomlV::NNeg2o150),
            0x0F => Ok(VcomlV::NNeg2o125),
            0x10 => Ok(VcomlV::NNeg2o100),
            0x11 => Ok(VcomlV::NNeg2o075),
            0x12 => Ok(VcomlV::NNeg2o050),
            0x13 => Ok(VcomlV::NNeg2o025),
            0x14 => Ok(VcomlV::NNeg2o000),
            0x15 => Ok(VcomlV::NNeg1o975),
            0x16 => Ok(VcomlV::NNeg1o950),
            0x17 => Ok(VcomlV::NNeg1o925),
            0x18 => Ok(VcomlV::NNeg1o900),
            0x19 => Ok(VcomlV::NNeg1o875),
            0x1A => Ok(VcomlV::NNeg1o850),
            0x1B => Ok(VcomlV::NNeg1o825),
            0x1C => Ok(VcomlV::NNeg1o800),
            0x1D => Ok(VcomlV::NNeg1o775),
            0x1E => Ok(VcomlV::NNeg1o750),
            0x1F => Ok(VcomlV::NNeg1o725),
            0x20 => Ok(VcomlV::NNeg1o700),
            0x21 => Ok(VcomlV::NNeg1o675),
            0x22 => Ok(VcomlV::NNeg1o650),
            0x23 => Ok(VcomlV::NNeg1o625),
            0x24 => Ok(VcomlV::NNeg1o600),
            0x25 => Ok(VcomlV::NNeg1o575),
            0x26 => Ok(VcomlV::NNeg1o550),
            0x27 => Ok(VcomlV::NNeg1o525),
            0x28 => Ok(VcomlV::NNeg1o500),
            0x29 => Ok(VcomlV::NNeg1o475),
            0x2A => Ok(VcomlV::NNeg1o450),
            0x2B => Ok(VcomlV::NNeg1o425),
            0x2C => Ok(VcomlV::NNeg1o400),
            0x2D => Ok(VcomlV::NNeg1o375),
            0x2E => Ok(VcomlV::NNeg1o350),
            0x2F => Ok(VcomlV::NNeg1o325),
            0x30 => Ok(VcomlV::NNeg1o300),
            0x31 => Ok(VcomlV::NNeg1o275),
            0x32 => Ok(VcomlV::NNeg1o250),
            0x33 => Ok(VcomlV::NNeg1o225),
            0x34 => Ok(VcomlV::NNeg1o200),
            0x35 => Ok(VcomlV::NNeg1o175),
            0x36 => Ok(VcomlV::NNeg1o150),
            0x37 => Ok(VcomlV::NNeg1o125),
            0x38 => Ok(VcomlV::NNeg1o100),
            0x39 => Ok(VcomlV::NNeg1o075),
            0x3A => Ok(VcomlV::NNeg1o050),
            0x3B => Ok(VcomlV::NNeg1o025),
            0x3C => Ok(VcomlV::NNeg1o000),
            0x3D => Ok(VcomlV::NNeg0o975),
            0x3E => Ok(VcomlV::NNeg0o950),
            0x3F => Ok(VcomlV::NNeg0o925),
            0x40 => Ok(VcomlV::NNeg0o900),
            0x41 => Ok(VcomlV::NNeg0o875),
            0x42 => Ok(VcomlV::NNeg0o850),
            0x43 => Ok(VcomlV::NNeg0o825),
            0x44 => Ok(VcomlV::NNeg0o800),
            0x45 => Ok(VcomlV::NNeg0o775),
            0x46 => Ok(VcomlV::NNeg0o750),
            0x47 => Ok(VcomlV::NNeg0o725),
            0x48 => Ok(VcomlV::NNeg0o700),
            0x49 => Ok(VcomlV::NNeg0o675),
            0x4A => Ok(VcomlV::NNeg0o650),
            0x4B => Ok(VcomlV::NNeg0o625),
            0x4C => Ok(VcomlV::NNeg0o600),
            0x4D => Ok(VcomlV::NNeg0o575),
            0x4E => Ok(VcomlV::NNeg0o550),
            0x4F => Ok(VcomlV::NNeg0o525),
            0x50 => Ok(VcomlV::NNeg0o500),
            0x51 => Ok(VcomlV::NNeg0o475),
            0x52 => Ok(VcomlV::NNeg0o450),
            0x53 => Ok(VcomlV::NNeg0o425),
            0x54 => Ok(VcomlV::NNeg0o400),
            0x55 => Ok(VcomlV::NNeg0o375),
            0x56 => Ok(VcomlV::NNeg0o350),
            0x57 => Ok(VcomlV::NNeg0o325),
            0x58 => Ok(VcomlV::NNeg0o300),
            0x59 => Ok(VcomlV::NNeg0o275),
            0x5A => Ok(VcomlV::NNeg0o250),
            0x5B => Ok(VcomlV::NNeg0o225),
            0x5C => Ok(VcomlV::NNeg0o200),
            0x5D => Ok(VcomlV::NNeg0o175),
            0x5E => Ok(VcomlV::NNeg0o150),
            0x5F => Ok(VcomlV::NNeg0o125),
            0x60 => Ok(VcomlV::NNeg0o100),
            0x61 => Ok(VcomlV::NNeg0o075),
            0x62 => Ok(VcomlV::NNeg0o050),
            0x63 => Ok(VcomlV::NNeg0o025),
            0x64 => Ok(VcomlV::N0),
            _ => Err(CodecError::UnrecognizedCode { code }),
        }
    }

    /// Decoding a variant's own code yields that variant back.
    #[verifier::rlimit(100)]
    pub proof fn lemma_code_roundtrip(self)
        ensures
            Self::spec_decode(self.spec_code()) == Ok::<VcomlV, CodecError>(self),
    {
    }
}

/// The 2-byte parameter block of the `vcom-control1` command.
#[derive(Copy, Clone, Debug)]
pub struct VcomControl1 {
    pub data: [u8; 2],
}

impl VcomControl1 {
    /// The chip's post-reset value of this block.
    pub open spec fn spec_default() -> Seq<u8> {
        seq![0x31u8, 0x3Cu8]
    }

    /// Borrow-free read view over a snapshot of the block.
    pub fn read(&self) -> (r: VcomControl1Read)
        ensures
            r.d.data@ == self.data@,
    {
        VcomControl1Read { d: *self }
    }

    /// Apply a builder transformation to this block and return the result.
    pub fn write<F: FnOnce(VcomControl1Write) -> VcomControl1Write>(self, f: F) -> (r: Self)
        requires
            call_requires(f, ((VcomControl1Write { d: self }),)),
        ensures
            call_ensures(f, ((VcomControl1Write { d: self }),), (VcomControl1Write { d: r })),
    {
        let w = f(VcomControl1Write { d: self });
        proof {
            assert((VcomControl1Write { d: w.d }) == w);
        }
        w.d
    }
}

impl Default for VcomControl1 {
    /// The block with the chip's documented post-reset byte pattern.
    fn default() -> (r: Self)
        ensures
            r.data@ == VcomControl1::spec_default(),
    {
        let r = VcomControl1 { data: [0x31, 0x3C] };
        proof {
            assert(r.data@ =~= VcomControl1::spec_default());
        }
        r
    }
}

/// Read view of [`VcomControl1`].
#[derive(Copy, Clone)]
pub struct VcomControl1Read {
    pub d: VcomControl1,
}

impl VcomControl1Read {
    /// `vcomh_v`: 7 bits at offset 0 of byte 0.
    pub fn vcomh_v(&self) -> (r: Result<VcomhV, CodecError>)
        ensures
            r == VcomhV::spec_decode(field_get(self.d.data@[0], 0, 7)),
    {
        VcomhV::from_code(extract_field(self.d.data[0], 0, 7))
    }

    /// `vcoml_v`: 7 bits at offset 0 of byte 1.
    pub fn vcoml_v(&self) -> (r: Result<VcomlV, CodecError>)
        ensures
            r == VcomlV::spec_decode(field_get(self.d.data@[1], 0, 7)),
    {
        VcomlV::from_code(extract_field(self.d.data[1], 0, 7))
    }
}

/// Write view of [`VcomControl1`].
#[derive(Copy, Clone)]
pub struct VcomControl1Write {
    pub d: VcomControl1,
}

impl VcomControl1Write {
    /// `vcomh_v`: written into 7 bits at offset 0 of byte 0; all other bits are kept.
    pub fn vcomh_v(self, w: VcomhV) -> (r: Self)
        ensures
            r.d.data@ == self.d.data@.update(
                0,
                field_set(self.d.data@[0], 0, 7, w.spec_code()),
            ),
    {
        let c = w.code();
        let mut d = self.d;
        d.data[0] = insert_field(d.data[0], 0, 7, c);
        VcomControl1Write { d }
    }

    /// `vcoml_v`: written into 7 bits at offset 0 of byte 1; all other bits are kept.
    pub fn vcoml_v(self, w: VcomlV) -> (r: Self)
        ensures
            r.d.data@ == self.d.data@.update(
                1,
                field_set(self.d.data@[1], 0, 7, w.spec_code()),
            ),
    {
        let c = w.code();
        let mut d = self.d;
        d.data[1] = insert_field(d.data[1], 0, 7, c);
        VcomControl1Write { d }
    }
}

} // verus!
