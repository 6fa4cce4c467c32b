//! Parameter block of the `backlight-control7` command: the PWM_OUT output
//! frequency.

use vstd::prelude::*;

use crate::error::CodecError;

verus! {

/// The documented codes of the `FpWmOut` field.
#[derive(Copy, Clone, Debug, PartialEq, Eq, Structural)]
pub enum FpWmOut {
    Pwm62745Hz,
    Pwm31373Hz,
    Pwm20915Hz,
    Pwm15686Hz,
    Pwm12549Hz,
    Pwm10458Hz,
    Pwm8964Hz,
    Pwm7843Hz,
    Pwm6972Hz,
    Pwm6275Hz,
    Pwm5704Hz,
    Pwm5229Hz,
    Pwm4827Hz,
    Pwm4482Hz,
    Pwm4183Hz,
    Pwm3922Hz,
    Pwm3691Hz,
    Pwm3486Hz,
    Pwm3302Hz,
    Pwm3137Hz,
    Pwm2988Hz,
    Pwm2852Hz,
    Pwm2728Hz,
    Pwm2614Hz,
    Pwm2510Hz,
    Pwm2413Hz,
    Pwm2324Hz,
    Pwm2241Hz,
    Pwm2164Hz,
    Pwm2092Hz,
    Pwm2024Hz,
    Pwm1961Hz,
    Pwm1901Hz,
    Pwm1845Hz,
    Pwm1793Hz,
    Pwm1743Hz,
    Pwm1696Hz,
    Pwm1651Hz,
    Pwm1609Hz,
    Pwm1569Hz,
    Pwm1530Hz,
    Pwm1494Hz,
    Pwm1459Hz,
    Pwm1426Hz,
    Pwm1394Hz,
    Pwm1364Hz,
    Pwm1335Hz,
    Pwm1307Hz,
    Pwm1281Hz,
    Pwm1255Hz,
    Pwm1230Hz,
    Pwm1207Hz,
    Pwm1184Hz,
    Pwm1162Hz,
    Pwm1141Hz,
    Pwm1120Hz,
    Pwm1101Hz,
    Pwm1082Hz,
    Pwm1063Hz,
    Pwm1046Hz,
    Pwm1029Hz,
    Pwm1012Hz,
    Pwm996Hz,
    Pwm980Hz,
    Pwm965Hz,
    Pwm951Hz,
    Pwm936Hz,
    Pwm923Hz,
    Pwm909Hz,
    Pwm896Hz,
    Pwm884Hz,
    Pwm871Hz,
    Pwm860Hz,
    Pwm848Hz,
    Pwm837Hz,
    Pwm826Hz,
    Pwm815Hz,
    Pwm804Hz,
    Pwm794Hz,
    Pwm784Hz,
    Pwm775Hz,
    Pwm765Hz,
    Pwm756Hz,
    Pwm747Hz,
    Pwm738Hz,
    Pwm730Hz,
    Pwm721Hz,
    Pwm713Hz,
    Pwm705Hz,
    Pwm697Hz,
    Pwm690Hz,
    Pwm682Hz,
    Pwm675Hz,
    Pwm668Hz,
    Pwm660Hz,
    Pwm654Hz,
    Pwm647Hz,
    Pwm640Hz,
    Pwm634Hz,
    Pwm627Hz,
    Pwm621Hz,
    Pwm615Hz,
    Pwm609Hz,
    Pwm603Hz,
    Pwm598Hz,
    Pwm592Hz,
    Pwm586Hz,
    Pwm581Hz,
    Pwm576Hz,
    Pwm570Hz,
    Pwm565Hz,
    Pwm560Hz,
    Pwm555Hz,
    Pwm550Hz,
    Pwm546Hz,
    Pwm541Hz,
    Pwm536Hz,
    Pwm532Hz,
    Pwm527Hz,
    Pwm523Hz,
    Pwm519Hz,
    Pwm514Hz,
    Pwm510Hz,
    Pwm506Hz,
    Pwm502Hz,
    Pwm498Hz,
    Pwm494Hz,
    Pwm490Hz,
    Pwm486Hz,
    Pwm483Hz,
    Pwm479Hz,
    Pwm475Hz,
    Pwm472Hz,
    Pwm468Hz,
    Pwm465Hz,
    Pwm461Hz,
    Pwm458Hz,
    Pwm455Hz,
    Pwm451Hz,
    Pwm448Hz,
    Pwm445Hz,
    Pwm442Hz,
    Pwm439Hz,
    Pwm436Hz,
    Pwm433Hz,
    Pwm430Hz,
    Pwm427Hz,
    Pwm424Hz,
    Pwm421Hz,
    Pwm418Hz,
    Pwm416Hz,
    Pwm413Hz,
    Pwm410Hz,
    Pwm407Hz,
    Pwm405Hz,
    Pwm402Hz,
    Pwm400Hz,
    Pwm397Hz,
    Pwm395Hz,
    Pwm392Hz,
    Pwm390Hz,
    Pwm387Hz,
    Pwm385Hz,
    Pwm383Hz,
    Pwm380Hz,
    Pwm378Hz,
    Pwm376Hz,
    Pwm373Hz,
    Pwm371Hz,
    Pwm369Hz,
    Pwm367Hz,
    Pwm365Hz,
    Pwm363Hz,
    Pwm361Hz,
    Pwm359Hz,
    Pwm357Hz,
    Pwm354Hz,
    Pwm353Hz,
    Pwm351Hz,
    Pwm349Hz,
    Pwm347Hz,
    Pwm345Hz,
    Pwm343Hz,
    Pwm341Hz,
    Pwm339Hz,
    Pwm337Hz,
    Pwm336Hz,
    Pwm334Hz,
    Pwm332Hz,
    Pwm330Hz,
    Pwm329Hz,
    Pwm327Hz,
    Pwm325Hz,
    Pwm323Hz,
    Pwm322Hz,
    Pwm320Hz,
    Pwm319Hz,
    Pwm317Hz,
    Pwm315Hz,
    Pwm314Hz,
    Pwm312Hz,
    Pwm311Hz,
    Pwm309Hz,
    Pwm308Hz,
    Pwm306Hz,
    Pwm305Hz,
    Pwm303Hz,
    Pwm302Hz,
    Pwm300Hz,
    Pwm299Hz,
    Pwm297Hz,
    Pwm296Hz,
    Pwm295Hz,
    Pwm293Hz,
    Pwm292Hz,
    Pwm290Hz,
    Pwm289Hz,
    Pwm288Hz,
    Pwm287Hz,
    Pwm285Hz,
    Pwm284Hz,
    Pwm283Hz,
    Pwm281Hz,
    Pwm280Hz,
    Pwm279Hz,
    Pwm278Hz,
    Pwm276Hz,
    Pwm275Hz,
    Pwm274Hz,
    Pwm273Hz,
    Pwm272Hz,
    Pwm270Hz,
    Pwm269Hz,
    Pwm268Hz,
    Pwm267Hz,
    Pwm266Hz,
    Pwm265Hz,
    Pwm264Hz,
    Pwm263Hz,
    Pwm261Hz,
    Pwm260Hz,
    Pwm259Hz,
    Pwm258Hz,
    Pwm257Hz,
    Pwm256Hz,
    Pwm255Hz,
    Pwm254Hz,
    Pwm253Hz,
    Pwm252Hz,
    Pwm251Hz,
    Pwm250Hz,
    Pwm249Hz,
    Pwm248Hz,
    Pwm247Hz,
    Pwm246Hz,
    Pwm245Hz,
}

impl FpWmOut {
    /// The wire code of this variant.
    pub open spec fn spec_code(self) -> u8 {
        match self {
            FpWmOut::Pwm62745Hz => 0x00,
            FpWmOut::Pwm31373Hz => 0x01,
            FpWmOut::Pwm20915Hz => 0x02,
            FpWmOut::Pwm15686Hz => 0x03,
            FpWmOut::Pwm12549Hz => 0x04,
            FpWmOut::Pwm10458Hz => 0x05,
            FpWmOut::Pwm8964Hz => 0x06,
            FpWmOut::Pwm7843Hz => 0x07,
            FpWmOut::Pwm6972Hz => 0x08,
            FpWmOut::Pwm6275Hz => 0x09,
            FpWmOut::Pwm5704Hz => 0x0A,
            FpWmOut::Pwm5229Hz => 0x0B,
            FpWmOut::Pwm4827Hz => 0x0C,
            FpWmOut::Pwm4482Hz => 0x0D,
            FpWmOut::Pwm4183Hz => 0x0E,
            FpWmOut::Pwm3922Hz => 0x0F,
            FpWmOut::Pwm3691Hz => 0x10,
            FpWmOut::Pwm3486Hz => 0x11,
            FpWmOut::Pwm3302Hz => 0x12,
            FpWmOut::Pwm3137Hz => 0x13,
            FpWmOut::Pwm2988Hz => 0x14,
            FpWmOut::Pwm2852Hz => 0x15,
            FpWmOut::Pwm2728Hz => 0x16,
            FpWmOut::Pwm2614Hz => 0x17,
            FpWmOut::Pwm2510Hz => 0x18,
            FpWmOut::Pwm2413Hz => 0x19,
            FpWmOut::Pwm2324Hz => 0x1A,
            FpWmOut::Pwm2241Hz => 0x1B,
            FpWmOut::Pwm2164Hz => 0x1C,
            FpWmOut::Pwm2092Hz => 0x1D,
            FpWmOut::Pwm2024Hz => 0x1E,
            FpWmOut::Pwm1961Hz => 0x1F,
            FpWmOut::Pwm1901Hz => 0x20,
            FpWmOut::Pwm1845Hz => 0x21,
            FpWmOut::Pwm1793Hz => 0x22,
            FpWmOut::Pwm1743Hz => 0x23,
            FpWmOut::Pwm1696Hz => 0x24,
            FpWmOut::Pwm1651Hz => 0x25,
            FpWmOut::Pwm1609Hz => 0x26,
            FpWmOut::Pwm1569Hz => 0x27,
            FpWmOut::Pwm1530Hz => 0x28,
            FpWmOut::Pwm1494Hz => 0x29,
            FpWmOut::Pwm1459Hz => 0x2A,
            FpWmOut::Pwm1426Hz => 0x2B,
            FpWmOut::Pwm1394Hz => 0x2C,
            FpWmOut::Pwm1364Hz => 0x2D,
            FpWmOut::Pwm1335Hz => 0x2E,
            FpWmOut::Pwm1307Hz => 0x2F,
            FpWmOut::Pwm1281Hz => 0x30,
            FpWmOut::Pwm1255Hz => 0x31,
            FpWmOut::Pwm1230Hz => 0x32,
            FpWmOut::Pwm1207Hz => 0x33,
            FpWmOut::Pwm1184Hz => 0x34,
            FpWmOut::Pwm1162Hz => 0x35,
            FpWmOut::Pwm1141Hz => 0x36,
            FpWmOut::Pwm1120Hz => 0x37,
            FpWmOut::Pwm1101Hz => 0x38,
            FpWmOut::Pwm1082Hz => 0x39,
            FpWmOut::Pwm1063Hz => 0x3A,
            FpWmOut::Pwm1046Hz => 0x3B,
            FpWmOut::Pwm1029Hz => 0x3C,
            FpWmOut::Pwm1012Hz => 0x3D,
            FpWmOut::Pwm996Hz => 0x3E,
            FpWmOut::Pwm980Hz => 0x3F,
            FpWmOut::Pwm965Hz => 0x40,
            FpWmOut::Pwm951Hz => 0x41,
            FpWmOut::Pwm936Hz => 0x42,
            FpWmOut::Pwm923Hz => 0x43,
            FpWmOut::Pwm909Hz => 0x44,
            FpWmOut::Pwm896Hz => 0x45,
            FpWmOut::Pwm884Hz => 0x46,
            FpWmOut::Pwm871Hz => 0x47,
            FpWmOut::Pwm860Hz => 0x48,
            FpWmOut::Pwm848Hz => 0x49,
            FpWmOut::Pwm837Hz => 0x4A,
            FpWmOut::Pwm826Hz => 0x4B,
            FpWmOut::Pwm815Hz => 0x4C,
            FpWmOut::Pwm804Hz => 0x4D,
            FpWmOut::Pwm794Hz => 0x4E,
            FpWmOut::Pwm784Hz => 0x4F,
            FpWmOut::Pwm775Hz => 0x50,
            FpWmOut::Pwm765Hz => 0x51,
            FpWmOut::Pwm756Hz => 0x52,
            FpWmOut::Pwm747Hz => 0x53,
            FpWmOut::Pwm738Hz => 0x54,
            FpWmOut::Pwm730Hz => 0x55,
            FpWmOut::Pwm721Hz => 0x56,
            FpWmOut::Pwm713Hz => 0x57,
            FpWmOut::Pwm705Hz => 0x58,
            FpWmOut::Pwm697Hz => 0x59,
            FpWmOut::Pwm690Hz => 0x5A,
            FpWmOut::Pwm682Hz => 0x5B,
            FpWmOut::Pwm675Hz => 0x5C,
            FpWmOut::Pwm668Hz => 0x5D,
            FpWmOut::Pwm660Hz => 0x5E,
            FpWmOut::Pwm654Hz => 0x5F,
            FpWmOut::Pwm647Hz => 0x60,
            FpWmOut::Pwm640Hz => 0x61,
            FpWmOut::Pwm634Hz => 0x62,
            FpWmOut::Pwm627Hz => 0x63,
            FpWmOut::Pwm621Hz => 0x64,
            FpWmOut::Pwm615Hz => 0x65,
            FpWmOut::Pwm609Hz => 0x66,
            FpWmOut::Pwm603Hz => 0x67,
            FpWmOut::Pwm598Hz => 0x68,
            FpWmOut::Pwm592Hz => 0x69,
            FpWmOut::Pwm586Hz => 0x6A,
            FpWmOut::Pwm581Hz => 0x6B,
            FpWmOut::Pwm576Hz => 0x6C,
            FpWmOut::Pwm570Hz => 0x6D,
            FpWmOut::Pwm565Hz => 0x6E,
            FpWmOut::Pwm560Hz => 0x6F,
            FpWmOut::Pwm555Hz => 0x70,
            FpWmOut::Pwm550Hz => 0x71,
            FpWmOut::Pwm546Hz => 0x72,
            FpWmOut::Pwm541Hz => 0x73,
            FpWmOut::Pwm536Hz => 0x74,
            FpWmOut::Pwm532Hz => 0x75,
            FpWmOut::Pwm527Hz => 0x76,
            FpWmOut::Pwm523Hz => 0x77,
            FpWmOut::Pwm519Hz => 0x78,
            FpWmOut::Pwm514Hz => 0x79,
            FpWmOut::Pwm510Hz => 0x7A,
            FpWmOut::Pwm506Hz => 0x7B,
            FpWmOut::Pwm502Hz => 0x7C,
            FpWmOut::Pwm498Hz => 0x7D,
            FpWmOut::Pwm494Hz => 0x7E,
            FpWmOut::Pwm490Hz => 0x7F,
            FpWmOut::Pwm486Hz => 0x80,
            FpWmOut::Pwm483Hz => 0x81,
            FpWmOut::Pwm479Hz => 0x82,
            FpWmOut::Pwm475Hz => 0x83,
            FpWmOut::Pwm472Hz => 0x84,
            FpWmOut::Pwm468Hz => 0x85,
            FpWmOut::Pwm465Hz => 0x86,
            FpWmOut::Pwm461Hz => 0x87,
            FpWmOut::Pwm458Hz => 0x88,
            FpWmOut::Pwm455Hz => 0x89,
            FpWmOut::Pwm451Hz => 0x8A,
            FpWmOut::Pwm448Hz => 0x8B,
            FpWmOut::Pwm445Hz => 0x8C,
            FpWmOut::Pwm442Hz => 0x8D,
            FpWmOut::Pwm439Hz => 0x8E,
            FpWmOut::Pwm436Hz => 0x8F,
            FpWmOut::Pwm433Hz => 0x90,
            FpWmOut::Pwm430Hz => 0x91,
            FpWmOut::Pwm427Hz => 0x92,
            FpWmOut::Pwm424Hz => 0x93,
            FpWmOut::Pwm421Hz => 0x94,
            FpWmOut::Pwm418Hz => 0x95,
            FpWmOut::Pwm416Hz => 0x96,
            FpWmOut::Pwm413Hz => 0x97,
            FpWmOut::Pwm410Hz => 0x98,
            FpWmOut::Pwm407Hz => 0x99,
            FpWmOut::Pwm405Hz => 0x9A,
            FpWmOut::Pwm402Hz => 0x9B,
            FpWmOut::Pwm400Hz => 0x9C,
            FpWmOut::Pwm397Hz => 0x9D,
            FpWmOut::Pwm395Hz => 0x9E,
            FpWmOut::Pwm392Hz => 0x9F,
            FpWmOut::Pwm390Hz => 0xA0,
            FpWmOut::Pwm387Hz => 0xA1,
            FpWmOut::Pwm385Hz => 0xA2,
            FpWmOut::Pwm383Hz => 0xA3,
            FpWmOut::Pwm380Hz => 0xA4,
            FpWmOut::Pwm378Hz => 0xA5,
            FpWmOut::Pwm376Hz => 0xA6,
            FpWmOut::Pwm373Hz => 0xA7,
            FpWmOut::Pwm371Hz => 0xA8,
            FpWmOut::Pwm369Hz => 0xA9,
            FpWmOut::Pwm367Hz => 0xAA,
            FpWmOut::Pwm365Hz => 0xAB,
            FpWmOut::Pwm363Hz => 0xAC,
            FpWmOut::Pwm361Hz => 0xAD,
            FpWmOut::Pwm359Hz => 0xAE,
            FpWmOut::Pwm357Hz => 0xAF,
            FpWmOut::Pwm354Hz => 0xB0,
            FpWmOut::Pwm353Hz => 0xB1,
            FpWmOut::Pwm351Hz => 0xB2,
            FpWmOut::Pwm349Hz => 0xB3,
            FpWmOut::Pwm347Hz => 0xB4,
            FpWmOut::Pwm345Hz => 0xB5,
            FpWmOut::Pwm343Hz => 0xB6,
            FpWmOut::Pwm341Hz => 0xB7,
            FpWmOut::Pwm339Hz => 0xB8,
            FpWmOut::Pwm337Hz => 0xB9,
            FpWmOut::Pwm336Hz => 0xBA,
            FpWmOut::Pwm334Hz => 0xBB,
            FpWmOut::Pwm332Hz => 0xBC,
            FpWmOut::Pwm330Hz => 0xBD,
            FpWmOut::Pwm329Hz => 0xBE,
            FpWmOut::Pwm327Hz => 0xBF,
            FpWmOut::Pwm325Hz => 0xC0,
            FpWmOut::Pwm323Hz => 0xC1,
            FpWmOut::Pwm322Hz => 0xC2,
            FpWmOut::Pwm320Hz => 0xC3,
            FpWmOut::Pwm319Hz => 0xC4,
            FpWmOut::Pwm317Hz => 0xC5,
            FpWmOut::Pwm315Hz => 0xC6,
            FpWmOut::Pwm314Hz => 0xC7,
            FpWmOut::Pwm312Hz => 0xC8,
            FpWmOut::Pwm311Hz => 0xC9,
            FpWmOut::Pwm309Hz => 0xCA,
            FpWmOut::Pwm308Hz => 0xCB,
            FpWmOut::Pwm306Hz => 0xCC,
            FpWmOut::Pwm305Hz => 0xCD,
            FpWmOut::Pwm303Hz => 0xCE,
            FpWmOut::Pwm302Hz => 0xCF,
            FpWmOut::Pwm300Hz => 0xD0,
            FpWmOut::Pwm299Hz => 0xD1,
            FpWmOut::Pwm297Hz => 0xD2,
            FpWmOut::Pwm296Hz => 0xD3,
            FpWmOut::Pwm295Hz => 0xD4,
            FpWmOut::Pwm293Hz => 0xD5,
            FpWmOut::Pwm292Hz => 0xD6,
            FpWmOut::Pwm290Hz => 0xD7,
            FpWmOut::Pwm289Hz => 0xD8,
            FpWmOut::Pwm288Hz => 0xD9,
            FpWmOut::Pwm287Hz => 0xDA,
            FpWmOut::Pwm285Hz => 0xDB,
            FpWmOut::Pwm284Hz => 0xDC,
            FpWmOut::Pwm283Hz => 0xDD,
            FpWmOut::Pwm281Hz => 0xDE,
            FpWmOut::Pwm280Hz => 0xDF,
            FpWmOut::Pwm279Hz => 0xE0,
            FpWmOut::Pwm278Hz => 0xE1,
            FpWmOut::Pwm276Hz => 0xE2,
            FpWmOut::Pwm275Hz => 0xE3,
            FpWmOut::Pwm274Hz => 0xE4,
            FpWmOut::Pwm273Hz => 0xE5,
            FpWmOut::Pwm272Hz => 0xE6,
            FpWmOut::Pwm270Hz => 0xE7,
            FpWmOut::Pwm269Hz => 0xE8,
            FpWmOut::Pwm268Hz => 0xE9,
            FpWmOut::Pwm267Hz => 0xEA,
            FpWmOut::Pwm266Hz => 0xEB,
            FpWmOut::Pwm265Hz => 0xEC,
            FpWmOut::Pwm264Hz => 0xED,
            FpWmOut::Pwm263Hz => 0xEE,
            FpWmOut::Pwm261Hz => 0xEF,
            FpWmOut::Pwm260Hz => 0xF0,
            FpWmOut::Pwm259Hz => 0xF1,
            FpWmOut::Pwm258Hz => 0xF2,
            FpWmOut::Pwm257Hz => 0xF3,
            FpWmOut::Pwm256Hz => 0xF4,
            FpWmOut::Pwm255Hz => 0xF5,
            FpWmOut::Pwm254Hz => 0xF6,
            FpWmOut::Pwm253Hz => 0xF7,
            FpWmOut::Pwm252Hz => 0xF8,
            FpWmOut::Pwm251Hz => 0xF9,
            FpWmOut::Pwm250Hz => 0xFA,
            FpWmOut::Pwm249Hz => 0xFB,
            FpWmOut::Pwm248Hz => 0xFC,
            FpWmOut::Pwm247Hz => 0xFD,
            FpWmOut::Pwm246Hz => 0xFE,
            FpWmOut::Pwm245Hz => 0xFF,
        }
    }

    /// The variant for a wire code, or a decode error for a code outside
    /// the documented mapping.
    pub open spec fn spec_decode(code: u8) -> Result<FpWmOut, CodecError> {
        if code == 0x00 {
            Ok(FpWmOut::Pwm62745Hz)
        } else if code == 0x01 {
            Ok(FpWmOut::Pwm31373Hz)
        } else if code == 0x02 {
            Ok(FpWmOut::Pwm20915Hz)
        } else if code == 0x03 {
            Ok(FpWmOut::Pwm15686Hz)
        } else if code == 0x04 {
            Ok(FpWmOut::Pwm12549Hz)
        } else if code == 0x05 {
            Ok(FpWmOut::Pwm10458Hz)
        } else if code == 0x06 {
            Ok(FpWmOut::Pwm8964Hz)
        } else if code == 0x07 {
            Ok(FpWmOut::Pwm7843Hz)
        } else if code == 0x08 {
            Ok(FpWmOut::Pwm6972Hz)
        } else if code == 0x09 {
            Ok(FpWmOut::Pwm6275Hz)
        } else if code == 0x0A {
            Ok(FpWmOut::Pwm5704Hz)
        } else if code == 0x0B {
            Ok(FpWmOut::Pwm5229Hz)
        } else if code == 0x0C {
            Ok(FpWmOut::Pwm4827Hz)
        } else if code == 0x0D {
            Ok(FpWmOut::Pwm4482Hz)
        } else if code == 0x0E {
            Ok(FpWmOut::Pwm4183Hz)
        } else if code == 0x0F {
            Ok(FpWmOut::Pwm3922Hz)
        } else if code == 0x10 {
            Ok(FpWmOut::Pwm3691Hz)
        } else if code == 0x11 {
            Ok(FpWmOut::Pwm3486Hz)
        } else if code == 0x12 {
            Ok(FpWmOut::Pwm3302Hz)
        } else if code == 0x13 {
            Ok(FpWmOut::Pwm3137Hz)
        } else if code == 0x14 {
            Ok(FpWmOut::Pwm2988Hz)
        } else if code == 0x15 {
            Ok(FpWmOut::Pwm2852Hz)
        } else if code == 0x16 {
            Ok(FpWmOut::Pwm2728Hz)
        } else if code == 0x17 {
            Ok(FpWmOut::Pwm2614Hz)
        } else if code == 0x18 {
            Ok(FpWmOut::Pwm2510Hz)
        } else if code == 0x19 {
            Ok(FpWmOut::Pwm2413Hz)
        } else if code == 0x1A {
            Ok(FpWmOut::Pwm2324Hz)
        } else if code == 0x1B {
            Ok(FpWmOut::Pwm2241Hz)
        } else if code == 0x1C {
            Ok(FpWmOut::Pwm2164Hz)
        } else if code == 0x1D {
            Ok(FpWmOut::Pwm2092Hz)
        } else if code == 0x1E {
            Ok(FpWmOut::Pwm2024Hz)
        } else if code == 0x1F {
            Ok(FpWmOut::Pwm1961Hz)
        } else if code == 0x20 {
            Ok(FpWmOut::Pwm1901Hz)
        } else if code == 0x21 {
            Ok(FpWmOut::Pwm1845Hz)
        } else if code == 0x22 {
            Ok(FpWmOut::Pwm1793Hz)
        } else if code == 0x23 {
            Ok(FpWmOut::Pwm1743Hz)
        } else if code == 0x24 {
            Ok(FpWmOut::Pwm1696Hz)
        } else if code == 0x25 {
            Ok(FpWmOut::Pwm1651Hz)
        } else if code == 0x26 {
            Ok(FpWmOut::Pwm1609Hz)
        } else if code == 0x27 {
            Ok(FpWmOut::Pwm1569Hz)
        } else if code == 0x28 {
            Ok(FpWmOut::Pwm1530Hz)
        } else if code == 0x29 {
            Ok(FpWmOut::Pwm1494Hz)
        } else if code == 0x2A {
            Ok(FpWmOut::Pwm1459Hz)
        } else if code == 0x2B {
            Ok(FpWmOut::Pwm1426Hz)
        } else if code == 0x2C {
            Ok(FpWmOut::Pwm1394Hz)
        } else if code == 0x2D {
            Ok(FpWmOut::Pwm1364Hz)
        } else if code == 0x2E {
            Ok(FpWmOut::Pwm1335Hz)
        } else if code == 0x2F {
            Ok(FpWmOut::Pwm1307Hz)
        } else if code == 0x30 {
            Ok(FpWmOut::Pwm1281Hz)
        } else if code == 0x31 {
            Ok(FpWmOut::Pwm1255Hz)
        } else if code == 0x32 {
            Ok(FpWmOut::Pwm1230Hz)
        } else if code == 0x33 {
            Ok(FpWmOut::Pwm1207Hz)
        } else if code == 0x34 {
            Ok(FpWmOut::Pwm1184Hz)
        } else if code == 0x35 {
            Ok(FpWmOut::Pwm1162Hz)
        } else if code == 0x36 {
            Ok(FpWmOut::Pwm1141Hz)
        } else if code == 0x37 {
            Ok(FpWmOut::Pwm1120Hz)
        } else if code == 0x38 {
            Ok(FpWmOut::Pwm1101Hz)
        } else if code == 0x39 {
            Ok(FpWmOut::Pwm1082Hz)
        } else if code == 0x3A {
            Ok(FpWmOut::Pwm1063Hz)
        } else if code == 0x3B {
            Ok(FpWmOut::Pwm1046Hz)
        } else if code == 0x3C {
            Ok(FpWmOut::Pwm1029Hz)
        } else if code == 0x3D {
            Ok(FpWmOut::Pwm1012Hz)
        } else if code == 0x3E {
            Ok(FpWmOut::Pwm996Hz)
        } else if code == 0x3F {
            Ok(FpWmOut::Pwm980Hz)
        } else if code == 0x40 {
            Ok(FpWmOut::Pwm965Hz)
        } else if code == 0x41 {
            Ok(FpWmOut::Pwm951Hz)
        } else if code == 0x42 {
            Ok(FpWmOut::Pwm936Hz)
        } else if code == 0x43 {
            Ok(FpWmOut::Pwm923Hz)
        } else if code == 0x44 {
            Ok(FpWmOut::Pwm909Hz)
        } else if code == 0x45 {
            Ok(FpWmOut::Pwm896Hz)
        } else if code == 0x46 {
            Ok(FpWmOut::Pwm884Hz)
        } else if code == 0x47 {
            Ok(FpWmOut::Pwm871Hz)
        } else if code == 0x48 {
            Ok(FpWmOut::Pwm860Hz)
        } else if code == 0x49 {
            Ok(FpWmOut::Pwm848Hz)
        } else if code == 0x4A {
            Ok(FpWmOut::Pwm837Hz)
        } else if code == 0x4B {
            Ok(FpWmOut::Pwm826Hz)
        } else if code == 0x4C {
            Ok(FpWmOut::Pwm815Hz)
        } else if code == 0x4D {
            Ok(FpWmOut::Pwm804Hz)
        } else if code == 0x4E {
            Ok(FpWmOut::Pwm794Hz)
        } else if code == 0x4F {
            Ok(FpWmOut::Pwm784Hz)
        } else if code == 0x50 {
            Ok(FpWmOut::Pwm775Hz)
        } else if code == 0x51 {
            Ok(FpWmOut::Pwm765Hz)
        } else if code == 0x52 {
            Ok(FpWmOut::Pwm756Hz)
        } else if code == 0x53 {
            Ok(FpWmOut::Pwm747Hz)
        } else if code == 0x54 {
            Ok(FpWmOut::Pwm738Hz)
        } else if code == 0x55 {
            Ok(FpWmOut::Pwm730Hz)
        } else if code == 0x56 {
            Ok(FpWmOut::Pwm721Hz)
        } else if code == 0x57 {
            Ok(FpWmOut::Pwm713Hz)
        } else if code == 0x58 {
            Ok(FpWmOut::Pwm705Hz)
        } else if code == 0x59 {
            Ok(FpWmOut::Pwm697Hz)
        } else if code == 0x5A {
            Ok(FpWmOut::Pwm690Hz)
        } else if code == 0x5B {
            Ok(FpWmOut::Pwm682Hz)
        } else if code == 0x5C {
            Ok(FpWmOut::Pwm675Hz)
        } else if code == 0x5D {
            Ok(FpWmOut::Pwm668Hz)
        } else if code == 0x5E {
            Ok(FpWmOut::Pwm660Hz)
        } else if code == 0x5F {
            Ok(FpWmOut::Pwm654Hz)
        } else if code == 0x60 {
            Ok(FpWmOut::Pwm647Hz)
        } else if code == 0x61 {
            Ok(FpWmOut::Pwm640Hz)
        } else if code == 0x62 {
            Ok(FpWmOut::Pwm634Hz)
        } else if code == 0x63 {
            Ok(FpWmOut::Pwm627Hz)
        } else if code == 0x64 {
            Ok(FpWmOut::Pwm621Hz)
        } else if code == 0x65 {
            Ok(FpWmOut::Pwm615Hz)
        } else if code == 0x66 {
            Ok(FpWmOut::Pwm609Hz)
        } else if code == 0x67 {
            Ok(FpWmOut::Pwm603Hz)
        } else if code == 0x68 {
            Ok(FpWmOut::Pwm598Hz)
        } else if code == 0x69 {
            Ok(FpWmOut::Pwm592Hz)
        } else if code == 0x6A {
            Ok(FpWmOut::Pwm586Hz)
        } else if code == 0x6B {
            Ok(FpWmOut::Pwm581Hz)
        } else if code == 0x6C {
            Ok(FpWmOut::Pwm576Hz)
        } else if code == 0x6D {
            Ok(FpWmOut::Pwm570Hz)
        } else if code == 0x6E {
            Ok(FpWmOut::Pwm565Hz)
        } else if code == 0x6F {
            Ok(FpWmOut::Pwm560Hz)
        } else if code == 0x70 {
            Ok(FpWmOut::Pwm555Hz)
        } else if code == 0x71 {
            Ok(FpWmOut::Pwm550Hz)
        } else if code == 0x72 {
            Ok(FpWmOut::Pwm546Hz)
        } else if code == 0x73 {
            Ok(FpWmOut::Pwm541Hz)
        } else if code == 0x74 {
            Ok(FpWmOut::Pwm536Hz)
        } else if code == 0x75 {
            Ok(FpWmOut::Pwm532Hz)
        } else if code == 0x76 {
            Ok(FpWmOut::Pwm527Hz)
        } else if code == 0x77 {
            Ok(FpWmOut::Pwm523Hz)
        } else if code == 0x78 {
            Ok(FpWmOut::Pwm519Hz)
        } else if code == 0x79 {
            Ok(FpWmOut::Pwm514Hz)
        } else if code == 0x7A {
            Ok(FpWmOut::Pwm510Hz)
        } else if code == 0x7B {
            Ok(FpWmOut::Pwm506Hz)
        } else if code == 0x7C {
            Ok(FpWmOut::Pwm502Hz)
        } else if code == 0x7D {
            Ok(FpWmOut::Pwm498Hz)
        } else if code == 0x7E {
            Ok(FpWmOut::Pwm494Hz)
        } else if code == 0x7F {
            Ok(FpWmOut::Pwm490Hz)
        } else if code == 0x80 {
            Ok(FpWmOut::Pwm486Hz)
        } else if code == 0x81 {
            Ok(FpWmOut::Pwm483Hz)
        } else if code == 0x82 {
            Ok(FpWmOut::Pwm479Hz)
        } else if code == 0x83 {
            Ok(FpWmOut::Pwm475Hz)
        } else if code == 0x84 {
            Ok(FpWmOut::Pwm472Hz)
        } else if code == 0x85 {
            Ok(FpWmOut::Pwm468Hz)
        } else if code == 0x86 {
            Ok(FpWmOut::Pwm465Hz)
        } else if code == 0x87 {
            Ok(FpWmOut::Pwm461Hz)
        } else if code == 0x88 {
            Ok(FpWmOut::Pwm458Hz)
        } else if code == 0x89 {
            Ok(FpWmOut::Pwm455Hz)
        } else if code == 0x8A {
            Ok(FpWmOut::Pwm451Hz)
        } else if code == 0x8B {
            Ok(FpWmOut::Pwm448Hz)
        } else if code == 0x8C {
            Ok(FpWmOut::Pwm445Hz)
        } else if code == 0x8D {
            Ok(FpWmOut::Pwm442Hz)
        } else if code == 0x8E {
            Ok(FpWmOut::Pwm439Hz)
        } else if code == 0x8F {
            Ok(FpWmOut::Pwm436Hz)
        } else if code == 0x90 {
            Ok(FpWmOut::Pwm433Hz)
        } else if code == 0x91 {
            Ok(FpWmOut::Pwm430Hz)
        } else if code == 0x92 {
            Ok(FpWmOut::Pwm427Hz)
        } else if code == 0x93 {
            Ok(FpWmOut::Pwm424Hz)
        } else if code == 0x94 {
            Ok(FpWmOut::Pwm421Hz)
        } else if code == 0x95 {
            Ok(FpWmOut::Pwm418Hz)
        } else if code == 0x96 {
            Ok(FpWmOut::Pwm416Hz)
        } else if code == 0x97 {
            Ok(FpWmOut::Pwm413Hz)
        } else if code == 0x98 {
            Ok(FpWmOut::Pwm410Hz)
        } else if code == 0x99 {
            Ok(FpWmOut::Pwm407Hz)
        } else if code == 0x9A {
            Ok(FpWmOut::Pwm405Hz)
        } else if code == 0x9B {
            Ok(FpWmOut::Pwm402Hz)
        } else if code == 0x9C {
            Ok(FpWmOut::Pwm400Hz)
        } else if code == 0x9D {
            Ok(FpWmOut::Pwm397Hz)
        } else if code == 0x9E {
            Ok(FpWmOut::Pwm395Hz)
        } else if code == 0x9F {
            Ok(FpWmOut::Pwm392Hz)
        } else if code == 0xA0 {
            Ok(FpWmOut::Pwm390Hz)
        } else if code == 0xA1 {
            Ok(FpWmOut::Pwm387Hz)
        } else if code == 0xA2 {
            Ok(FpWmOut::Pwm385Hz)
        } else if code == 0xA3 {
            Ok(FpWmOut::Pwm383Hz)
        } else if code == 0xA4 {
            Ok(FpWmOut::Pwm380Hz)
        } else if code == 0xA5 {
            Ok(FpWmOut::Pwm378Hz)
        } else if code == 0xA6 {
            Ok(FpWmOut::Pwm376Hz)
        } else if code == 0xA7 {
            Ok(FpWmOut::Pwm373Hz)
        } else if code == 0xA8 {
            Ok(FpWmOut::Pwm371Hz)
        } else if code == 0xA9 {
            Ok(FpWmOut::Pwm369Hz)
        } else if code == 0xAA {
            Ok(FpWmOut::Pwm367Hz)
        } else if code == 0xAB {
            Ok(FpWmOut::Pwm365Hz)
        } else if code == 0xAC {
            Ok(FpWmOut::Pwm363Hz)
        } else if code == 0xAD {
            Ok(FpWmOut::Pwm361Hz)
        } else if code == 0xAE {
            Ok(FpWmOut::Pwm359Hz)
        } else if code == 0xAF {
            Ok(FpWmOut::Pwm357Hz)
        } else if code == 0xB0 {
            Ok(FpWmOut::Pwm354Hz)
        } else if code == 0xB1 {
            Ok(FpWmOut::Pwm353Hz)
        } else if code == 0xB2 {
            Ok(FpWmOut::Pwm351Hz)
        } else if code == 0xB3 {
            Ok(FpWmOut::Pwm349Hz)
        } else if code == 0xB4 {
            Ok(FpWmOut::Pwm347Hz)
        } else if code == 0xB5 {
            Ok(FpWmOut::Pwm345Hz)
        } else if code == 0xB6 {
            Ok(FpWmOut::Pwm343Hz)
        } else if code == 0xB7 {
            Ok(FpWmOut::Pwm341Hz)
        } else if code == 0xB8 {
            Ok(FpWmOut::Pwm339Hz)
        } else if code == 0xB9 {
            Ok(FpWmOut::Pwm337Hz)
        } else if code == 0xBA {
            Ok(FpWmOut::Pwm336Hz)
        } else if code == 0xBB {
            Ok(FpWmOut::Pwm334Hz)
        } else if code == 0xBC {
            Ok(FpWmOut::Pwm332Hz)
        } else if code == 0xBD {
            Ok(FpWmOut::Pwm330Hz)
        } else if code == 0xBE {
            Ok(FpWmOut::Pwm329Hz)
        } else if code == 0xBF {
            Ok(FpWmOut::Pwm327Hz)
        } else if code == 0xC0 {
            Ok(FpWmOut::Pwm325Hz)
        } else if code == 0xC1 {
            Ok(FpWmOut::Pwm323Hz)
        } else if code == 0xC2 {
            Ok(FpWmOut::Pwm322Hz)
        } else if code == 0xC3 {
            Ok(FpWmOut::Pwm320Hz)
        } else if code == 0xC4 {
            Ok(FpWmOut::Pwm319Hz)
        } else if code == 0xC5 {
            Ok(FpWmOut::Pwm317Hz)
        } else if code == 0xC6 {
            Ok(FpWmOut::Pwm315Hz)
        } else if code == 0xC7 {
            Ok(FpWmOut::Pwm314Hz)
        } else if code == 0xC8 {
            Ok(FpWmOut::Pwm312Hz)
        } else if code == 0xC9 {
            Ok(FpWmOut::Pwm311Hz)
        } else if code == 0xCA {
            Ok(FpWmOut::Pwm309Hz)
        } else if code == 0xCB {
            Ok(FpWmOut::Pwm308Hz)
        } else if code == 0xCC {
            Ok(FpWmOut::Pwm306Hz)
        } else if code == 0xCD {
            Ok(FpWmOut::Pwm305Hz)
        } else if code == 0xCE {
            Ok(FpWmOut::Pwm303Hz)
        } else if code == 0xCF {
            Ok(FpWmOut::Pwm302Hz)
        } else if code == 0xD0 {
            Ok(FpWmOut::Pwm300Hz)
        } else if code == 0xD1 {
            Ok(FpWmOut::Pwm299Hz)
        } else if code == 0xD2 {
            Ok(FpWmOut::Pwm297Hz)
        } else if code == 0xD3 {
            Ok(FpWmOut::Pwm296Hz)
        } else if code == 0xD4 {
            Ok(FpWmOut::Pwm295Hz)
        } else if code == 0xD5 {
            Ok(FpWmOut::Pwm293Hz)
        } else if code == 0xD6 {
            Ok(FpWmOut::Pwm292Hz)
        } else if code == 0xD7 {
            Ok(FpWmOut::Pwm290Hz)
        } else if code == 0xD8 {
            Ok(FpWmOut::Pwm289Hz)
        } else if code == 0xD9 {
            Ok(FpWmOut::Pwm288Hz)
        } else if code == 0xDA {
            Ok(FpWmOut::Pwm287Hz)
        } else if code == 0xDB {
            Ok(FpWmOut::Pwm285Hz)
        } else if code == 0xDC {
            Ok(FpWmOut::Pwm284Hz)
        } else if code == 0xDD {
            Ok(FpWmOut::Pwm283Hz)
        } else if code == 0xDE {
            Ok(FpWmOut::Pwm281Hz)
        } else if code == 0xDF {
            Ok(FpWmOut::Pwm280Hz)
        } else if code == 0xE0 {
            Ok(FpWmOut::Pwm279Hz)
        } else if code == 0xE1 {
            Ok(FpWmOut::Pwm278Hz)
        } else if code == 0xE2 {
            Ok(FpWmOut::Pwm276Hz)
        } else if code == 0xE3 {
            Ok(FpWmOut::Pwm275Hz)
        } else if code == 0xE4 {
            Ok(FpWmOut::Pwm274Hz)
        } else if code == 0xE5 {
            Ok(FpWmOut::Pwm273Hz)
        } else if code == 0xE6 {
            Ok(FpWmOut::Pwm272Hz)
        } else if code == 0xE7 {
            Ok(FpWmOut::Pwm270Hz)
        } else if code == 0xE8 {
            Ok(FpWmOut::Pwm269Hz)
        } else if code == 0xE9 {
            Ok(FpWmOut::Pwm268Hz)
        } else if code == 0xEA {
            Ok(FpWmOut::Pwm267Hz)
        } else if code == 0xEB {
            Ok(FpWmOut::Pwm266Hz)
        } else if code == 0xEC {
            Ok(FpWmOut::Pwm265Hz)
        } else if code == 0xED {
            Ok(FpWmOut::Pwm264Hz)
        } else if code == 0xEE {
            Ok(FpWmOut::Pwm263Hz)
        } else if code == 0xEF {
            Ok(FpWmOut::Pwm261Hz)
        } else if code == 0xF0 {
            Ok(FpWmOut::Pwm260Hz)
        } else if code == 0xF1 {
            Ok(FpWmOut::Pwm259Hz)
        } else if code == 0xF2 {
            Ok(FpWmOut::Pwm258Hz)
        } else if code == 0xF3 {
            Ok(FpWmOut::Pwm257Hz)
        } else if code == 0xF4 {
            Ok(FpWmOut::Pwm256Hz)
        } else if code == 0xF5 {
            Ok(FpWmOut::Pwm255Hz)
        } else if code == 0xF6 {
            Ok(FpWmOut::Pwm254Hz)
        } else if code == 0xF7 {
            Ok(FpWmOut::Pwm253Hz)
        } else if code == 0xF8 {
            Ok(FpWmOut::Pwm252Hz)
        } else if code == 0xF9 {
            Ok(FpWmOut::Pwm251Hz)
        } else if code == 0xFA {
            Ok(FpWmOut::Pwm250Hz)
        } else if code == 0xFB {
            Ok(FpWmOut::Pwm249Hz)
        } else if code == 0xFC {
            Ok(FpWmOut::Pwm248Hz)
        } else if code == 0xFD {
            Ok(FpWmOut::Pwm247Hz)
        } else if code == 0xFE {
            Ok(FpWmOut::Pwm246Hz)
        } else if code == 0xFF {
            Ok(FpWmOut::Pwm245Hz)
        } else {
            Err(CodecError::UnrecognizedCode { code })
        }
    }

    /// The wire code of this variant.
    #[verifier::rlimit(100)]
    pub fn code(self) -> (r: u8)
        ensures
            r == self.spec_code(),
    {
        match self {
            FpWmOut::Pwm62745Hz => 0x00,
            FpWmOut::Pwm31373Hz => 0x01,
            FpWmOut::Pwm20915Hz => 0x02,
            FpWmOut::Pwm15686Hz => 0x03,
            FpWmOut::Pwm12549Hz => 0x04,
            FpWmOut::Pwm10458Hz => 0x05,
            FpWmOut::Pwm8964Hz => 0x06,
            FpWmOut::Pwm7843Hz => 0x07,
            FpWmOut::Pwm6972Hz => 0x08,
            FpWmOut::Pwm6275Hz => 0x09,
            FpWmOut::Pwm5704Hz => 0x0A,
            FpWmOut::Pwm5229Hz => 0x0B,
            FpWmOut::Pwm4827Hz => 0x0C,
            FpWmOut::Pwm4482Hz => 0x0D,
            FpWmOut::Pwm4183Hz => 0x0E,
            FpWmOut::Pwm3922Hz => 0x0F,
            FpWmOut::Pwm3691Hz => 0x10,
            FpWmOut::Pwm3486Hz => 0x11,
            FpWmOut::Pwm3302Hz => 0x12,
            FpWmOut::Pwm3137Hz => 0x13,
            FpWmOut::Pwm2988Hz => 0x14,
            FpWmOut::Pwm2852Hz => 0x15,
            FpWmOut::Pwm2728Hz => 0x16,
            FpWmOut::Pwm2614Hz => 0x17,
            FpWmOut::Pwm2510Hz => 0x18,
            FpWmOut::Pwm2413Hz => 0x19,
            FpWmOut::Pwm2324Hz => 0x1A,
            FpWmOut::Pwm2241Hz => 0x1B,
            FpWmOut::Pwm2164Hz => 0x1C,
            FpWmOut::Pwm2092Hz => 0x1D,
            FpWmOut::Pwm2024Hz => 0x1E,
            FpWmOut::Pwm1961Hz => 0x1F,
            FpWmOut::Pwm1901Hz => 0x20,
            FpWmOut::Pwm1845Hz => 0x21,
            FpWmOut::Pwm1793Hz => 0x22,
            FpWmOut::Pwm1743Hz => 0x23,
            FpWmOut::Pwm1696Hz => 0x24,
            FpWmOut::Pwm1651Hz => 0x25,
            FpWmOut::Pwm1609Hz => 0x26,
            FpWmOut::Pwm1569Hz => 0x27,
            FpWmOut::Pwm1530Hz => 0x28,
            FpWmOut::Pwm1494Hz => 0x29,
            FpWmOut::Pwm1459Hz => 0x2A,
            FpWmOut::Pwm1426Hz => 0x2B,
            FpWmOut::Pwm1394Hz => 0x2C,
            FpWmOut::Pwm1364Hz => 0x2D,
            FpWmOut::Pwm1335Hz => 0x2E,
            FpWmOut::Pwm1307Hz => 0x2F,
            FpWmOut::Pwm1281Hz => 0x30,
            FpWmOut::Pwm1255Hz => 0x31,
            FpWmOut::Pwm1230Hz => 0x32,
            FpWmOut::Pwm1207Hz => 0x33,
            FpWmOut::Pwm1184Hz => 0x34,
            FpWmOut::Pwm1162Hz => 0x35,
            FpWmOut::Pwm1141Hz => 0x36,
            FpWmOut::Pwm1120Hz => 0x37,
            FpWmOut::Pwm1101Hz => 0x38,
            FpWmOut::Pwm1082Hz => 0x39,
            FpWmOut::Pwm1063Hz => 0x3A,
            FpWmOut::Pwm1046Hz => 0x3B,
            FpWmOut::Pwm1029Hz => 0x3C,
            FpWmOut::Pwm1012Hz => 0x3D,
            FpWmOut::Pwm996Hz => 0x3E,
            FpWmOut::Pwm980Hz => 0x3F,
            FpWmOut::Pwm965Hz => 0x40,
            FpWmOut::Pwm951Hz => 0x41,
            FpWmOut::Pwm936Hz => 0x42,
            FpWmOut::Pwm923Hz => 0x43,
            FpWmOut::Pwm909Hz => 0x44,
            FpWmOut::Pwm896Hz => 0x45,
            FpWmOut::Pwm884Hz => 0x46,
            FpWmOut::Pwm871Hz => 0x47,
            FpWmOut::Pwm860Hz => 0x48,
            FpWmOut::Pwm848Hz => 0x49,
            FpWmOut::Pwm837Hz => 0x4A,
            FpWmOut::Pwm826Hz => 0x4B,
            FpWmOut::Pwm815Hz => 0x4C,
            FpWmOut::Pwm804Hz => 0x4D,
            FpWmOut::Pwm794Hz => 0x4E,
            FpWmOut::Pwm784Hz => 0x4F,
            FpWmOut::Pwm775Hz => 0x50,
            FpWmOut::Pwm765Hz => 0x51,
            FpWmOut::Pwm756Hz => 0x52,
            FpWmOut::Pwm747Hz => 0x53,
            FpWmOut::Pwm738Hz => 0x54,
            FpWmOut::Pwm730Hz => 0x55,
            FpWmOut::Pwm721Hz => 0x56,
            FpWmOut::Pwm713Hz => 0x57,
            FpWmOut::Pwm705Hz => 0x58,
            FpWmOut::Pwm697Hz => 0x59,
            FpWmOut::Pwm690Hz => 0x5A,
            FpWmOut::Pwm682Hz => 0x5B,
            FpWmOut::Pwm675Hz => 0x5C,
            FpWmOut::Pwm668Hz => 0x5D,
            FpWmOut::Pwm660Hz => 0x5E,
            FpWmOut::Pwm654Hz => 0x5F,
            FpWmOut::Pwm647Hz => 0x60,
            FpWmOut::Pwm640Hz => 0x61,
            FpWmOut::Pwm634Hz => 0x62,
            FpWmOut::Pwm627Hz => 0x63,
            FpWmOut::Pwm621Hz => 0x64,
            FpWmOut::Pwm615Hz => 0x65,
            FpWmOut::Pwm609Hz => 0x66,
            FpWmOut::Pwm603Hz => 0x67,
            FpWmOut::Pwm598Hz => 0x68,
            FpWmOut::Pwm592Hz => 0x69,
            FpWmOut::Pwm586Hz => 0x6A,
            FpWmOut::Pwm581Hz => 0x6B,
            FpWmOut::Pwm576Hz => 0x6C,
            FpWmOut::Pwm570Hz => 0x6D,
            FpWmOut::Pwm565Hz => 0x6E,
            FpWmOut::Pwm560Hz => 0x6F,
            FpWmOut::Pwm555Hz => 0x70,
            FpWmOut::Pwm550Hz => 0x71,
            FpWmOut::Pwm546Hz => 0x72,
            FpWmOut::Pwm541Hz => 0x73,
            FpWmOut::Pwm536Hz => 0x74,
            FpWmOut::Pwm532Hz => 0x75,
            FpWmOut::Pwm527Hz => 0x76,
            FpWmOut::Pwm523Hz => 0x77,
            FpWmOut::Pwm519Hz => 0x78,
            FpWmOut::Pwm514Hz => 0x79,
            FpWmOut::Pwm510Hz => 0x7A,
            FpWmOut::Pwm506Hz => 0x7B,
            FpWmOut::Pwm502Hz => 0x7C,
            FpWmOut::Pwm498Hz => 0x7D,
            FpWmOut::Pwm494Hz => 0x7E,
            FpWmOut::Pwm490Hz => 0x7F,
            FpWmOut::Pwm486Hz => 0x80,
            FpWmOut::Pwm483Hz => 0x81,
            FpWmOut::Pwm479Hz => 0x82,
            FpWmOut::Pwm475Hz => 0x83,
            FpWmOut::Pwm472Hz => 0x84,
            FpWmOut::Pwm468Hz => 0x85,
            FpWmOut::Pwm465Hz => 0x86,
            FpWmOut::Pwm461Hz => 0x87,
            FpWmOut::Pwm458Hz => 0x88,
            FpWmOut::Pwm455Hz => 0x89,
            FpWmOut::Pwm451Hz => 0x8A,
            FpWmOut::Pwm448Hz => 0x8B,
            FpWmOut::Pwm445Hz => 0x8C,
            FpWmOut::Pwm442Hz => 0x8D,
            FpWmOut::Pwm439Hz => 0x8E,
            FpWmOut::Pwm436Hz => 0x8F,
            FpWmOut::Pwm433Hz => 0x90,
            FpWmOut::Pwm430Hz => 0x91,
            FpWmOut::Pwm427Hz => 0x92,
            FpWmOut::Pwm424Hz => 0x93,
            FpWmOut::Pwm421Hz => 0x94,
            FpWmOut::Pwm418Hz => 0x95,
            FpWmOut::Pwm416Hz => 0x96,
            FpWmOut::Pwm413Hz => 0x97,
            FpWmOut::Pwm410Hz => 0x98,
            FpWmOut::Pwm407Hz => 0x99,
            FpWmOut::Pwm405Hz => 0x9A,
            FpWmOut::Pwm402Hz => 0x9B,
            FpWmOut::Pwm400Hz => 0x9C,
            FpWmOut::Pwm397Hz => 0x9D,
            FpWmOut::Pwm395Hz => 0x9E,
            FpWmOut::Pwm392Hz => 0x9F,
            FpWmOut::Pwm390Hz => 0xA0,
            FpWmOut::Pwm387Hz => 0xA1,
            FpWmOut::Pwm385Hz => 0xA2,
            FpWmOut::Pwm383Hz => 0xA3,
            FpWmOut::Pwm380Hz => 0xA4,
            FpWmOut::Pwm378Hz => 0xA5,
            FpWmOut::Pwm376Hz => 0xA6,
            FpWmOut::Pwm373Hz => 0xA7,
            FpWmOut::Pwm371Hz => 0xA8,
            FpWmOut::Pwm369Hz => 0xA9,
            FpWmOut::Pwm367Hz => 0xAA,
            FpWmOut::Pwm365Hz => 0xAB,
            FpWmOut::Pwm363Hz => 0xAC,
            FpWmOut::Pwm361Hz => 0xAD,
            FpWmOut::Pwm359Hz => 0xAE,
            FpWmOut::Pwm357Hz => 0xAF,
            FpWmOut::Pwm354Hz => 0xB0,
            FpWmOut::Pwm353Hz => 0xB1,
            FpWmOut::Pwm351Hz => 0xB2,
            FpWmOut::Pwm349Hz => 0xB3,
            FpWmOut::Pwm347Hz => 0xB4,
            FpWmOut::Pwm345Hz => 0xB5,
            FpWmOut::Pwm343Hz => 0xB6,
            FpWmOut::Pwm341Hz => 0xB7,
            FpWmOut::Pwm339Hz => 0xB8,
            FpWmOut::Pwm337Hz => 0xB9,
            FpWmOut::Pwm336Hz => 0xBA,
            FpWmOut::Pwm334Hz => 0xBB,
            FpWmOut::Pwm332Hz => 0xBC,
            FpWmOut::Pwm330Hz => 0xBD,
            FpWmOut::Pwm329Hz => 0xBE,
            FpWmOut::Pwm327Hz => 0xBF,
            FpWmOut::Pwm325Hz => 0xC0,
            FpWmOut::Pwm323Hz => 0xC1,
            FpWmOut::Pwm322Hz => 0xC2,
            FpWmOut::Pwm320Hz => 0xC3,
            FpWmOut::Pwm319Hz => 0xC4,
            FpWmOut::Pwm317Hz => 0xC5,
            FpWmOut::Pwm315Hz => 0xC6,
            FpWmOut::Pwm314Hz => 0xC7,
            FpWmOut::Pwm312Hz => 0xC8,
            FpWmOut::Pwm311Hz => 0xC9,
            FpWmOut::Pwm309Hz => 0xCA,
            FpWmOut::Pwm308Hz => 0xCB,
            FpWmOut::Pwm306Hz => 0xCC,
            FpWmOut::Pwm305Hz => 0xCD,
            FpWmOut::Pwm303Hz => 0xCE,
            FpWmOut::Pwm302Hz => 0xCF,
            FpWmOut::Pwm300Hz => 0xD0,
            FpWmOut::Pwm299Hz => 0xD1,
            FpWmOut::Pwm297Hz => 0xD2,
            FpWmOut::Pwm296Hz => 0xD3,
            FpWmOut::Pwm295Hz => 0xD4,
            FpWmOut::Pwm293Hz => 0xD5,
            FpWmOut::Pwm292Hz => 0xD6,
            FpWmOut::Pwm290Hz => 0xD7,
            FpWmOut::Pwm289Hz => 0xD8,
            FpWmOut::Pwm288Hz => 0xD9,
            FpWmOut::Pwm287Hz => 0xDA,
            FpWmOut::Pwm285Hz => 0xDB,
            FpWmOut::Pwm284Hz => 0xDC,
            FpWmOut::Pwm283Hz => 0xDD,
            FpWmOut::Pwm281Hz => 0xDE,
            FpWmOut::Pwm280Hz => 0xDF,
            FpWmOut::Pwm279Hz => 0xE0,
            FpWmOut::Pwm278Hz => 0xE1,
            FpWmOut::Pwm276Hz => 0xE2,
            FpWmOut::Pwm275Hz => 0xE3,
            FpWmOut::Pwm274Hz => 0xE4,
            FpWmOut::Pwm273Hz => 0xE5,
            FpWmOut::Pwm272Hz => 0xE6,
            FpWmOut::Pwm270Hz => 0xE7,
            FpWmOut::Pwm269Hz => 0xE8,
            FpWmOut::Pwm268Hz => 0xE9,
            FpWmOut::Pwm267Hz => 0xEA,
            FpWmOut::Pwm266Hz => 0xEB,
            FpWmOut::Pwm265Hz => 0xEC,
            FpWmOut::Pwm264Hz => 0xED,
            FpWmOut::Pwm263Hz => 0xEE,
            FpWmOut::Pwm261Hz => 0xEF,
            FpWmOut::Pwm260Hz => 0xF0,
            FpWmOut::Pwm259Hz => 0xF1,
            FpWmOut::Pwm258Hz => 0xF2,
            FpWmOut::Pwm257Hz => 0xF3,
            FpWmOut::Pwm256Hz => 0xF4,
            FpWmOut::Pwm255Hz => 0xF5,
            FpWmOut::Pwm254Hz => 0xF6,
            FpWmOut::Pwm253Hz => 0xF7,
            FpWmOut::Pwm252Hz => 0xF8,
            FpWmOut::Pwm251Hz => 0xF9,
            FpWmOut::Pwm250Hz => 0xFA,
            FpWmOut::Pwm249Hz => 0xFB,
            FpWmOut::Pwm248Hz => 0xFC,
            FpWmOut::Pwm247Hz => 0xFD,
            FpWmOut::Pwm246Hz => 0xFE,
            FpWmOut::Pwm245Hz => 0xFF,
        }
    }

    /// Decode a wire code; a code outside the documented mapping is a
    /// recoverable error, never coerced to a variant.
    #[verifier::rlimit(100)]
    pub fn from_code(code: u8) -> (r: Result<FpWmOut, CodecError>)
        ensures
            r == Self::spec_decode(code),
    {
        match code {
            0x00 => Ok(FpWmOut::Pwm62745Hz),
            0x01 => Ok(FpWmOut::Pwm31373Hz),
            0x02 => Ok(FpWmOut::Pwm20915Hz),
            0x03 => Ok(FpWmOut::Pwm15686Hz),
            0x04 => Ok(FpWmOut::Pwm12549Hz),
            0x05 => Ok(FpWmOut::Pwm10458Hz),
            0x06 => Ok(FpWmOut::Pwm8964Hz),
            0x07 => Ok(FpWmOut::Pwm7843Hz),
            0x08 => Ok(FpWmOut::Pwm6972Hz),
            0x09 => Ok(FpWmOut::Pwm6275Hz),
            0x0A => Ok(FpWmOut::Pwm5704Hz),
            0x0B => Ok(FpWmOut::Pwm5229Hz),
            0x0C => Ok(FpWmOut::Pwm4827Hz),
            0x0D => Ok(FpWmOut::Pwm4482Hz),
            0x0E => Ok(FpWmOut::Pwm4183Hz),
            0x0F => Ok(FpWmOut::Pwm3922Hz),
            0x10 => Ok(FpWmOut::Pwm3691Hz),
            0x11 => Ok(FpWmOut::Pwm3486Hz),
            0x12 => Ok(FpWmOut::Pwm3302Hz),
            0x13 => Ok(FpWmOut::Pwm3137Hz),
            0x14 => Ok(FpWmOut::Pwm2988Hz),
            0x15 => Ok(FpWmOut::Pwm2852Hz),
            0x16 => Ok(FpWmOut::Pwm2728Hz),
            0x17 => Ok(FpWmOut::Pwm2614Hz),
            0x18 => Ok(FpWmOut::Pwm2510Hz),
            0x19 => Ok(FpWmOut::Pwm2413Hz),
            0x1A => Ok(FpWmOut::Pwm2324Hz),
            0x1B => Ok(FpWmOut::Pwm2241Hz),
            0x1C => Ok(FpWmOut::Pwm2164Hz),
            0x1D => Ok(FpWmOut::Pwm2092Hz),
            0x1E => Ok(FpWmOut::Pwm2024Hz),
            0x1F => Ok(FpWmOut::Pwm1961Hz),
            0x20 => Ok(FpWmOut::Pwm1901Hz),
            0x21 => Ok(FpWmOut::Pwm1845Hz),
            0x22 => Ok(FpWmOut::Pwm1793Hz),
            0x23 => Ok(FpWmOut::Pwm1743Hz),
            0x24 => Ok(FpWmOut::Pwm1696Hz),
            0x25 => Ok(FpWmOut::Pwm1651Hz),
            0x26 => Ok(FpWmOut::Pwm1609Hz),
            0x27 => Ok(FpWmOut::Pwm1569Hz),
            0x28 => Ok(FpWmOut::Pwm1530Hz),
            0x29 => Ok(FpWmOut::Pwm1494Hz),
            0x2A => Ok(FpWmOut::Pwm1459Hz),
            0x2B => Ok(FpWmOut::Pwm1426Hz),
            0x2C => Ok(FpWmOut::Pwm1394Hz),
            0x2D => Ok(FpWmOut::Pwm1364Hz),
            0x2E => Ok(FpWmOut::Pwm1335Hz),
            0x2F => Ok(FpWmOut::Pwm1307Hz),
            0x30 => Ok(FpWmOut::Pwm1281Hz),
            0x31 => Ok(FpWmOut::Pwm1255Hz),
            0x32 => Ok(FpWmOut::Pwm1230Hz),
            0x33 => Ok(FpWmOut::Pwm1207Hz),
            0x34 => Ok(FpWmOut::Pwm1184Hz),
            0x35 => Ok(FpWmOut::Pwm1162Hz),
            0x36 => Ok(FpWmOut::Pwm1141Hz),
            0x37 => Ok(FpWmOut::Pwm1120Hz),
            0x38 => Ok(FpWmOut::Pwm1101Hz),
            0x39 => Ok(FpWmOut::Pwm1082Hz),
            0x3A => Ok(FpWmOut::Pwm1063Hz),
            0x3B => Ok(FpWmOut::Pwm1046Hz),
            0x3C => Ok(FpWmOut::Pwm1029Hz),
            0x3D => Ok(FpWmOut::Pwm1012Hz),
            0x3E => Ok(FpWmOut::Pwm996Hz),
            0x3F => Ok(FpWmOut::Pwm980Hz),
            0x40 => Ok(FpWmOut::Pwm965Hz),
            0x41 => Ok(FpWmOut::Pwm951Hz),
            0x42 => Ok(FpWmOut::Pwm936Hz),
            0x43 => Ok(FpWmOut::Pwm923Hz),
            0x44 => Ok(FpWmOut::Pwm909Hz),
            0x45 => Ok(FpWmOut::Pwm896Hz),
            0x46 => Ok(FpWmOut::Pwm884Hz),
            0x47 => Ok(FpWmOut::Pwm871Hz),
            0x48 => Ok(FpWmOut::Pwm860Hz),
            0x49 => Ok(FpWmOut::Pwm848Hz),
            0x4A => Ok(FpWmOut::Pwm837Hz),
            0x4B => Ok(FpWmOut::Pwm826Hz),
            0x4C => Ok(FpWmOut::Pwm815Hz),
            0x4D => Ok(FpWmOut::Pwm804Hz),
            0x4E => Ok(FpWmOut::Pwm794Hz),
            0x4F => Ok(FpWmOut::Pwm784Hz),
            0x50 => Ok(FpWmOut::Pwm775Hz),
            0x51 => Ok(FpWmOut::Pwm765Hz),
            0x52 => Ok(FpWmOut::Pwm756Hz),
            0x53 => Ok(FpWmOut::Pwm747Hz),
            0x54 => Ok(FpWmOut::Pwm738Hz),
            0x55 => Ok(FpWmOut::Pwm730Hz),
            0x56 => Ok(FpWmOut::Pwm721Hz),
            0x57 => Ok(FpWmOut::Pwm713Hz),
            0x58 => Ok(FpWmOut::Pwm705Hz),
            0x59 => Ok(FpWmOut::Pwm697Hz),
            0x5A => Ok(FpWmOut::Pwm690Hz),
            0x5B => Ok(FpWmOut::Pwm682Hz),
            0x5C => Ok(FpWmOut::Pwm675Hz),
            0x5D => Ok(FpWmOut::Pwm668Hz),
            0x5E => Ok(FpWmOut::Pwm660Hz),
            0x5F => Ok(FpWmOut::Pwm654Hz),
            0x60 => Ok(FpWmOut::Pwm647Hz),
            0x61 => Ok(FpWmOut::Pwm640Hz),
            0x62 => Ok(FpWmOut::Pwm634Hz),
            0x63 => Ok(FpWmOut::Pwm627Hz),
            0x64 => Ok(FpWmOut::Pwm621Hz),
            0x65 => Ok(FpWmOut::Pwm615Hz),
            0x66 => Ok(FpWmOut::Pwm609Hz),
            0x67 => Ok(FpWmOut::Pwm603Hz),
            0x68 => Ok(FpWmOut::Pwm598Hz),
            0x69 => Ok(FpWmOut::Pwm592Hz),
            0x6A => Ok(FpWmOut::Pwm586Hz),
            0x6B => Ok(FpWmOut::Pwm581Hz),
            0x6C => Ok(FpWmOut::Pwm576Hz),
            0x6D => Ok(FpWmOut::Pwm570Hz),
            0x6E => Ok(FpWmOut::Pwm565Hz),
            0x6F => Ok(FpWmOut::Pwm560Hz),
            0x70 => Ok(FpWmOut::Pwm555Hz),
            0x71 => Ok(FpWmOut::Pwm550Hz),
            0x72 => Ok(FpWmOut::Pwm546Hz),
            0x73 => Ok(FpWmOut::Pwm541Hz),
            0x74 => Ok(FpWmOut::Pwm536Hz),
            0x75 => Ok(FpWmOut::Pwm532Hz),
            0x76 => Ok(FpWmOut::Pwm527Hz),
            0x77 => Ok(FpWmOut::Pwm523Hz),
            0x78 => Ok(FpWmOut::Pwm519Hz),
            0x79 => Ok(FpWmOut::Pwm514Hz),
            0x7A => Ok(FpWmOut::Pwm510Hz),
            0x7B => Ok(FpWmOut::Pwm506Hz),
            0x7C => Ok(FpWmOut::Pwm502Hz),
            0x7D => Ok(FpWmOut::Pwm498Hz),
            0x7E => Ok(FpWmOut::Pwm494Hz),
            0x7F => Ok(FpWmOut::Pwm490Hz),
            0x80 => Ok(FpWmOut::Pwm486Hz),
            0x81 => Ok(FpWmOut::Pwm483Hz),
            0x82 => Ok(FpWmOut::Pwm479Hz),
            0x83 => Ok(FpWmOut::Pwm475Hz),
            0x84 => Ok(FpWmOut::Pwm472Hz),
            0x85 => Ok(FpWmOut::Pwm468Hz),
            0x86 => Ok(FpWmOut::Pwm465Hz),
            0x87 => Ok(FpWmOut::Pwm461Hz),
            0x88 => Ok(FpWmOut::Pwm458Hz),
            0x89 => Ok(FpWmOut::Pwm455Hz),
            0x8A => Ok(FpWmOut::Pwm451Hz),
            0x8B => Ok(FpWmOut::Pwm448Hz),
            0x8C => Ok(FpWmOut::Pwm445Hz),
            0x8D => Ok(FpWmOut::Pwm442Hz),
            0x8E => Ok(FpWmOut::Pwm439Hz),
            0x8F => Ok(FpWmOut::Pwm436Hz),
            0x90 => Ok(FpWmOut::Pwm433Hz),
            0x91 => Ok(FpWmOut::Pwm430Hz),
            0x92 => Ok(FpWmOut::Pwm427Hz),
            0x93 => Ok(FpWmOut::Pwm424Hz),
            0x94 => Ok(FpWmOut::Pwm421Hz),
            0x95 => Ok(FpWmOut::Pwm418Hz),
            0x96 => Ok(FpWmOut::Pwm416Hz),
            0x97 => Ok(FpWmOut::Pwm413Hz),
            0x98 => Ok(FpWmOut::Pwm410Hz),
            0x99 => Ok(FpWmOut::Pwm407Hz),
            0x9A => Ok(FpWmOut::Pwm405Hz),
            0x9B => Ok(FpWmOut::Pwm402Hz),
            0x9C => Ok(FpWmOut::Pwm400Hz),
            0x9D => Ok(FpWmOut::Pwm397Hz),
            0x9E => Ok(FpWmOut::Pwm395Hz),
            0x9F => Ok(FpWmOut::Pwm392Hz),
            0xA0 => Ok(FpWmOut::Pwm390Hz),
            0xA1 => Ok(FpWmOut::Pwm387Hz),
            0xA2 => Ok(FpWmOut::Pwm385Hz),
            0xA3 => Ok(FpWmOut::Pwm383Hz),
            0xA4 => Ok(FpWmOut::Pwm380Hz),
            0xA5 => Ok(FpWmOut::Pwm378Hz),
            0xA6 => Ok(FpWmOut::Pwm376Hz),
            0xA7 => Ok(FpWmOut::Pwm373Hz),
            0xA8 => Ok(FpWmOut::Pwm371Hz),
            0xA9 => Ok(FpWmOut::Pwm369Hz),
            0xAA => Ok(FpWmOut::Pwm367Hz),
            0xAB => Ok(FpWmOut::Pwm365Hz),
            0xAC => Ok(FpWmOut::Pwm363Hz),
            0xAD => Ok(FpWmOut::Pwm361Hz),
            0xAE => Ok(FpWmOut::Pwm359Hz),
            0xAF => Ok(FpWmOut::Pwm357Hz),
            0xB0 => Ok(FpWmOut::Pwm354Hz),
            0xB1 => Ok(FpWmOut::Pwm353Hz),
            0xB2 => Ok(FpWmOut::Pwm351Hz),
            0xB3 => Ok(FpWmOut::Pwm349Hz),
            0xB4 => Ok(FpWmOut::Pwm347Hz),
            0xB5 => Ok(FpWmOut::Pwm345Hz),
            0xB6 => Ok(FpWmOut::Pwm343Hz),
            0xB7 => Ok(FpWmOut::Pwm341Hz),
            0xB8 => Ok(FpWmOut::Pwm339Hz),
            0xB9 => Ok(FpWmOut::Pwm337Hz),
            0xBA => Ok(FpWmOut::Pwm336Hz),
            0xBB => Ok(FpWmOut::Pwm334Hz),
            0xBC => Ok(FpWmOut::Pwm332Hz),
            0xBD => Ok(FpWmOut::Pwm330Hz),
            0xBE => Ok(FpWmOut::Pwm329Hz),
            0xBF => Ok(FpWmOut::Pwm327Hz),
            0xC0 => Ok(FpWmOut::Pwm325Hz),
            0xC1 => Ok(FpWmOut::Pwm323Hz),
            0xC2 => Ok(FpWmOut::Pwm322Hz),
            0xC3 => Ok(FpWmOut::Pwm320Hz),
            0xC4 => Ok(FpWmOut::Pwm319Hz),
            0xC5 => Ok(FpWmOut::Pwm317Hz),
            0xC6 => Ok(FpWmOut::Pwm315Hz),
            0xC7 => Ok(FpWmOut::Pwm314Hz),
            0xC8 => Ok(FpWmOut::Pwm312Hz),
            0xC9 => Ok(FpWmOut::Pwm311Hz),
            0xCA => Ok(FpWmOut::Pwm309Hz),
            0xCB => Ok(FpWmOut::Pwm308Hz),
            0xCC => Ok(FpWmOut::Pwm306Hz),
            0xCD => Ok(FpWmOut::Pwm305Hz),
            0xCE => Ok(FpWmOut::Pwm303Hz),
            0xCF => Ok(FpWmOut::Pwm302Hz),
            0xD0 => Ok(FpWmOut::Pwm300Hz),
            0xD1 => Ok(FpWmOut::Pwm299Hz),
            0xD2 => Ok(FpWmOut::Pwm297Hz),
            0xD3 => Ok(FpWmOut::Pwm296Hz),
            0xD4 => Ok(FpWmOut::Pwm295Hz),
            0xD5 => Ok(FpWmOut::Pwm293Hz),
            0xD6 => Ok(FpWmOut::Pwm292Hz),
            0xD7 => Ok(FpWmOut::Pwm290Hz),
            0xD8 => Ok(FpWmOut::Pwm289Hz),
            0xD9 => Ok(FpWmOut::Pwm288Hz),
            0xDA => Ok(FpWmOut::Pwm287Hz),
            0xDB => Ok(FpWmOut::Pwm285Hz),
            0xDC => Ok(FpWmOut::Pwm284Hz),
            0xDD => Ok(FpWmOut::Pwm283Hz),
            0xDE => Ok(FpWmOut::Pwm281Hz),
            0xDF => Ok(FpWmOut::Pwm280Hz),
            0xE0 => Ok(FpWmOut::Pwm279Hz),
            0xE1 => Ok(FpWmOut::Pwm278Hz),
            0xE2 => Ok(FpWmOut::Pwm276Hz),
            0xE3 => Ok(FpWmOut::Pwm275Hz),
            0xE4 => Ok(FpWmOut::Pwm274Hz),
            0xE5 => Ok(FpWmOut::Pwm273Hz),
            0xE6 => Ok(FpWmOut::Pwm272Hz),
            0xE7 => Ok(FpWmOut::Pwm270Hz),
            0xE8 => Ok(FpWmOut::Pwm269Hz),
            0xE9 => Ok(FpWmOut::Pwm268Hz),
            0xEA => Ok(FpWmOut::Pwm267Hz),
            0xEB => Ok(FpWmOut::Pwm266Hz),
            0xEC => Ok(FpWmOut::Pwm265Hz),
            0xED => Ok(FpWmOut::Pwm264Hz),
            0xEE => Ok(FpWmOut::Pwm263Hz),
            0xEF => Ok(FpWmOut::Pwm261Hz),
            0xF0 => Ok(FpWmOut::Pwm260Hz),
            0xF1 => Ok(FpWmOut::Pwm259Hz),
            0xF2 => Ok(FpWmOut::Pwm258Hz),
            0xF3 => Ok(FpWmOut::Pwm257Hz),
            0xF4 => Ok(FpWmOut::Pwm256Hz),
            0xF5 => Ok(FpWmOut::Pwm255Hz),
            0xF6 => Ok(FpWmOut::Pwm254Hz),
            0xF7 => Ok(FpWmOut::Pwm253Hz),
            0xF8 => Ok(FpWmOut::Pwm252Hz),
            0xF9 => Ok(FpWmOut::Pwm251Hz),
            0xFA => Ok(FpWmOut::Pwm250Hz),
            0xFB => Ok(FpWmOut::Pwm249Hz),
            0xFC => Ok(FpWmOut::Pwm248Hz),
            0xFD => Ok(FpWmOut::Pwm247Hz),
            0xFE => Ok(FpWmOut::Pwm246Hz),
            0xFF => Ok(FpWmOut::Pwm245Hz),
            _ => Err(CodecError::UnrecognizedCode { code }),
        }
    }

    /// Decoding a variant's own code yields that variant back.
    #[verifier::rlimit(100)]
    pub proof fn lemma_code_roundtrip(self)
        ensures
            Self::spec_decode(self.spec_code()) == Ok::<FpWmOut, CodecError>(self),
    {
    }
}

/// The single-byte parameter block of the `backlight-control7` command.
#[derive(Copy, Clone, Debug)]
pub struct BacklightControl7 {
    pub data: [u8; 1],
}

impl BacklightControl7 {
    /// The chip's post-reset value of this block.
    pub open spec fn spec_default() -> Seq<u8> {
        seq![0x0Fu8]
    }

    /// Borrow-free read view over a snapshot of the block.
    pub fn read(&self) -> (r: BacklightControl7Read)
        ensures
            r.d.data@ == self.data@,
    {
        BacklightControl7Read { d: *self }
    }

    /// Apply a builder transformation to this block and return the result.
    pub fn write<F: FnOnce(BacklightControl7Write) -> BacklightControl7Write>(self, f: F) -> (r: Self)
        requires
            call_requires(f, ((BacklightControl7Write { d: self }),)),
        ensures
            call_ensures(f, ((BacklightControl7Write { d: self }),), (BacklightControl7Write { d: r })),
    {
        let w = f(BacklightControl7Write { d: self });
        proof {
            assert((BacklightControl7Write { d: w.d }) == w);
        }
        w.d
    }
}

impl Default for BacklightControl7 {
    /// The block with the chip's documented post-reset byte pattern.
    fn default() -> (r: Self)
        ensures
            r.data@ == BacklightControl7::spec_default(),
    {
        let r = BacklightControl7 { data: [0x0F] };
        proof {
            assert(r.data@ =~= BacklightControl7::spec_default());
        }
        r
    }
}

/// Read view of [`BacklightControl7`].
#[derive(Copy, Clone)]
pub struct BacklightControl7Read {
    pub d: BacklightControl7,
}

impl BacklightControl7Read {
    /// `fp_wm_out`: the whole of byte 0.
    pub fn fp_wm_out(&self) -> (r: Result<FpWmOut, CodecError>)
        ensures
            r == FpWmOut::spec_decode(self.d.data@[0]),
    {
        FpWmOut::from_code(self.d.data[0])
    }
}

/// Write view of [`BacklightControl7`].
#[derive(Copy, Clone)]
pub struct BacklightControl7Write {
    pub d: BacklightControl7,
}

impl BacklightControl7Write {
    /// `fp_wm_out`: written into byte 0; all other bits are kept.
    pub fn fp_wm_out(self, w: FpWmOut) -> (r: Self)
        ensures
            r.d.data@ == self.d.data@.update(0, w.spec_code()),
    {
        let c = w.code();
        let mut d = self.d;
        d.data[0] = c;
        BacklightControl7Write { d }
    }
}

} // verus!
