//! Parameter block of the `read-display-identification-information` command: the display identification bytes:
//! module manufacturer, driver version and driver ID.

use vstd::prelude::*;


verus! {

/// The 3-byte parameter block of the `read-display-identification-information` command.
#[derive(Copy, Clone, Debug)]
pub struct DisplayIdentificationInformation {
    pub data: [u8; 3],
}

impl DisplayIdentificationInformation {
    /// The chip's post-reset value of this block.
    pub open spec fn spec_default() -> Seq<u8> {
        seq![0x00u8, 0x00u8, 0x00u8]
    }

    /// Borrow-free read view over a snapshot of the block.
    pub fn read(&self) -> (r: DisplayIdentificationInformationRead)
        ensures
            r.d.data@ == self.data@,
    {
        DisplayIdentificationInformationRead { d: *self }
    }

    /// Apply a builder transformation to this block and return the result.
    pub fn write<F: FnOnce(DisplayIdentificationInformationWrite) -> DisplayIdentificationInformationWrite>(self, f: F) -> (r: Self)
        requires
            call_requires(f, ((DisplayIdentificationInformationWrite { d: self }),)),
        ensures
            call_ensures(f, ((DisplayIdentificationInformationWrite { d: self }),), (DisplayIdentificationInformationWrite { d: r })),
    {
        let w = f(DisplayIdentificationInformationWrite { d: self });
        proof {
            assert((DisplayIdentificationInformationWrite { d: w.d }) == w);
        }
        w.d
    }
}

impl Default for DisplayIdentificationInformation {
    /// The block with the chip's documented post-reset byte pattern.
    fn default() -> (r: Self)
        ensures
            r.data@ == DisplayIdentificationInformation::spec_default(),
    {
        let r = DisplayIdentificationInformation { data: [0x00, 0x00, 0x00] };
        proof {
            assert(r.data@ =~= DisplayIdentificationInformation::spec_default());
        }
        r
    }
}

/// Read view of [`DisplayIdentificationInformation`].
#[derive(Copy, Clone)]
pub struct DisplayIdentificationInformationRead {
    pub d: DisplayIdentificationInformation,
}

impl DisplayIdentificationInformationRead {
    /// `lcd_modules_manufacturer_id`: the whole of byte 0.
    pub fn lcd_modules_manufacturer_id(&self) -> (r: u8)
        ensures
            r == self.d.data@[0],
    {
        self.d.data[0]
    }

    /// `lcd_module_driver_version_id`: the whole of byte 1.
    pub fn lcd_module_driver_version_id(&self) -> (r: u8)
        ensures
            r == self.d.data@[1],
    {
        self.d.data[1]
    }

    /// `lcd_module_driver_id`: the whole of byte 2.
    pub fn lcd_module_driver_id(&self) -> (r: u8)
        ensures
            r == self.d.data@[2],
    {
        self.d.data[2]
    }
}

/// Write view of [`DisplayIdentificationInformation`].
#[derive(Copy, Clone)]
pub struct DisplayIdentificationInformationWrite {
    pub d: DisplayIdentificationInformation,
}

impl DisplayIdentificationInformationWrite {
    /// `lcd_modules_manufacturer_id`: written into byte 0; all other bits are kept.
    pub fn lcd_modules_manufacturer_id(self, w: u8) -> (r: Self)
        ensures
            r.d.data@ == self.d.data@.update(0, w),
    {
        let mut d = self.d;
        d.data[0] = w;
        DisplayIdentificationInformationWrite { d }
    }

    /// `lcd_module_driver_version_id`: written into byte 1; all other bits are kept.
    pub fn lcd_module_driver_version_id(self, w: u8) -> (r: Self)
        ensures
            r.d.data@ == self.d.data@.update(1, w),
    {
        let mut d = self.d;
        d.data[1] = w;
        DisplayIdentificationInformationWrite { d }
    }

    /// `lcd_module_driver_id`: written into byte 2; all other bits are kept.
    pub fn lcd_module_driver_id(self, w: u8) -> (r: Self)
        ensures
            r.d.data@ == self.d.data@.update(2, w),
    {
        let mut d = self.d;
        d.data[2] = w;
        DisplayIdentificationInformationWrite { d }
    }
}

} // verus!
