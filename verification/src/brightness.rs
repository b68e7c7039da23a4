//! Brightness presets.

use vstd::prelude::*;

verus! {

/// A brightness setting: a contrast value together with a pre-charge phase-2
/// period, which must lie between 1 and 15.
#[derive(Clone, Copy, Debug, PartialEq, Eq, Structural)]
pub struct Brightness {
    contrast: u8,
    precharge: u8,
}

impl Brightness {
    /// The invariant every brightness value satisfies.
    pub closed spec fn wf(self) -> bool {
        0 < self.precharge <= 15
    }

    /// The contrast byte.
    pub closed spec fn spec_contrast(self) -> u8 {
        self.contrast
    }

    /// The pre-charge phase-2 period.
    pub closed spec fn spec_precharge(self) -> u8 {
        self.precharge
    }

    /// The brightness applied by initialization: the normal preset.
    pub closed spec fn spec_default() -> Brightness {
        Brightness { contrast: 0x5f, precharge: 2 }
    }

    /// The contrast byte.
    pub fn contrast(&self) -> (r: u8)
        ensures
            r == self.spec_contrast(),
    {
        self.contrast
    }

    /// The pre-charge phase-2 period.
    pub fn precharge(&self) -> (r: u8)
        ensures
            r == self.spec_precharge(),
    {
        self.precharge
    }

    /// A custom brightness from a pre-charge period and a contrast value.
    pub fn custom(precharge: u8, contrast: u8) -> (r: Self)
        requires
            0 < precharge <= 15,
        ensures
            r.wf(),
            r.spec_precharge() == precharge,
            r.spec_contrast() == contrast,
    {
        Brightness { contrast, precharge }
    }

    /// The dimmest preset.
    pub fn dimmest() -> (r: Self)
        ensures
            r.wf(),
            r.spec_precharge() == 1 && r.spec_contrast() == 0x00,
    {
        Brightness::custom(0x1, 0x00)
    }

    /// A dim preset.
    pub fn dim() -> (r: Self)
        ensures
            r.wf(),
            r.spec_precharge() == 2 && r.spec_contrast() == 0x2f,
    {
        Brightness::custom(0x2, 0x2f)
    }

    /// The normal preset, used after initialization.
    pub fn normal() -> (r: Self)
        ensures
            r.wf(),
            r == Self::spec_default(),
            r.spec_precharge() == 2 && r.spec_contrast() == 0x5f,
    {
        Brightness::custom(0x2, 0x5f)
    }

    /// A bright preset.
    pub fn bright() -> (r: Self)
        ensures
            r.wf(),
            r.spec_precharge() == 2 && r.spec_contrast() == 0x9f,
    {
        Brightness::custom(0x2, 0x9f)
    }

    /// The brightest preset.
    pub fn brightest() -> (r: Self)
        ensures
            r.wf(),
            r.spec_precharge() == 2 && r.spec_contrast() == 0xff,
    {
        Brightness::custom(0x2, 0xff)
    }
}

impl Default for Brightness {
    /// The default brightness is the normal preset.
    fn default() -> (r: Self)
        ensures
            r.wf(),
            r == Self::spec_default(),
            r.spec_precharge() == 2 && r.spec_contrast() == 0x5f,
    {
        Brightness::normal()
    }
}

} // verus!
