//! The display registers and the entries of video memory.

use super::bits::{
    bit_set_to, field_set_to, set_bit, set_field, set_wide_field, wide_field_set_to,
};
use vstd::prelude::*;

verus! {

/// The display status register.
#[derive(Debug, PartialEq, Eq, Structural)]
pub struct DisplayStatus(pub u16);

impl DisplayStatus {
    /// Asks for an interrupt at the start of every vertical blank.
    pub fn enable_vblank_interrupts() -> (value: DisplayStatus)
        ensures
            value.0 == 0b0000_0000_0000_1000u16,
    {
        DisplayStatus(0b0000_0000_0000_1000)
    }
}

/// The display control register.
#[derive(Debug, PartialEq, Eq, Structural)]
pub struct DisplayControl(pub u16);

impl DisplayControl {
    /// Every bit clear.
    pub fn new() -> (control: Self)
        ensures
            control.0 == 0,
    {
        Self(0)
    }

    /// Chooses the background mode, 0 to 5: bits 0 to 2.
    pub fn with_bg_mode(self, mode: u8) -> (control: Self)
        requires
            mode <= 5,
        ensures
            control.0 == field_set_to(self.0, 0, 7, mode as u16),
    {
        Self(set_field(self.0, 0, 7, mode as u16))
    }

    /// Lays the object tiles out in one dimension or not: bit 6.
    pub fn with_obj_vram_1d(self, set: bool) -> (control: Self)
        ensures
            control.0 == bit_set_to(self.0, 6, set),
    {
        Self(set_bit(self.0, 6, set))
    }

    /// Shows background 0 or not: bit 8.
    pub fn with_bg0(self, show: bool) -> (control: Self)
        ensures
            control.0 == bit_set_to(self.0, 8, show),
    {
        Self(set_bit(self.0, 8, show))
    }

    /// Shows background 1 or not: bit 9.
    pub fn with_bg1(self, show: bool) -> (control: Self)
        ensures
            control.0 == bit_set_to(self.0, 9, show),
    {
        Self(set_bit(self.0, 9, show))
    }

    /// Shows background 2 or not: bit 10.
    pub fn with_bg2(self, show: bool) -> (control: Self)
        ensures
            control.0 == bit_set_to(self.0, 10, show),
    {
        Self(set_bit(self.0, 10, show))
    }

    /// Shows background 3 or not: bit 11.
    pub fn with_bg3(self, show: bool) -> (control: Self)
        ensures
            control.0 == bit_set_to(self.0, 11, show),
    {
        Self(set_bit(self.0, 11, show))
    }

    /// Shows the objects or not: bit 12.
    pub fn with_obj(self, show: bool) -> (control: Self)
        ensures
            control.0 == bit_set_to(self.0, 12, show),
    {
        Self(set_bit(self.0, 12, show))
    }
}

/// The control register of one background.
#[derive(Debug, PartialEq, Eq, Structural)]
pub struct BackgroundControl(pub u16);

impl BackgroundControl {
    /// Every bit clear.
    pub fn new() -> (control: Self)
        ensures
            control.0 == 0,
    {
        Self(0)
    }

    /// Set the priority, 0 to 3: bits 0 and 1.
    ///
    /// Note that 0 is *highest* priority, and 3 is *lowest*.
    pub fn with_priority(self, priority: u8) -> (control: Self)
        requires
            priority <= 3,
        ensures
            control.0 == field_set_to(self.0, 0, 3, priority as u16),
    {
        Self(set_field(self.0, 0, 3, priority as u16))
    }

    /// Chooses the block the tiles are read from, 0 to 3: bits 2 and 3.
    pub fn with_charblock(self, charblock: u8) -> (control: Self)
        requires
            charblock <= 3,
        ensures
            control.0 == field_set_to(self.0, 2, 3, charblock as u16),
    {
        Self(set_field(self.0, 2, 3, charblock as u16))
    }

    /// Makes the tiles eight bits per pixel or not: bit 7.
    pub fn with_8bpp(self, set: bool) -> (control: Self)
        ensures
            control.0 == bit_set_to(self.0, 7, set),
    {
        Self(set_bit(self.0, 7, set))
    }

    /// Chooses the block the map is read from, 0 to 31: bits 8 to 12.
    pub fn with_screenblock(self, screenblock: u8) -> (control: Self)
        requires
            screenblock <= 31,
        ensures
            control.0 == field_set_to(self.0, 8, 31, screenblock as u16),
    {
        Self(set_field(self.0, 8, 31, screenblock as u16))
    }

    /// Chooses the size of the map, 0 to 3: bits 14 and 15.
    pub fn with_screen_size(self, size: u8) -> (control: Self)
        requires
            size <= 3,
        ensures
            control.0 == field_set_to(self.0, 14, 3, size as u16),
    {
        Self(set_field(self.0, 14, 3, size as u16))
    }
}

/// What the blend unit does to the first target.
#[derive(Debug)]
pub enum ColorEffect {
    /// No effect.
    NoEffect,
    Blend,
    Brighten,
    Darken,
}

impl ColorEffect {
    /// The number the hardware knows the effect by.
    pub open spec fn spec_bits(&self) -> u16 {
        match self {
            ColorEffect::NoEffect => 0,
            ColorEffect::Blend => 1,
            ColorEffect::Brighten => 2,
            ColorEffect::Darken => 3,
        }
    }

    /// The number the hardware knows the effect by.
    #[verifier::when_used_as_spec(spec_bits)]
    pub fn bits(&self) -> (bits: u16)
        ensures
            bits == self.spec_bits(),
    {
        match self {
            ColorEffect::NoEffect => 0,
            ColorEffect::Blend => 1,
            ColorEffect::Brighten => 2,
            ColorEffect::Darken => 3,
        }
    }
}

/// The blend control register.
#[derive(Debug, PartialEq, Eq, Structural)]
pub struct BlendControl(pub u16);

impl BlendControl {
    /// Every bit clear.
    pub fn new() -> (control: Self)
        ensures
            control.0 == 0,
    {
        Self(0)
    }

    /// Makes background 0 a first target or not: bit 0.
    pub fn with_target1_bg0(self, set: bool) -> (control: Self)
        ensures
            control.0 == bit_set_to(self.0, 0, set),
    {
        Self(set_bit(self.0, 0, set))
    }

    /// Makes background 1 a first target or not: bit 1.
    pub fn with_target1_bg1(self, set: bool) -> (control: Self)
        ensures
            control.0 == bit_set_to(self.0, 1, set),
    {
        Self(set_bit(self.0, 1, set))
    }

    /// Makes background 2 a first target or not: bit 2.
    pub fn with_target1_bg2(self, set: bool) -> (control: Self)
        ensures
            control.0 == bit_set_to(self.0, 2, set),
    {
        Self(set_bit(self.0, 2, set))
    }

    /// Makes background 3 a first target or not: bit 3.
    pub fn with_target1_bg3(self, set: bool) -> (control: Self)
        ensures
            control.0 == bit_set_to(self.0, 3, set),
    {
        Self(set_bit(self.0, 3, set))
    }

    /// Makes the objects a first target or not: bit 4.
    pub fn with_target1_obj(self, set: bool) -> (control: Self)
        ensures
            control.0 == bit_set_to(self.0, 4, set),
    {
        Self(set_bit(self.0, 4, set))
    }

    /// Makes the backdrop a first target or not: bit 5.
    pub fn with_target1_backdrop(self, set: bool) -> (control: Self)
        ensures
            control.0 == bit_set_to(self.0, 5, set),
    {
        Self(set_bit(self.0, 5, set))
    }

    /// Chooses the effect: bits 6 and 7.
    pub fn with_color_effect(self, effect: ColorEffect) -> (control: Self)
        ensures
            control.0 == field_set_to(self.0, 6, 3, effect.spec_bits()),
    {
        Self(set_field(self.0, 6, 3, effect.bits()))
    }
}

/// A color of a palette, five bits each of red, green and blue.
#[derive(Debug, PartialEq, Eq, Structural)]
pub struct Color(pub u16);

/// One entry of a text background map.
#[derive(Clone, Copy, Debug, PartialEq, Eq, Structural)]
pub struct TextScreenEntry(pub u16);

impl TextScreenEntry {
    /// Tile 0 in palette 0, not mirrored.
    pub fn new() -> (entry: Self)
        ensures
            entry.0 == 0,
    {
        Self(0)
    }

    /// Chooses the tile, 0 to 1023: bits 0 to 9.
    pub fn with_tile(self, tile: u16) -> (entry: Self)
        requires
            tile <= 1023,
        ensures
            entry.0 == field_set_to(self.0, 0, 1023, tile),
    {
        Self(set_field(self.0, 0, 1023, tile))
    }

    /// Mirrors the tile left to right or not: bit 10.
    pub fn with_hflip(self, flipped: bool) -> (entry: Self)
        ensures
            entry.0 == bit_set_to(self.0, 10, flipped),
    {
        Self(set_bit(self.0, 10, flipped))
    }

    /// Mirrors the tile top to bottom or not: bit 11.
    pub fn with_vflip(self, flipped: bool) -> (entry: Self)
        ensures
            entry.0 == bit_set_to(self.0, 11, flipped),
    {
        Self(set_bit(self.0, 11, flipped))
    }

    /// Chooses the palette, 0 to 15: bits 12 to 15.
    pub fn with_palette(self, palette: u8) -> (entry: Self)
        requires
            palette <= 15,
        ensures
            entry.0 == field_set_to(self.0, 12, 15, palette as u16),
    {
        Self(set_field(self.0, 12, 15, palette as u16))
    }
}

/// The attributes of one object.
#[derive(Clone, Copy, Debug, PartialEq, Eq, Structural)]
pub struct ObjectAttributes(pub u64);

impl ObjectAttributes {
    /// Every bit clear.
    pub fn new() -> (attributes: Self)
        ensures
            attributes.0 == 0,
    {
        Self(0)
    }

    /// Chooses the row of the top edge: bits 0 to 7.
    pub fn with_y(self, y: u8) -> (attributes: Self)
        ensures
            attributes.0 == wide_field_set_to(self.0, 0, 255, y as u64),
    {
        Self(set_wide_field(self.0, 0, 255, y as u64))
    }

    /// Hides the object or not: bit 9.
    pub fn with_disabled(self, disabled: bool) -> (attributes: Self)
        ensures
            attributes.0 == wide_field_set_to(
                self.0,
                9,
                1,
                if disabled {
                    1
                } else {
                    0
                },
            ),
    {
        Self(
            set_wide_field(
                self.0,
                9,
                1,
                if disabled {
                    1
                } else {
                    0
                },
            ),
        )
    }

    /// Chooses the column of the left edge: bits 16 to 24.
    ///
    /// Nothing keeps `x` within its nine bits: what is above them goes into
    /// the bits above the field.
    pub fn with_x(self, x: u16) -> (attributes: Self)
        ensures
            attributes.0 == wide_field_set_to(self.0, 16, 511, x as u64),
    {
        Self(set_wide_field(self.0, 16, 511, x as u64))
    }

    /// Chooses the size, 0 to 3: bits 30 and 31.
    pub fn with_size(self, size: u8) -> (attributes: Self)
        requires
            size <= 3,
        ensures
            attributes.0 == wide_field_set_to(self.0, 30, 3, size as u64),
    {
        Self(set_wide_field(self.0, 30, 3, size as u64))
    }

    /// Chooses the first tile, 0 to 1023: bits 32 to 41.
    pub fn with_tile(self, tile: u16) -> (attributes: Self)
        requires
            tile <= 1023,
        ensures
            attributes.0 == wide_field_set_to(self.0, 32, 1023, tile as u64),
    {
        Self(set_wide_field(self.0, 32, 1023, tile as u64))
    }

    /// Chooses the palette, 0 to 15: bits 44 to 47.
    pub fn with_palette(self, palette: u8) -> (attributes: Self)
        requires
            palette <= 15,
        ensures
            attributes.0 == wide_field_set_to(self.0, 44, 15, palette as u64),
    {
        Self(set_wide_field(self.0, 44, 15, palette as u64))
    }
}

} // verus!
