//! Glyph load flags and render modes of the rasterization engine.

use vstd::prelude::*;

verus! {

/// A set of glyph load flags, one bit each.
#[derive(Debug, Clone, Copy, PartialEq, Eq, Hash, Structural)]
pub struct LoadFlags {
    pub bits: u32,
}

/// No flag: the engine's default way to load a glyph.
pub const LOAD_DEFAULT: u32 = 0x0;

/// Leave the glyph in font units.
pub const LOAD_NO_SCALE: u32 = 0x1;

/// Do not hint the outline.
pub const LOAD_NO_HINTING: u32 = 0x2;

/// Render the glyph after loading it.
pub const LOAD_RENDER: u32 = 0x4;

/// Ignore embedded bitmaps.
pub const LOAD_NO_BITMAP: u32 = 0x8;

/// Load the metrics for vertical layout.
pub const LOAD_VERTICAL_LAYOUT: u32 = 0x10;

/// Prefer the automatic hinter.
pub const LOAD_FORCE_AUTOHINT: u32 = 0x20;

/// Render in one bit per pixel.
pub const LOAD_MONOCHROME: u32 = 0x1000;

/// Never use the automatic hinter.
pub const LOAD_NO_AUTOHINT: u32 = 0x8000;

/// Load colour glyphs where the face has them.
pub const LOAD_COLOR: u32 = 0x10_0000;

/// Lowest bit of the field that names the hinting algorithm.
pub const LOAD_TARGET_SHIFT: u32 = 16;

/// How a glyph is to be rendered, which also selects the hinting algorithm
/// with which it is loaded.
#[derive(Debug, Clone, Copy, PartialEq, Eq, Hash, Structural)]
pub enum RenderMode {
    Normal,
    Light,
    Mono,
    Lcd,
    LcdV,
}

impl RenderMode {
    /// The engine's number for the mode.
    pub open spec fn spec_index(self) -> u32 {
        match self {
            RenderMode::Normal => 0,
            RenderMode::Light => 1,
            RenderMode::Mono => 2,
            RenderMode::Lcd => 3,
            RenderMode::LcdV => 4,
        }
    }

    /// The engine's number for the mode.
    pub fn index(self) -> (index: u32)
        ensures
            index == self.spec_index(),
    {
        match self {
            RenderMode::Normal => 0,
            RenderMode::Light => 1,
            RenderMode::Mono => 2,
            RenderMode::Lcd => 3,
            RenderMode::LcdV => 4,
        }
    }

    /// The load flag bits that select the mode's hinting algorithm: the
    /// mode's number in the target field.
    pub open spec fn spec_load_target(self) -> u32 {
        (self.spec_index() * 0x1_0000) as u32
    }

    /// The load flag bits that select the mode's hinting algorithm.
    pub fn load_target(self) -> (bits: u32)
        ensures
            bits == self.spec_load_target(),
            bits == self.spec_index() << LOAD_TARGET_SHIFT,
    {
        let index = self.index();
        assert(index << 16u32 == index * 0x1_0000) by (bit_vector)
            requires
                index <= 4,
        ;
        index << LOAD_TARGET_SHIFT
    }
}

impl LoadFlags {
    /// The empty set.
    pub fn empty() -> (flags: LoadFlags)
        ensures
            flags.bits == 0,
    {
        LoadFlags { bits: LOAD_DEFAULT }
    }

    /// The set with exactly the given bits.
    pub fn from_bits(bits: u32) -> (flags: LoadFlags)
        ensures
            flags.bits == bits,
    {
        LoadFlags { bits }
    }

    /// Whether every flag of `other` is in the set.
    pub open spec fn spec_contains(self, other: LoadFlags) -> bool {
        self.bits & other.bits == other.bits
    }

    /// Whether every flag of `other` is in the set.
    pub fn contains(self, other: LoadFlags) -> (found: bool)
        ensures
            found == self.spec_contains(other),
    {
        self.bits & other.bits == other.bits
    }

    /// The flags of both sets.
    pub fn union(self, other: LoadFlags) -> (flags: LoadFlags)
        ensures
            flags.bits == self.bits | other.bits,
            flags.spec_contains(self),
            flags.spec_contains(other),
    {
        let a = self.bits;
        let b = other.bits;
        assert((a | b) & a == a && (a | b) & b == b) by (bit_vector);
        LoadFlags { bits: a | b }
    }

    /// Whether the flags ask for a glyph in font units.
    pub open spec fn unscaled(self) -> bool {
        self.bits & LOAD_NO_SCALE != 0
    }

    /// Whether the flags ask for a glyph in font units.
    pub fn is_unscaled(self) -> (unscaled: bool)
        ensures
            unscaled == self.unscaled(),
    {
        self.bits & LOAD_NO_SCALE != 0
    }

    /// The flags with which a glyph is loaded for `mode`: the given flags
    /// and the bits of the mode's hinting algorithm.
    pub fn for_render(self, mode: RenderMode) -> (flags: LoadFlags)
        ensures
            flags.bits == self.bits | mode.spec_load_target(),
    {
        LoadFlags { bits: self.bits | mode.load_target() }
    }
}

} // verus!
