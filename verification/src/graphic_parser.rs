//! Typed records of the document's graphic resources: color entries as the
//! layout format states them.  Channel values are carried as integers scaled
//! by `COLOR_VALUE_SCALE` per unit.

use vstd::prelude::*;

verus! {

/// Scale of one color-channel unit in a `Color` record's value lists.
pub const COLOR_VALUE_SCALE: i64 = 100_000;

/// The color space a color record is expressed in.
#[derive(Debug, Clone, Copy, PartialEq, Eq, Structural)]
pub enum ColorSpace {
    RGB,
    CMYK,
    LAB,
    MixedInk,
    NoAlternateColor,
}

/// How a color entry may be overridden by the document.
#[derive(Debug, Clone, Copy, PartialEq, Eq, Structural)]
pub enum ColorOverride {
    Normal,
    Specialpaper,
    Specialblack,
    Specialregistration,
    Hiddenreserved,
    Mixedinkparent,
}

/// The ink model of a color entry.
#[derive(Debug, Clone, Copy, PartialEq, Eq, Structural)]
pub enum ColorModel {
    Spot,
    Process,
    Registration,
}

/// One color entry of the document's graphic resources.
#[derive(Debug, Clone)]
pub struct Color {
    pub id: Option<String>,
    pub alternate_color_value: Option<Vec<i64>>,
    pub alternate_space: Option<ColorSpace>,
    pub base_color: Option<String>,
    pub color_override: Option<ColorOverride>,
    pub color_value: Option<Vec<i64>>,
    pub model: Option<ColorModel>,
    pub space: Option<ColorSpace>,
    pub spot_ink_alias_spot_color_reference: Option<String>,
}

} // verus!
