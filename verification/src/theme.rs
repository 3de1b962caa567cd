use vstd::prelude::*;

verus! {

/// Seed colours of the built-in themes, as `0xAARRGGBB`.
pub const PRESET_VIOLET: u32 = 0xFF6750A4;
pub const PRESET_OCEAN: u32 = 0xFF0061A4;
pub const PRESET_FOREST: u32 = 0xFF006E1C;
pub const PRESET_FIRE: u32 = 0xFFB91D1D;
pub const PRESET_GOLD: u32 = 0xFF725C00;

/// A 24-bit colour.
#[derive(Clone, Copy, Debug, PartialEq, Eq, Structural)]
pub struct RgbColor {
    pub r: u8,
    pub g: u8,
    pub b: u8,
}

/// The red, green and blue bytes of a colour written as `0xAARRGGBB`; the
/// alpha byte is dropped.
pub open spec fn spec_argb_to_color(argb: u32) -> RgbColor {
    RgbColor {
        r: ((argb / 0x10000) % 0x100) as u8,
        g: ((argb / 0x100) % 0x100) as u8,
        b: (argb % 0x100) as u8,
    }
}

/// The red, green and blue bytes of a colour written as `0xAARRGGBB`.
pub fn argb_to_color(argb: u32) -> (c: RgbColor)
    ensures
        c == spec_argb_to_color(argb),
{
    RgbColor {
        r: ((argb / 0x10000) % 0x100) as u8,
        g: ((argb / 0x100) % 0x100) as u8,
        b: (argb % 0x100) as u8,
    }
}

/// The seed colour and name of each built-in theme, in the order the
/// gallery lists them.
pub fn theme_presets() -> (p: Vec<(&'static str, u32)>)
    ensures
        p@.len() == 5,
        p@[0].1 == PRESET_VIOLET && p@[0].0@ == "violet"@,
        p@[1].1 == PRESET_OCEAN && p@[1].0@ == "ocean"@,
        p@[2].1 == PRESET_FOREST && p@[2].0@ == "forest"@,
        p@[3].1 == PRESET_FIRE && p@[3].0@ == "fire"@,
        p@[4].1 == PRESET_GOLD && p@[4].0@ == "gold"@,
{
    vec![
        ("violet", PRESET_VIOLET),
        ("ocean", PRESET_OCEAN),
        ("forest", PRESET_FOREST),
        ("fire", PRESET_FIRE),
        ("gold", PRESET_GOLD),
    ]
}

} // verus!
