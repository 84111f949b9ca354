//! Packing and unpacking of the 24-bit colors stored in the pixel buffer.

use vstd::prelude::*;

verus! {

/// The packed color value for channels `(r, g, b)`: `r` in bits 16..24,
/// `g` in bits 8..16, `b` in bits 0..8.
pub open spec fn spec_combine_color(r: u8, g: u8, b: u8) -> u32 {
    (r * 0x10000 + g * 0x100 + b) as u32
}

/// Channel `component_index` of a packed color: 0 is red, 1 is green,
/// 2 is blue, and any other index reads as 0.
pub open spec fn spec_get_component(color: u32, component_index: u8) -> u8 {
    if component_index == 0 {
        ((color / 0x10000) % 0x100) as u8
    } else if component_index == 1 {
        ((color / 0x100) % 0x100) as u8
    } else if component_index == 2 {
        (color % 0x100) as u8
    } else {
        0u8
    }
}

/// Packs three 8-bit channels into one color value.
pub fn combine_color(r: u8, g: u8, b: u8) -> (color: u32)
    ensures
        color == spec_combine_color(r, g, b),
{
    (r as u32) * 0x10000 + (g as u32) * 0x100 + (b as u32)
}

/// Extracts one 8-bit channel from a packed color value.
pub fn get_component(color: u32, component_index: u8) -> (component: u8)
    ensures
        component == spec_get_component(color, component_index),
{
    match component_index {
        0 => ((color / 0x10000) % 0x100) as u8,
        1 => ((color / 0x100) % 0x100) as u8,
        2 => (color % 0x100) as u8,
        _ => 0,
    }
}

} // verus!
