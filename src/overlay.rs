//! How the overlay shows each state: its opacity and colour.
use vstd::prelude::*;

use crate::rules::FlowState;

verus! {

/// Opacity (0 transparent, 255 opaque) and 0xRRGGBB colour of the overlay in a state:
/// transparent in flow, a light yellow tint in incubation, a white fog when stuck.
pub open spec fn appearance_spec(state: FlowState) -> (u8, u32) {
    match state {
        FlowState::Flow => (0, 0x000000),
        FlowState::Incubation => (25, 0xFFFF99),
        FlowState::Stuck => (76, 0xFFFFFF),
    }
}

/// The overlay's opacity and colour for `state`.
pub fn overlay_appearance(state: FlowState) -> (r: (u8, u32))
    ensures
        r == appearance_spec(state),
{
    match state {
        FlowState::Flow => (0, 0x000000),
        FlowState::Incubation => (25, 0xFFFF99),
        FlowState::Stuck => (76, 0xFFFFFF),
    }
}

/// Converts a 0xRRGGBB colour to the platform's 0x00BBGGRR layout: the red byte
/// goes low, the blue byte high; anything above the low 24 bits is dropped.
pub fn colorref_from_rgb(color: u32) -> (r: u32)
    ensures
        r == (color / 0x10000) % 0x100 + ((color / 0x100) % 0x100) * 0x100 + (color % 0x100)
            * 0x10000,
{
    let red = (color >> 16) & 0xFF;
    let green = (color >> 8) & 0xFF;
    let blue = color & 0xFF;
    assert(red == (color / 0x10000) % 0x100) by (bit_vector)
        requires
            red == (color >> 16) & 0xFF,
    ;
    assert(green == (color / 0x100) % 0x100) by (bit_vector)
        requires
            green == (color >> 8) & 0xFF,
    ;
    assert(blue == color % 0x100) by (bit_vector)
        requires
            blue == color & 0xFF,
    ;
    assert(red | (green << 8) | (blue << 16) == red + green * 0x100 + blue * 0x10000)
        by (bit_vector)
        requires
            red <= 0xFF,
            green <= 0xFF,
            blue <= 0xFF,
    ;
    red | (green << 8) | (blue << 16)
}

} // verus!
